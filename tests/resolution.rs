use bp3d_os::dirs::{App, Error};
use bp3d_os::location::Location;
use bp3d_os::system;

fn native(
    cache: Option<&str>,
    config: Option<&str>,
    data: Option<&str>,
    logs: Option<&str>,
    documents: Option<&str>,
) -> system::App {
    system::App {
        cache: cache.map(Location::new),
        config: config.map(Location::new),
        data: data.map(Location::new),
        logs: logs.map(Location::new),
        documents: documents.map(Location::new),
    }
}

fn rendered(dirs: &[Location]) -> Vec<String> {
    dirs.iter().map(|l| l.to_path_string()).collect()
}

fn only_data(data: &str) -> system::App {
    native(None, None, Some(data), None, None)
}

#[test]
fn resolving_twice_gives_the_same_directories() {
    let app = App::new("Foo");
    let n = native(Some("/var/cache"), None, Some("/root/data"), None, None);
    let first = rendered(&app.get_cache(&n).ok().unwrap());
    let second = rendered(&app.get_cache(&n).ok().unwrap());
    assert_eq!(first, second);
    assert_eq!(first, vec!["/var/cache/Foo".to_string()]);
    let first = rendered(&app.get_logs(&only_data("/root/data")).ok().unwrap());
    let second = rendered(&app.get_logs(&only_data("/root/data")).ok().unwrap());
    assert_eq!(first, second);
}

#[test]
fn fallbacks_nest_under_data() {
    let app = App::new("Foo");
    let n = only_data("/root/data");
    assert_eq!(
        rendered(&app.get_cache(&n).ok().unwrap()),
        vec!["/root/data", "/root/data/Cache"]
    );
    assert_eq!(
        rendered(&app.get_config(&n).ok().unwrap()),
        vec!["/root/data", "/root/data/Config"]
    );
    assert_eq!(
        rendered(&app.get_documents(&n).ok().unwrap()),
        vec!["/root/data", "/root/data/Documents"]
    );
    assert_eq!(
        rendered(&app.get_logs(&n).ok().unwrap()),
        vec!["/root/data", "/root/data/Documents", "/root/data/Documents/Logs"]
    );
}

#[test]
fn data_is_used_as_reported() {
    let app = App::new("Foo");
    let dirs = app.get_data(&only_data("/root/data")).ok().unwrap();
    assert_eq!(rendered(&dirs), vec!["/root/data"]);
    assert_eq!(dirs[0].parts(), &vec!["/root/data".to_string()]);
}

#[test]
fn missing_data_fails_every_category() {
    let app = App::new("Foo");
    let n = native(None, None, None, None, None);
    assert!(matches!(app.get_data(&n), Err(Error::MissingDataDir)));
    assert!(matches!(app.get_cache(&n), Err(Error::MissingDataDir)));
    assert!(matches!(app.get_config(&n), Err(Error::MissingDataDir)));
    assert!(matches!(app.get_documents(&n), Err(Error::MissingDataDir)));
    assert!(matches!(app.get_logs(&n), Err(Error::MissingDataDir)));
}

#[test]
fn missing_data_with_sandboxed_documents_fails() {
    let app = App::new("Foo");
    let n = native(
        None,
        None,
        None,
        None,
        Some("/Users/me/Library/Containers/com.foo/Data/Documents"),
    );
    assert!(matches!(app.get_documents(&n), Err(Error::MissingDataDir)));
    assert!(matches!(app.get_logs(&n), Err(Error::MissingDataDir)));
}

#[test]
fn native_directories_need_no_data_root() {
    let app = App::new("Foo");
    let n = native(Some("/c"), Some("/f"), None, Some("/l"), Some("/d"));
    assert_eq!(rendered(&app.get_cache(&n).ok().unwrap()), vec!["/c/Foo"]);
    assert_eq!(rendered(&app.get_config(&n).ok().unwrap()), vec!["/f/Foo"]);
    assert_eq!(rendered(&app.get_logs(&n).ok().unwrap()), vec!["/l/Foo"]);
    assert_eq!(rendered(&app.get_documents(&n).ok().unwrap()), vec!["/d"]);
    assert!(matches!(app.get_data(&n), Err(Error::MissingDataDir)));
}

#[test]
fn sandboxed_documents_fall_back_under_data() {
    let app = App::new("Foo");
    let sandboxed = native(
        None,
        None,
        Some("/root/data"),
        None,
        Some("/Users/me/Library/Containers/com.foo/Data/Documents"),
    );
    let absent = only_data("/root/data");
    let expected = vec!["/root/data", "/root/data/Documents"];
    assert_eq!(rendered(&app.get_documents(&sandboxed).ok().unwrap()), expected);
    assert_eq!(rendered(&app.get_documents(&absent).ok().unwrap()), expected);
    assert_eq!(
        rendered(&app.get_logs(&sandboxed).ok().unwrap()),
        rendered(&app.get_logs(&absent).ok().unwrap())
    );
}

#[test]
fn public_documents_are_used_verbatim() {
    let app = App::new("Foo");
    let n = native(None, None, Some("/root/data"), None, Some("/Users/me/Documents"));
    assert_eq!(
        rendered(&app.get_documents(&n).ok().unwrap()),
        vec!["/Users/me/Documents"]
    );
    assert_eq!(
        rendered(&app.get_logs(&n).ok().unwrap()),
        vec!["/Users/me/Documents", "/Users/me/Documents/Logs"]
    );
}

#[test]
fn native_cache_is_namespaced() {
    let app = App::new("Bar");
    let n = native(Some("/var/cache"), None, Some("/root/data"), None, None);
    let dirs = app.get_cache(&n).ok().unwrap();
    assert_eq!(rendered(&dirs), vec!["/var/cache/Bar"]);
    assert_ne!(dirs[0].to_path_string(), "/var/cache");
    assert_eq!(dirs[0].parts(), &vec!["/var/cache".to_string(), "Bar".to_string()]);
}

#[test]
fn concurrent_resolutions_agree() {
    let app_a = App::new("Foo");
    let app_b = App::new("Foo");
    let n = only_data("/root/data");
    let a = rendered(&app_a.get_config(&n).ok().unwrap());
    let b = rendered(&app_b.get_config(&n).ok().unwrap());
    assert_eq!(a, b);
}

#[test]
fn application_name_is_kept() {
    assert_eq!(App::new("Foo").name(), "Foo");
}

#[test]
fn io_errors_convert() {
    let err = std::io::Error::new(std::io::ErrorKind::PermissionDenied, "denied");
    match Error::from(err) {
        Error::Io(e) => assert_eq!(e.kind(), std::io::ErrorKind::PermissionDenied),
        Error::MissingDataDir => panic!("expected an io error"),
    }
}
