//! What each supported platform natively reports as its directories.
//!
//! The answers are plain values: reading them (environment variables, shell
//! folder queries, the file manager) happens outside this crate, and the
//! functions here decide what each answer means as a location.
use vstd::prelude::*;
use crate::location::{opt_view, Location, PathView};

pub mod apple_shared;
pub mod ios;
pub mod linux;
pub mod windows;

verus! {

/// The view of the application-scoped native answers.
pub struct AppView {
    pub cache: Option<PathView>,
    pub config: Option<PathView>,
    pub data: Option<PathView>,
    pub logs: Option<PathView>,
    pub documents: Option<PathView>,
}

/// The view of the user-scoped native answers.
pub struct UserView {
    pub home: Option<PathView>,
    pub documents: Option<PathView>,
    pub downloads: Option<PathView>,
}

/// The native application-scoped directories of a platform; `None` where the
/// platform has no such directory.
pub struct App {
    pub cache: Option<Location>,
    pub config: Option<Location>,
    pub data: Option<Location>,
    pub logs: Option<Location>,
    pub documents: Option<Location>,
}

impl View for App {
    type V = AppView;

    open spec fn view(&self) -> AppView {
        AppView {
            cache: opt_view(self.cache),
            config: opt_view(self.config),
            data: opt_view(self.data),
            logs: opt_view(self.logs),
            documents: opt_view(self.documents),
        }
    }
}

/// The native directories of the current user; `None` where the platform has
/// no such directory.
pub struct User {
    pub home: Option<Location>,
    pub documents: Option<Location>,
    pub downloads: Option<Location>,
}

impl View for User {
    type V = UserView;

    open spec fn view(&self) -> UserView {
        UserView {
            home: opt_view(self.home),
            documents: opt_view(self.documents),
            downloads: opt_view(self.downloads),
        }
    }
}

/// A reported directory taken as a root.
pub open spec fn root_view(dir: Option<String>) -> Option<PathView> {
    match dir {
        Some(d) => Some(seq![d@]),
        None => None,
    }
}

/// A reported directory with `segment` nested under it.
pub open spec fn nested_view(dir: Option<String>, segment: Seq<char>) -> Option<PathView> {
    match dir {
        Some(d) => Some(seq![d@, segment]),
        None => None,
    }
}

/// The file `file_name` in the `Assets` folder beside the executable.
pub open spec fn asset_view(exe_dir: Option<PathView>, file_name: Seq<char>) -> Option<PathView> {
    match exe_dir {
        Some(d) => Some(d.push("Assets"@).push(file_name)),
        None => None,
    }
}

pub(crate) fn root_location(dir: &Option<String>) -> (r: Option<Location>)
    ensures
        opt_view(r) == root_view(*dir),
{
    match dir {
        Some(d) => Some(Location::new(d.as_str())),
        None => None,
    }
}

pub(crate) fn nested_location(dir: &Option<String>, segment: &str) -> (r: Option<Location>)
    ensures
        opt_view(r) == nested_view(*dir, segment@),
{
    match dir {
        Some(d) => {
            let r = Location::new(d.as_str()).join(segment);
            assert(r@ =~= seq![d@, segment@]);
            Some(r)
        },
        None => None,
    }
}

pub(crate) fn asset_location(exe_dir: &Option<Location>, file_name: &str) -> (r: Option<Location>)
    ensures
        opt_view(r) == asset_view(opt_view(*exe_dir), file_name@),
{
    match exe_dir {
        Some(d) => Some(d.join("Assets").join(file_name)),
        None => None,
    }
}

} // verus!

verus! {

/// The platform the application runs on, with what it natively reports.
pub enum Platform {
    Linux(linux::Environment),
    Windows(windows::KnownFolders),
    Ios(apple_shared::Folders),
}

/// What a platform reports for the application-scoped directories.
pub open spec fn app_view_of(platform: Platform) -> AppView {
    match platform {
        Platform::Linux(env) => linux::app_view(env),
        Platform::Windows(folders) => windows::app_view(folders),
        Platform::Ios(folders) => ios::app_view(folders),
    }
}

/// What a platform reports for the user's directories.
pub open spec fn user_view_of(platform: Platform) -> UserView {
    match platform {
        Platform::Linux(env) => linux::user_view(env),
        Platform::Windows(folders) => windows::user_view(folders),
        Platform::Ios(folders) => ios::user_view(folders),
    }
}

/// The native cache directory of the platform.
pub fn get_app_cache(platform: &Platform) -> (r: Option<Location>)
    ensures
        opt_view(r) == app_view_of(*platform).cache,
{
    match platform {
        Platform::Linux(env) => linux::get_app_cache(env),
        Platform::Windows(folders) => windows::get_app_cache(folders),
        Platform::Ios(folders) => ios::get_app_cache(folders),
    }
}

/// The native config directory of the platform.
pub fn get_app_config(platform: &Platform) -> (r: Option<Location>)
    ensures
        opt_view(r) == app_view_of(*platform).config,
{
    match platform {
        Platform::Linux(env) => linux::get_app_config(env),
        Platform::Windows(_) => windows::get_app_config(),
        Platform::Ios(folders) => ios::get_app_config(folders),
    }
}

/// The native data directory of the platform.
pub fn get_app_data(platform: &Platform) -> (r: Option<Location>)
    ensures
        opt_view(r) == app_view_of(*platform).data,
{
    match platform {
        Platform::Linux(env) => linux::get_app_data(env),
        Platform::Windows(folders) => windows::get_app_data(folders),
        Platform::Ios(folders) => ios::get_app_data(folders),
    }
}

/// The native logs directory of the platform.
pub fn get_app_logs(platform: &Platform) -> (r: Option<Location>)
    ensures
        opt_view(r) == app_view_of(*platform).logs,
{
    match platform {
        Platform::Linux(_) => linux::get_app_logs(),
        Platform::Windows(_) => windows::get_app_logs(),
        Platform::Ios(folders) => ios::get_app_logs(folders),
    }
}

/// The native public documents directory of the platform.
pub fn get_app_documents(platform: &Platform) -> (r: Option<Location>)
    ensures
        opt_view(r) == app_view_of(*platform).documents,
{
    match platform {
        Platform::Linux(_) => linux::get_app_documents(),
        Platform::Windows(_) => windows::get_app_documents(),
        Platform::Ios(folders) => ios::get_app_documents(folders),
    }
}

/// The user's home directory.
pub fn get_user_home(platform: &Platform) -> (r: Option<Location>)
    ensures
        opt_view(r) == user_view_of(*platform).home,
{
    match platform {
        Platform::Linux(env) => linux::get_user_home(env),
        Platform::Windows(folders) => windows::get_user_home(folders),
        Platform::Ios(_) => None,
    }
}

/// The user's documents directory.
pub fn get_user_documents(platform: &Platform) -> (r: Option<Location>)
    ensures
        opt_view(r) == user_view_of(*platform).documents,
{
    match platform {
        Platform::Linux(env) => linux::get_user_documents(env),
        Platform::Windows(folders) => windows::get_user_documents(folders),
        Platform::Ios(_) => None,
    }
}

/// The user's downloads directory.
pub fn get_user_downloads(platform: &Platform) -> (r: Option<Location>)
    ensures
        opt_view(r) == user_view_of(*platform).downloads,
{
    match platform {
        Platform::Linux(env) => linux::get_user_downloads(env),
        Platform::Windows(folders) => windows::get_user_downloads(folders),
        Platform::Ios(_) => None,
    }
}

impl App {
    /// Everything a platform reports for the application-scoped directories.
    pub fn of(platform: &Platform) -> (r: App)
        ensures
            r@ == app_view_of(*platform),
    {
        App {
            cache: get_app_cache(platform),
            config: get_app_config(platform),
            data: get_app_data(platform),
            logs: get_app_logs(platform),
            documents: get_app_documents(platform),
        }
    }
}

impl User {
    /// Everything a platform reports for the user's directories.
    pub fn of(platform: &Platform) -> (r: User)
        ensures
            r@ == user_view_of(*platform),
    {
        User {
            home: get_user_home(platform),
            documents: get_user_documents(platform),
            downloads: get_user_downloads(platform),
        }
    }
}

} // verus!
