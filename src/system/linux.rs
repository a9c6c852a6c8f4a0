//! Directories under the XDG base directory conventions.
use vstd::prelude::*;
use crate::location::{opt_view, Location, PathView};
use crate::system::{
    asset_location, asset_view, nested_location, nested_view, root_location, root_view, AppView,
    UserView,
};

verus! {

/// The environment variables that the XDG conventions consult.
pub struct Environment {
    pub xdg_cache_home: Option<String>,
    pub xdg_config_home: Option<String>,
    pub xdg_data_home: Option<String>,
    pub xdg_documents_dir: Option<String>,
    pub xdg_download_dir: Option<String>,
    pub home: Option<String>,
}

/// The directory named by an XDG variable, else `default` under the home
/// directory, else none.
pub open spec fn xdg_view(var: Option<String>, home: Option<String>, default: Seq<char>) -> Option<
    PathView,
> {
    match var {
        Some(v) => Some(seq![v@]),
        None => nested_view(home, default),
    }
}

/// What the XDG conventions report for the application-scoped directories.
pub open spec fn app_view(env: Environment) -> AppView {
    AppView {
        cache: xdg_view(env.xdg_cache_home, env.home, ".cache"@),
        config: xdg_view(env.xdg_config_home, env.home, ".config"@),
        data: xdg_view(env.xdg_data_home, env.home, ".local/share"@),
        logs: None,
        documents: None,
    }
}

/// What the XDG conventions report for the user's directories.
pub open spec fn user_view(env: Environment) -> UserView {
    UserView {
        home: root_view(env.home),
        documents: xdg_view(env.xdg_documents_dir, env.home, "Documents"@),
        downloads: xdg_view(env.xdg_download_dir, env.home, "Downloads"@),
    }
}

fn xdg_location(var: &Option<String>, home: &Option<String>, default: &str) -> (r: Option<
    Location,
>)
    ensures
        opt_view(r) == xdg_view(*var, *home, default@),
{
    match var {
        Some(v) => Some(Location::new(v.as_str())),
        None => nested_location(home, default),
    }
}

pub fn get_app_cache(env: &Environment) -> (r: Option<Location>)
    ensures
        opt_view(r) == app_view(*env).cache,
{
    xdg_location(&env.xdg_cache_home, &env.home, ".cache")
}

pub fn get_app_config(env: &Environment) -> (r: Option<Location>)
    ensures
        opt_view(r) == app_view(*env).config,
{
    xdg_location(&env.xdg_config_home, &env.home, ".config")
}

pub fn get_app_data(env: &Environment) -> (r: Option<Location>)
    ensures
        opt_view(r) == app_view(*env).data,
{
    xdg_location(&env.xdg_data_home, &env.home, ".local/share")
}

/// Per-application logs have no native directory here.
pub fn get_app_logs() -> (r: Option<Location>)
    ensures
        r is None,
{
    None
}

/// Per-application documents have no native directory here.
pub fn get_app_documents() -> (r: Option<Location>)
    ensures
        r is None,
{
    None
}

/// The file `file_name` in the `Assets` folder beside the executable, given
/// the directory that holds the executable.
pub fn get_app_bundled_asset(exe_dir: &Option<Location>, file_name: &str) -> (r: Option<Location>)
    ensures
        opt_view(r) == asset_view(opt_view(*exe_dir), file_name@),
{
    asset_location(exe_dir, file_name)
}

pub fn get_user_home(env: &Environment) -> (r: Option<Location>)
    ensures
        opt_view(r) == user_view(*env).home,
{
    root_location(&env.home)
}

pub fn get_user_documents(env: &Environment) -> (r: Option<Location>)
    ensures
        opt_view(r) == user_view(*env).documents,
{
    xdg_location(&env.xdg_documents_dir, &env.home, "Documents")
}

pub fn get_user_downloads(env: &Environment) -> (r: Option<Location>)
    ensures
        opt_view(r) == user_view(*env).downloads,
{
    xdg_location(&env.xdg_download_dir, &env.home, "Downloads")
}

} // verus!
