//! Directories that Windows reports as known folders.
use vstd::prelude::*;
use crate::location::{opt_view, Location};
use crate::system::{asset_location, asset_view, root_location, root_view, AppView, UserView};

verus! {

/// The known folders of the current user, as the shell reports them.
pub struct KnownFolders {
    pub local_app_data: Option<String>,
    pub roaming_app_data: Option<String>,
    pub profile: Option<String>,
    pub documents: Option<String>,
    pub downloads: Option<String>,
}

/// What the known folders give for the application-scoped directories.
pub open spec fn app_view(folders: KnownFolders) -> AppView {
    AppView {
        cache: root_view(folders.local_app_data),
        config: None,
        data: root_view(folders.roaming_app_data),
        logs: None,
        documents: None,
    }
}

/// What the known folders give for the user's directories.
pub open spec fn user_view(folders: KnownFolders) -> UserView {
    UserView {
        home: root_view(folders.profile),
        documents: root_view(folders.documents),
        downloads: root_view(folders.downloads),
    }
}

pub fn get_app_cache(folders: &KnownFolders) -> (r: Option<Location>)
    ensures
        opt_view(r) == app_view(*folders).cache,
{
    root_location(&folders.local_app_data)
}

/// There is no dedicated application config folder.
pub fn get_app_config() -> (r: Option<Location>)
    ensures
        r is None,
{
    None
}

pub fn get_app_data(folders: &KnownFolders) -> (r: Option<Location>)
    ensures
        opt_view(r) == app_view(*folders).data,
{
    root_location(&folders.roaming_app_data)
}

/// There is no dedicated application logs folder.
pub fn get_app_logs() -> (r: Option<Location>)
    ensures
        r is None,
{
    None
}

/// There is no dedicated public documents folder per application.
pub fn get_app_documents() -> (r: Option<Location>)
    ensures
        r is None,
{
    None
}

/// The file `file_name` in the `Assets` folder beside the executable, given
/// the directory that holds the executable.
pub fn get_app_bundled_asset(exe_dir: &Option<Location>, file_name: &str) -> (r: Option<Location>)
    ensures
        opt_view(r) == asset_view(opt_view(*exe_dir), file_name@),
{
    asset_location(exe_dir, file_name)
}

pub fn get_user_home(folders: &KnownFolders) -> (r: Option<Location>)
    ensures
        opt_view(r) == user_view(*folders).home,
{
    root_location(&folders.profile)
}

pub fn get_user_documents(folders: &KnownFolders) -> (r: Option<Location>)
    ensures
        opt_view(r) == user_view(*folders).documents,
{
    root_location(&folders.documents)
}

pub fn get_user_downloads(folders: &KnownFolders) -> (r: Option<Location>)
    ensures
        opt_view(r) == user_view(*folders).downloads,
{
    root_location(&folders.downloads)
}

} // verus!
