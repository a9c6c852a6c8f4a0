//! Directories of an application on iOS, where every application is sandboxed.
use vstd::prelude::*;
use crate::location::{opt_view, Location};
use crate::system::apple_shared::Folders;
use crate::system::{nested_location, nested_view, root_location, root_view, AppView, UserView};

verus! {

/// What the file manager's folders give for the application-scoped directories.
pub open spec fn app_view(folders: Folders) -> AppView {
    AppView {
        cache: root_view(folders.caches),
        config: nested_view(folders.library, "Preferences"@),
        data: root_view(folders.application_support),
        logs: nested_view(folders.library, "Logs"@),
        documents: root_view(folders.documents),
    }
}

/// There are no user directories: applications see only their own container.
pub open spec fn user_view(folders: Folders) -> UserView {
    UserView { home: None, documents: None, downloads: None }
}

pub fn get_app_cache(folders: &Folders) -> (r: Option<Location>)
    ensures
        opt_view(r) == app_view(*folders).cache,
{
    root_location(&folders.caches)
}

pub fn get_app_config(folders: &Folders) -> (r: Option<Location>)
    ensures
        opt_view(r) == app_view(*folders).config,
{
    nested_location(&folders.library, "Preferences")
}

pub fn get_app_data(folders: &Folders) -> (r: Option<Location>)
    ensures
        opt_view(r) == app_view(*folders).data,
{
    root_location(&folders.application_support)
}

pub fn get_app_logs(folders: &Folders) -> (r: Option<Location>)
    ensures
        opt_view(r) == app_view(*folders).logs,
{
    nested_location(&folders.library, "Logs")
}

pub fn get_app_documents(folders: &Folders) -> (r: Option<Location>)
    ensures
        opt_view(r) == app_view(*folders).documents,
{
    root_location(&folders.documents)
}

} // verus!
