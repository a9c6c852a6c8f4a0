//! Resolution of an application's directories.
//!
//! Each category has one rule. The native answer of the platform is preferred;
//! where there is none, the directory is synthesised under the one it falls
//! back to:
//!
//! | category  | native answer            | fallback            |
//! |-----------|--------------------------|---------------------|
//! | data      | used as it is            | none: an error      |
//! | cache     | application name nested  | `<data>/Cache`      |
//! | config    | application name nested  | `<data>/Config`     |
//! | documents | used unless sandboxed    | `<data>/Documents`  |
//! | logs      | application name nested  | `<documents>/Logs`  |
//!
//! A resolution returns every directory that must exist for the result,
//! outermost first, so that the caller can create them in order; the last one
//! is the directory asked for.
use vstd::prelude::*;
use crate::location::{is_within, views, Location, PathView};
use crate::system;
use crate::system::apple_shared::{is_sandboxed, is_sandboxed_location};
use crate::system::AppView;

verus! {

/// Declares std's `io::Error`, carried unopened in `Error::Io`; nothing is
/// assumed of its contents.
#[verifier::external_type_specification]
#[verifier::external_body]
pub struct ExIoError(std::io::Error);

/// Represents all possible errors when requesting app directories.
#[derive(Debug)]
pub enum Error {
    /// The system is missing an application data directory.
    MissingDataDir,
    /// An io error has occurred while creating some directory.
    Io(std::io::Error),
}

impl From<std::io::Error> for Error {
    fn from(err: std::io::Error) -> Self {
        Error::Io(err)
    }
}

impl vstd::std_specs::convert::FromSpecImpl<std::io::Error> for Error {
    open spec fn obeys_from_spec() -> bool {
        true
    }

    open spec fn from_spec(err: std::io::Error) -> Self {
        Error::Io(err)
    }
}

/// The application-scoped categories of directories.
pub enum Category {
    Data,
    Cache,
    Config,
    Documents,
    Logs,
}

/// The directories to create for a resolution, outermost first, the last
/// being the result; `None` where no data root is available.
pub type Plan = Option<Seq<PathView>>;

/// `plan` followed by `segment` nested under its result.
pub open spec fn nest(plan: Plan, segment: Seq<char>) -> Plan {
    match plan {
        Some(dirs) => Some(dirs.push(dirs.last().push(segment))),
        None => None,
    }
}

pub open spec fn data_plan(native: AppView) -> Plan {
    match native.data {
        Some(data) => Some(seq![data]),
        None => None,
    }
}

pub open spec fn cache_plan(name: Seq<char>, native: AppView) -> Plan {
    match native.cache {
        Some(cache) => Some(seq![cache.push(name)]),
        None => nest(data_plan(native), "Cache"@),
    }
}

pub open spec fn config_plan(name: Seq<char>, native: AppView) -> Plan {
    match native.config {
        Some(config) => Some(seq![config.push(name)]),
        None => nest(data_plan(native), "Config"@),
    }
}

pub open spec fn documents_plan(native: AppView) -> Plan {
    match native.documents {
        Some(docs) => if is_sandboxed(docs) {
            nest(data_plan(native), "Documents"@)
        } else {
            Some(seq![docs])
        },
        None => nest(data_plan(native), "Documents"@),
    }
}

pub open spec fn logs_plan(name: Seq<char>, native: AppView) -> Plan {
    match native.logs {
        Some(logs) => Some(seq![logs.push(name)]),
        None => nest(documents_plan(native), "Logs"@),
    }
}

/// The plan for any category.
pub open spec fn plan(name: Seq<char>, native: AppView, category: Category) -> Plan {
    match category {
        Category::Data => data_plan(native),
        Category::Cache => cache_plan(name, native),
        Category::Config => config_plan(name, native),
        Category::Documents => documents_plan(native),
        Category::Logs => logs_plan(name, native),
    }
}

/// Whether a returned resolution is the one that `plan` describes.
pub open spec fn resolves_to(r: Result<Vec<Location>, Error>, plan: Plan) -> bool {
    match r {
        Ok(dirs) => plan == Some(views(dirs@)),
        Err(e) => plan is None && e is MissingDataDir,
    }
}

fn single(location: Location) -> (r: Vec<Location>)
    ensures
        views(r@) == seq![location@],
{
    let mut r: Vec<Location> = Vec::new();
    r.push(location);
    assert(views(r@) =~= seq![location@]);
    r
}

fn nest_under(dirs: Vec<Location>, segment: &str) -> (r: Vec<Location>)
    requires
        dirs.len() > 0,
    ensures
        views(r@) == views(dirs@).push(views(dirs@).last().push(segment@)),
{
    let child = dirs[dirs.len() - 1].join(segment);
    let mut r = dirs;
    r.push(child);
    assert(views(r@) =~= views(dirs@).push(views(dirs@).last().push(segment@)));
    r
}

/// Represents the application's directories.
///
/// Main entry point to obtain any directory for your application.
pub struct App<'a> {
    name: &'a str,
}

impl<'a> App<'a> {
    /// The application name that namespaces its directories.
    pub closed spec fn name_view(&self) -> Seq<char> {
        self.name@
    }

    /// Creates a new application.
    pub fn new(name: &'a str) -> (r: App<'a>)
        ensures
            r.name_view() == name@,
    {
        App { name }
    }

    /// The name of the application.
    pub fn name(&self) -> (r: &'a str)
        ensures
            r@ == self.name_view(),
    {
        self.name
    }

    /// Returns the directories for this application's files.
    ///
    /// Fails with `MissingDataDir` when the platform has no data directory.
    pub fn get_data(&self, native: &system::App) -> (r: Result<Vec<Location>, Error>)
        ensures
            resolves_to(r, data_plan(native@)),
    {
        match &native.data {
            Some(data) => Ok(single(data.duplicate())),
            None => Err(Error::MissingDataDir),
        }
    }

    /// Returns the directories for this application's cache.
    pub fn get_cache(&self, native: &system::App) -> (r: Result<Vec<Location>, Error>)
        ensures
            resolves_to(r, cache_plan(self.name_view(), native@)),
    {
        match &native.cache {
            Some(cache) => Ok(single(cache.join(self.name))),
            None => match self.get_data(native) {
                Ok(data) => Ok(nest_under(data, "Cache")),
                Err(e) => Err(e),
            },
        }
    }

    /// Returns the directories for this application's public documents.
    ///
    /// A native documents folder inside a sandbox container is not public, and
    /// is passed over for one under the data directory.
    pub fn get_documents(&self, native: &system::App) -> (r: Result<Vec<Location>, Error>)
        ensures
            resolves_to(r, documents_plan(native@)),
    {
        if let Some(docs) = &native.documents {
            if !is_sandboxed_location(docs) {
                return Ok(single(docs.duplicate()));
            }
        }
        match self.get_data(native) {
            Ok(data) => Ok(nest_under(data, "Documents")),
            Err(e) => Err(e),
        }
    }

    /// Returns the directories for this application's logs.
    pub fn get_logs(&self, native: &system::App) -> (r: Result<Vec<Location>, Error>)
        ensures
            resolves_to(r, logs_plan(self.name_view(), native@)),
    {
        match &native.logs {
            Some(logs) => Ok(single(logs.join(self.name))),
            None => match self.get_documents(native) {
                Ok(docs) => Ok(nest_under(docs, "Logs")),
                Err(e) => Err(e),
            },
        }
    }

    /// Returns the directories for this application's config.
    pub fn get_config(&self, native: &system::App) -> (r: Result<Vec<Location>, Error>)
        ensures
            resolves_to(r, config_plan(self.name_view(), native@)),
    {
        match &native.config {
            Some(config) => Ok(single(config.join(self.name))),
            None => match self.get_data(native) {
                Ok(data) => Ok(nest_under(data, "Config")),
                Err(e) => Err(e),
            },
        }
    }
}

/// Resolving a category twice against the same native answers gives the same
/// outcome: the same directories, or the same failure, both times.
pub proof fn lemma_resolution_repeatable(
    app: App,
    native: AppView,
    category: Category,
    first: Result<Vec<Location>, Error>,
    second: Result<Vec<Location>, Error>,
)
    requires
        resolves_to(first, plan(app.name_view(), native, category)),
        resolves_to(second, plan(app.name_view(), native, category)),
    ensures
        first is Ok <==> second is Ok,
        first is Ok ==> views(first->Ok_0@) == views(second->Ok_0@),
{
}

/// Every directory of a resolution lies inside the ones before it, so creating
/// them in order only ever creates the path down to the result.
pub proof fn lemma_plan_nested(name: Seq<char>, native: AppView, category: Category)
    ensures
        plan(name, native, category) matches Some(dirs) ==> {
            &&& 1 <= dirs.len() <= 3
            &&& forall|i: int, j: int|
                0 <= i < j < dirs.len() ==> #[trigger] is_within(dirs[i], dirs[j]) && dirs[i].len()
                    < dirs[j].len()
        },
{
    let dirs = plan(name, native, category)->0;
    if plan(name, native, category) is Some {
        assert forall|i: int, j: int| 0 <= i < j < dirs.len() implies #[trigger] is_within(
            dirs[i],
            dirs[j],
        ) && dirs[i].len() < dirs[j].len() by {
            assert(dirs[j].subrange(0, dirs[i].len() as int) =~= dirs[i]);
        }
    }
}

/// With no native cache, config, documents or logs directory and a data
/// directory `data`, each category falls back under `data`, and logs under
/// the documents directory there.
pub proof fn lemma_fallbacks_under_data(name: Seq<char>, native: AppView, data: PathView)
    requires
        native.cache is None,
        native.config is None,
        native.documents is None,
        native.logs is None,
        native.data == Some(data),
    ensures
        cache_plan(name, native) == Some(seq![data, data.push("Cache"@)]),
        config_plan(name, native) == Some(seq![data, data.push("Config"@)]),
        documents_plan(native) == Some(seq![data, data.push("Documents"@)]),
        logs_plan(name, native) == Some(
            seq![data, data.push("Documents"@), data.push("Documents"@).push("Logs"@)],
        ),
{
    assert(seq![data].push(data.push("Documents"@)).push(data.push("Documents"@).push("Logs"@))
        =~= seq![data, data.push("Documents"@), data.push("Documents"@).push("Logs"@)]);
}

/// Without a data directory, no category resolves unless its own native
/// directory (or, for logs, that of documents) is there to be used: data
/// always fails, and so do cache, config, documents and logs whenever they
/// would fall back to it.
pub proof fn lemma_missing_data_fails(name: Seq<char>, native: AppView)
    requires
        native.data is None,
    ensures
        data_plan(native) is None,
        native.cache is None ==> cache_plan(name, native) is None,
        native.config is None ==> config_plan(name, native) is None,
        (native.documents matches Some(d) ==> is_sandboxed(d)) ==> documents_plan(native) is None,
        native.logs is None && (native.documents matches Some(d) ==> is_sandboxed(d))
            ==> logs_plan(name, native) is None,
{
}

/// A native documents directory inside a sandbox container is treated exactly
/// as if there were none, for documents and for the logs nested under them.
pub proof fn lemma_sandboxed_documents_ignored(name: Seq<char>, native: AppView)
    requires
        native.documents matches Some(d) && is_sandboxed(d),
    ensures
        documents_plan(native) == documents_plan(AppView { documents: None, ..native }),
        logs_plan(name, native) == logs_plan(name, AppView { documents: None, ..native }),
{
}

/// A native cache, config or logs directory is namespaced by the application
/// name: the result is the name nested under it, never the directory itself.
pub proof fn lemma_native_namespaced(name: Seq<char>, native: AppView)
    ensures
        native.cache matches Some(c) ==> cache_plan(name, native) == Some(seq![c.push(name)])
            && seq![c.push(name)].last() != c,
        native.config matches Some(c) ==> config_plan(name, native) == Some(seq![c.push(name)])
            && seq![c.push(name)].last() != c,
        native.logs matches Some(l) ==> logs_plan(name, native) == Some(seq![l.push(name)])
            && seq![l.push(name)].last() != l,
{
    if let Some(c) = native.cache {
        assert(c.push(name).len() != c.len());
    }
    if let Some(c) = native.config {
        assert(c.push(name).len() != c.len());
    }
    if let Some(l) = native.logs {
        assert(l.push(name).len() != l.len());
    }
}

} // verus!
