//! What Apple platforms report, and how a sandboxed location is recognised.
use vstd::prelude::*;
use crate::location::{joined, Location, PathView};

verus! {

/// The path fragment that places a location inside an application's private
/// sandbox container.
pub const SANDBOX_MARKER: &'static str = "Library/Containers/";

/// Whether `needle` occurs in `hay` as a contiguous run of characters.
pub open spec fn occurs_in(needle: Seq<char>, hay: Seq<char>) -> bool {
    exists|i: int|
        0 <= i && i + needle.len() <= hay.len() && #[trigger] hay.subrange(i, i + needle.len())
            == needle
}

/// Whether a location lies inside a private sandbox container.
pub open spec fn is_sandboxed(location: PathView) -> bool {
    occurs_in(SANDBOX_MARKER@, joined(location))
}

/// The folders that Foundation's file manager reports for the current user,
/// one per searched directory kind; `None` where it reports none.
pub struct Folders {
    pub library: Option<String>,
    pub caches: Option<String>,
    pub application_support: Option<String>,
    pub documents: Option<String>,
    pub downloads: Option<String>,
    pub user: Option<String>,
}

/// Whether `needle` occurs in `hay` starting at character `start`.
fn occurs_at(hay: &str, needle: &str, start: usize, hay_len: usize, needle_len: usize) -> (r: bool)
    requires
        hay_len == hay@.len(),
        needle_len == needle@.len(),
        start + needle_len <= hay_len,
    ensures
        r == (hay@.subrange(start as int, start + needle_len) == needle@),
{
    let mut j: usize = 0;
    while j < needle_len
        invariant
            hay_len == hay@.len(),
            needle_len == needle@.len(),
            start + needle_len <= hay_len,
            j <= needle_len,
            hay@.subrange(start as int, start + j) == needle@.subrange(0, j as int),
        decreases needle_len - j,
    {
        if hay.get_char(start + j) != needle.get_char(j) {
            assert(hay@.subrange(start as int, start + needle_len)[j as int] != needle@[j as int]);
            return false;
        }
        assert(hay@.subrange(start as int, start + j + 1) =~= needle@.subrange(0, j + 1));
        j = j + 1;
    }
    assert(needle@.subrange(0, needle_len as int) =~= needle@);
    true
}

/// Whether `needle` occurs anywhere in `hay`.
pub fn contains_text(hay: &str, needle: &str) -> (r: bool)
    ensures
        r == occurs_in(needle@, hay@),
{
    let hay_len = hay.unicode_len();
    let needle_len = needle.unicode_len();
    if needle_len > hay_len {
        return false;
    }
    let last = hay_len - needle_len;
    let mut i: usize = 0;
    while i < last
        invariant
            hay_len == hay@.len(),
            needle_len == needle@.len(),
            last == hay_len - needle_len,
            i <= last,
            forall|k: int|
                0 <= k < i ==> #[trigger] hay@.subrange(k, k + needle_len) != needle@,
        decreases last - i,
    {
        if occurs_at(hay, needle, i, hay_len, needle_len) {
            return true;
        }
        i = i + 1;
    }
    occurs_at(hay, needle, last, hay_len, needle_len)
}

/// Whether `location` lies inside a private sandbox container, where a
/// platform's "public" folders are redirected for a sandboxed application.
pub fn is_sandboxed_location(location: &Location) -> (r: bool)
    ensures
        r == is_sandboxed(location@),
{
    let path = location.to_path_string();
    contains_text(path.as_str(), SANDBOX_MARKER)
}

/// The folder that the file manager reported, unless it lies inside the
/// application's sandbox container.
pub fn get_macos_dir_fail_if_sandbox(dir: Option<String>) -> (r: Option<Location>)
    ensures
        match dir {
            Some(d) => if occurs_in(SANDBOX_MARKER@, d@) {
                r is None
            } else {
                r is Some && r->0@ == seq![d@]
            },
            None => r is None,
        },
{
    match dir {
        Some(d) => {
            let location = Location::new(d.as_str());
            if is_sandboxed_location(&location) {
                None
            } else {
                Some(location)
            }
        },
        None => None,
    }
}

/// The position of the last `c` in `s`, if any.
pub open spec fn last_index_of(s: Seq<char>, c: char) -> Option<int>
    decreases s.len(),
{
    if s.len() == 0 {
        None
    } else if s.last() == c {
        Some(s.len() - 1)
    } else {
        last_index_of(s.drop_last(), c)
    }
}

/// A position found by `last_index_of` holds `c` and lies inside `s`.
proof fn lemma_last_index_in_bounds(s: Seq<char>, c: char)
    ensures
        last_index_of(s, c) matches Some(i) ==> 0 <= i < s.len() && s[i] == c,
    decreases s.len(),
{
    if s.len() > 0 && s.last() != c {
        lemma_last_index_in_bounds(s.drop_last(), c);
    }
}

/// The part of `s` after position `i`.
pub open spec fn after(s: Seq<char>, i: int) -> Seq<char> {
    s.subrange(i + 1, s.len() as int)
}

/// A bundled resource named by a path such as `sounds/click.wav`: the
/// directory before the last `/` (if any), then the file name split at its
/// last `.` into name and extension (empty if there is no `.`).
pub struct ResourceName {
    pub directory: Option<String>,
    pub name: String,
    pub extension: String,
}

/// The file part of a resource path.
pub open spec fn file_part(path: Seq<char>) -> Seq<char> {
    match last_index_of(path, '/') {
        Some(i) => after(path, i),
        None => path,
    }
}

/// The directory, name and extension of a resource path.
pub open spec fn resource_view(path: Seq<char>) -> (Option<Seq<char>>, Seq<char>, Seq<char>) {
    let directory = match last_index_of(path, '/') {
        Some(i) => Some(path.subrange(0, i)),
        None => None,
    };
    let file = file_part(path);
    match last_index_of(file, '.') {
        Some(j) => (directory, file.subrange(0, j), after(file, j)),
        None => (directory, file, Seq::empty()),
    }
}

/// The position of the last `c` in `s`.
fn find_last(s: &str, c: char) -> (r: Option<usize>)
    ensures
        match last_index_of(s@, c) {
            Some(i) => r == Some(i as usize),
            None => r is None,
        },
{
    let len = s.unicode_len();
    let mut i: usize = len;
    assert(s@.subrange(0, len as int) =~= s@);
    while i > 0
        invariant
            len == s@.len(),
            i <= len,
            last_index_of(s@, c) == last_index_of(s@.subrange(0, i as int), c),
        decreases i,
    {
        let ghost prefix = s@.subrange(0, i as int);
        assert(prefix.drop_last() =~= s@.subrange(0, i - 1));
        if s.get_char(i - 1) == c {
            return Some(i - 1);
        }
        i = i - 1;
    }
    assert(s@.subrange(0, 0) =~= Seq::<char>::empty());
    None
}

/// Splits a resource path into its directory, name and extension.
pub fn split_resource_name(path: &str) -> (r: ResourceName)
    ensures
        resource_view(path@) == (
            match r.directory {
                Some(d) => Some(d@),
                None => None,
            },
            r.name@,
            r.extension@,
        ),
{
    proof {
        assert(path@.subrange(0, path@.len() as int) =~= path@);
    }
    let len = path.unicode_len();
    proof {
        lemma_last_index_in_bounds(path@, '/');
    }
    let (directory, file) = match find_last(path, '/') {
        Some(i) => (Some(String::from_str(path.substring_char(0, i))), path.substring_char(i + 1, len)),
        None => (None, path.substring_char(0, len)),
    };
    let file_len = file.unicode_len();
    proof {
        lemma_last_index_in_bounds(file@, '.');
    }
    match find_last(file, '.') {
        Some(j) => ResourceName {
            directory,
            name: String::from_str(file.substring_char(0, j)),
            extension: String::from_str(file.substring_char(j + 1, file_len)),
        },
        None => ResourceName { directory, name: String::from_str(file), extension: String::new() },
    }
}

} // verus!
