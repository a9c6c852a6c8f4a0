//! Filesystem locations as a root followed by nested segments.
//!
//! A platform reports a root (for example `/home/me/.cache`); the resolver then
//! nests fixed or caller-supplied segments under it. Keeping the segments apart
//! lets callers join them with the native path rules of their platform, while
//! `to_path_string` renders the location with `/` separators.
use vstd::prelude::*;

verus! {

/// The view of a location: its root, then each segment nested under it.
pub type PathView = Seq<Seq<char>>;

/// `segment` appended to `base` with a single `/` between them.
pub open spec fn append_segment(base: Seq<char>, segment: Seq<char>) -> Seq<char> {
    if base.len() == 0 || base.last() == '/' {
        base + segment
    } else {
        base + seq!['/'] + segment
    }
}

/// The parts of a location rendered as one path.
pub open spec fn joined(parts: PathView) -> Seq<char>
    decreases parts.len(),
{
    if parts.len() == 0 {
        Seq::empty()
    } else if parts.len() == 1 {
        parts[0]
    } else {
        append_segment(joined(parts.drop_last()), parts.last())
    }
}

/// Whether `prefix` is a location that `path` lies in (or is).
pub open spec fn is_within(prefix: PathView, path: PathView) -> bool {
    prefix.len() <= path.len() && path.subrange(0, prefix.len() as int) == prefix
}

/// The views of a sequence of strings.
pub open spec fn strings_view(strings: Seq<String>) -> Seq<Seq<char>> {
    strings.map_values(|s: String| s@)
}

/// A filesystem location: a root, then the segments nested under it.
#[derive(Debug)]
pub struct Location {
    parts: Vec<String>,
}

impl View for Location {
    type V = PathView;

    closed spec fn view(&self) -> PathView {
        strings_view(self.parts@)
    }
}

/// The views of a sequence of locations.
pub open spec fn views(locations: Seq<Location>) -> Seq<PathView> {
    locations.map_values(|l: Location| l@)
}

impl Location {
    /// A location made of a root alone.
    pub fn new(root: &str) -> (r: Location)
        ensures
            r@ == seq![root@],
    {
        let mut parts: Vec<String> = Vec::new();
        parts.push(String::from_str(root));
        let r = Location { parts };
        assert(r@ =~= seq![root@]);
        r
    }

    /// This location with `segment` nested under it.
    pub fn join(&self, segment: &str) -> (r: Location)
        ensures
            r@ == self@.push(segment@),
    {
        let mut parts = self.copy_parts();
        parts.push(String::from_str(segment));
        let r = Location { parts };
        assert(r@ =~= self@.push(segment@));
        r
    }

    /// A location equal to this one.
    pub fn duplicate(&self) -> (r: Location)
        ensures
            r@ == self@,
    {
        Location { parts: self.copy_parts() }
    }

    fn copy_parts(&self) -> (r: Vec<String>)
        ensures
            strings_view(r@) == self@,
    {
        let mut r: Vec<String> = Vec::new();
        let n = self.parts.len();
        let mut i: usize = 0;
        while i < n
            invariant
                n == self.parts.len(),
                i <= n,
                r@ =~= self.parts@.subrange(0, i as int),
            decreases n - i,
        {
            r.push(self.parts[i].clone());
            i = i + 1;
        }
        assert(r@ =~= self.parts@);
        r
    }

    /// The root, then each nested segment, in order.
    pub fn parts(&self) -> (r: &Vec<String>)
        ensures
            strings_view(r@) == self@,
    {
        &self.parts
    }

    /// The location rendered as a single path with `/` separators.
    pub fn to_path_string(&self) -> (r: String)
        ensures
            r@ == joined(self@),
    {
        let n = self.parts.len();
        let mut r = String::new();
        let mut i: usize = 0;
        while i < n
            invariant
                n == self.parts.len(),
                i <= n,
                r@ == joined(self@.subrange(0, i as int)),
            decreases n - i,
        {
            let ghost done = self@.subrange(0, i as int);
            let ghost next = self@.subrange(0, i as int + 1);
            assert(next.drop_last() =~= done);
            let segment = self.parts[i].as_str();
            if i == 0 {
                r = String::from_str(segment);
                assert(next =~= seq![segment@]);
            } else {
                let len = r.as_str().unicode_len();
                if len > 0 && r.as_str().get_char(len - 1) != '/' {
                    r.append("/");
                    proof {
                        reveal_strlit("/");
                    }
                }
                r.append(segment);
            }
            i = i + 1;
        }
        assert(self@.subrange(0, n as int) =~= self@);
        r
    }
}

} // verus!

verus! {

/// The view of an optional location.
pub open spec fn opt_view(o: Option<Location>) -> Option<PathView> {
    match o {
        Some(l) => Some(l@),
        None => None,
    }
}

} // verus!
