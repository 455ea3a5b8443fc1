//! The working directory and the resolution of paths against it.

use vstd::prelude::*;
use camino::Utf8Path;

verus! {

/// What camino's `Utf8Path::join` returns for a base path and a path.
pub uninterp spec fn adjoined(base: Seq<char>, path: Seq<char>) -> Seq<char>;

/// A Unix path is absolute when it starts at the root.
pub open spec fn is_absolute(p: Seq<char>) -> bool {
    p.len() > 0 && p[0] == '/'
}

/// Relies on camino's `Utf8Path::is_absolute`: on Unix, whether the path
/// starts with the root.
#[verifier::external_body]
fn path_is_absolute(p: &str) -> (r: bool)
    ensures
        r == is_absolute(p@),
{
    Utf8Path::new(p).is_absolute()
}

/// Relies on camino's `Utf8Path::join`: an absolute `path` replaces `base`, a
/// relative one extends it.
#[verifier::external_body]
fn join_path(base: &str, path: &str) -> (r: String)
    ensures
        r@ == adjoined(base@, path@),
        is_absolute(path@) ==> r@ == path@,
        !is_absolute(path@) ==> r@.len() >= base@.len() && r@.subrange(0, base@.len() as int)
            == base@,
{
    Utf8Path::new(base).join(path).into_string()
}

/// Where the shell stands: an absolute path that existed when it was adopted.
/// A command that moves elsewhere yields a new value; this one never changes.
pub struct WorkingDir {
    path: String,
}

impl View for WorkingDir {
    type V = Seq<char>;

    closed spec fn view(&self) -> Seq<char> {
        self.path@
    }
}

impl WorkingDir {
    #[verifier::type_invariant]
    spec fn absolute(&self) -> bool {
        is_absolute(self.path@)
    }

    /// Adopts `path`, which the caller has found to exist and canonicalized;
    /// only an absolute path is taken.
    pub fn new(path: String) -> (r: Option<WorkingDir>)
        ensures
            r is Some == is_absolute(path@),
            r is Some ==> r->0@ == path@,
    {
        if path_is_absolute(path.as_str()) {
            Some(WorkingDir { path })
        } else {
            None
        }
    }

    /// The path of the directory.
    pub fn as_str(&self) -> (r: &str)
        ensures
            r@ == self@,
            is_absolute(r@),
    {
        proof {
            use_type_invariant(self);
        }
        self.path.as_str()
    }

    /// The path of the directory, as an owned string.
    pub fn to_string(&self) -> (r: String)
        ensures
            r@ == self@,
    {
        self.path.clone()
    }

    /// `path` joined onto this directory.
    pub fn join(&self, path: &str) -> (r: String)
        ensures
            r@ == adjoined(self@, path@),
            is_absolute(r@),
    {
        proof {
            use_type_invariant(self);
        }
        join_path(self.path.as_str(), path)
    }

    /// `path` resolved against this directory: taken as it is when absolute,
    /// else joined onto the directory.
    pub fn resolve(&self, path: &str) -> (r: String)
        ensures
            r@ == resolved(self@, path@),
            is_absolute(r@),
    {
        if path_is_absolute(path) {
            path.to_owned()
        } else {
            self.join(path)
        }
    }
}

/// `path` resolved against `dir`.
pub open spec fn resolved(dir: Seq<char>, path: Seq<char>) -> Seq<char> {
    if is_absolute(path) {
        path
    } else {
        adjoined(dir, path)
    }
}

} // verus!
