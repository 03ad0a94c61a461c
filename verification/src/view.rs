//! A placeholder handle on an archive file, kept while the richer view in
//! the archive interfaces grows.

use vstd::prelude::*;

verus! {

/// A borrowed reference to an archive file by its path.
pub struct Archive<'a> {
    path: &'a str,
}

impl<'a> Archive<'a> {
    /// The path of the archive file.
    pub closed spec fn path_spec(self) -> Seq<char> {
        self.path@
    }

    /// Wraps the path of an archive file.
    pub fn new(path: &'a str) -> (r: Archive<'a>)
        ensures
            r.path_spec() == path@,
    {
        Archive { path }
    }
}

/// A placeholder for one archive member.
pub struct Entry {}

} // verus!
