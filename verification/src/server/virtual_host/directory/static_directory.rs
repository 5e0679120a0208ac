//! A directory of static files.

use vstd::prelude::*;

verus! {

/// A directory of static files, named by its path.
pub struct StaticDirectory<'a> {
    path: &'a str,
}

impl<'a> StaticDirectory<'a> {
    /// Creates a static directory for `path`.
    pub fn new(path: &'a str) -> (res: StaticDirectory<'a>)
        ensures
            res.path_spec() == path@,
    {
        StaticDirectory { path }
    }

    /// The path of the directory.
    pub closed spec fn path_spec(self) -> Seq<char> {
        self.path@
    }

    /// Returns the path of the directory.
    pub fn path(&self) -> (res: &'a str)
        ensures
            res@ == self.path_spec(),
    {
        self.path
    }

    /// Changes the path of the directory.
    pub fn set_path(&mut self, path: &'a str)
        ensures
            final(self).path_spec() == path@,
    {
        self.path = path;
    }
}

} // verus!
