//! A handle on a directory to be scanned.
use vstd::prelude::*;

verus! {

/// A directory to be scanned.
pub struct FileScanner {
    pub path: String,
}

impl FileScanner {
    /// A handle on `path`.
    pub fn new(path: String) -> (r: Self)
        ensures
            r.path == path,
    {
        FileScanner { path }
    }
}

} // verus!
