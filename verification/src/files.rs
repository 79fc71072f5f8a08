//! Entries of a directory listing.

use vstd::prelude::*;

verus! {

/// One entry of a directory as the user interface sees it.
#[derive(Debug, Clone, PartialEq, Eq)]
pub struct FileInfo {
    pub name: String,
    pub path: String,
    pub is_dir: bool,
    pub size: u64,
    pub modified: Option<String>,
}

impl FileInfo {
    /// The entry for what a directory holds under `name` at `path`. The
    /// time of the last change is not reported.
    pub fn entry(name: String, path: String, is_dir: bool, size: u64) -> (info: FileInfo)
        ensures
            info == (FileInfo { name, path, is_dir, size, modified: None }),
    {
        FileInfo { name, path, is_dir, size, modified: None }
    }
}

} // verus!
