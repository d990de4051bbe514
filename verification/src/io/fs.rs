//! The handle under which the host groups its file operations.
//!
//! Reading, writing and backing up files is the host program's work; the
//! library only defines the handle and works on the file contents it is
//! handed as plain strings.

use vstd::prelude::*;

verus! {

pub struct FileSystem;

impl FileSystem {
    pub fn new() -> Self {
        Self
    }
}

impl Default for FileSystem {
    fn default() -> Self {
        Self::new()
    }
}

} // verus!
