//! The handle for the host's standard file system adapter.
//!
//! The adapter itself — reading, writing and backing up real files — lives
//! with the host program, which implements the file-system boundary on this
//! handle's copy there.

use vstd::prelude::*;

verus! {

#[derive(Debug, Clone)]
pub struct StdFileSystem;

impl StdFileSystem {
    pub fn new() -> Self {
        Self
    }
}

impl Default for StdFileSystem {
    fn default() -> Self {
        Self::new()
    }
}

} // verus!
