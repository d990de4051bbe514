//! The file-system boundary as the editor sees it: paths in, text out.
//!
//! The host implements this trait over its real file system; nothing here is
//! verified, the library only fixes the shape of the exchange.

use vstd::prelude::*;

use crate::error::EditorError;

verus! {

pub trait FileSystem {
    fn read_file(&self, path: &str) -> Result<String, EditorError>;

    fn write_file(&self, path: &str, content: &str) -> Result<(), EditorError>;

    fn file_exists(&self, path: &str) -> bool;

    fn create_backup(&self, path: &str) -> Result<(), EditorError>;
}

} // verus!
