//! The boundary the host implements: file access and terminal geometry.

pub mod file_system;
pub mod terminal;

pub use file_system::FileSystem;
