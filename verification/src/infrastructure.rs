//! Handles for the host's concrete adapters.

pub mod file_system;

pub use file_system::StdFileSystem;
