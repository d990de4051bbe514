//! Plain data types for the host's file and terminal adapters.

pub mod fs;
pub mod terminal;

pub use fs::FileSystem;
pub use terminal::{TerminalPosition, TerminalSize};
