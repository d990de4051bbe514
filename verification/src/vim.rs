//! The modal command layer: modes and their transitions, the editing-command
//! vocabulary with its executor, and the key-to-command mapping.

pub mod command;
pub mod keymap;
pub mod mode;

pub use command::{CommandResult, VimCommand};
pub use keymap::{Key, KeyMapper};
pub use mode::{Mode, ModeManager};
