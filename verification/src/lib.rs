//! Core of a modal, vim-style text editor: a line-oriented document buffer
//! with an undo/redo history, bounds-aware cursors, the modal state machine,
//! and the mapping from key input to editing commands.
//!
//! Terminal rendering, raw-mode control and file access are left to the host
//! program; the library works on plain values and hands requests back.

pub mod application;
pub mod domain;
pub mod editor;
pub mod error;
pub mod infrastructure;
pub mod io;
pub mod ports;
pub mod text;
pub mod vim;

pub use editor::{Buffer, Position};
pub use error::EditorError;
pub use io::{FileSystem, TerminalPosition, TerminalSize};
pub use vim::{Key, KeyMapper, Mode, ModeManager, VimCommand};
