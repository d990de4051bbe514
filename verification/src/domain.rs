//! The plain-value editing domain: a total-movement cursor, the mode table,
//! and a text buffer whose history is recorded per character.

pub mod cursor;
pub mod editor_mode;
pub mod text_buffer;

pub use cursor::CursorPosition;
pub use editor_mode::{EditorMode, ModeManager, ModeTransition, TransitionTrigger};
pub use text_buffer::TextBuffer;
