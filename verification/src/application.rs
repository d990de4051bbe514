//! The application layer: key bindings over the domain types, and the
//! editor state with its command-dispatch and save/quit decisions.

pub mod editor_service;
pub mod vim_bindings;

pub use editor_service::{CommandLine, EditorState, FileRequest};
pub use vim_bindings::{VimBindings, VimCommand};
