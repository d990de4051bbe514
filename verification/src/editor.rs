//! The document-editing core: cursor positions and the text buffer.

pub mod buffer;
pub mod cursor;

pub use buffer::Buffer;
pub use cursor::Position;
