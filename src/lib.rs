//! A multi-line text buffer with a cursor, driven by a stream of edit events.

pub mod buffer;
pub mod event;
pub mod laws;

pub use buffer::{BufferView, LineBuffer};
pub use event::{Event, Key};
