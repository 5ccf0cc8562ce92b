//! A text-mode display writer over a 25 x 80 grid of character cells.
//!
//! Each cell holds a glyph byte and a packed colour attribute. The writer
//! keeps a cursor column on the bottom row, wraps long lines, scrolls the
//! grid up by one row on a line break, and shows unsupported bytes as a
//! placeholder glyph.
pub mod buffer;
pub mod color;
pub mod laws;
pub mod writer;

pub use buffer::{Buffer, ScreenChar, BUFFER_HEIGHT, BUFFER_WIDTH};
pub use color::{Color, ColorCode};
pub use writer::Writer;
