//! The VGA text buffer: colours, character cells, the grid and its writer.

pub mod color;
pub mod greeting;
pub mod laws;
pub mod screen;
pub mod writer;

pub use color::{Color, ColorCode};
pub use greeting::print_something;
pub use screen::{display_byte, Buffer, Screen, ScreenChar, BUFFER_HEIGHT, BUFFER_WIDTH};
pub use writer::Writer;
