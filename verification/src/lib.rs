//! A text-mode console for the classic 80x25 VGA character grid.
//!
//! The crate keeps the whole state of the console (cursor column, current
//! attribute and the grid of character cells) in ordinary values, so that every
//! write is a verified function from one state to the next.  Presenting the grid
//! on real hardware is left to the embedding program.

pub mod vga_buffer;
