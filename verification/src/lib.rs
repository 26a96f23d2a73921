//! A text-mode display driver for a fixed grid of character cells that is
//! mapped into memory: colour attributes, the two-byte cell format, volatile
//! access to the grid, and a writer that appends text to the bottom line,
//! wraps full lines and scrolls.

pub mod buffer;
pub mod cell;
pub mod color;
pub mod laws;
pub mod screen;
pub mod writer;

pub use buffer::{Access, Buffer, Cells, BUFFER_HEIGHT, BUFFER_WIDTH};
pub use cell::ScreenChar;
pub use color::{Color, ColorCode};
pub use screen::Screen;
pub use writer::Writer;
