//! A text-mode driver for an 80 x 25 character display: colour encoding, the
//! cell grid behind volatile accesses, and a writer that wraps lines and
//! scrolls, shared behind a spin lock. Every executable function carries a
//! contract over the mathematical model in [`screen`], and [`laws`] proves
//! what follows from the model.

pub mod buffer;
pub mod color;
pub mod laws;
pub mod print;
pub mod screen;
pub mod writer;

pub use buffer::{Buffer, Cells, DISPLAY_ADDRESS};
pub use color::{Color, ColorCode};
pub use print::_print;
pub use screen::{ScreenChar, BUFFER_HEIGHT, BUFFER_WIDTH};
pub use writer::Writer;
