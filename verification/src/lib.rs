//! A text console for the VGA character display, verified with Verus.
//!
//! The display is a grid of 25 rows of 80 cells. Each cell holds a character
//! byte and an attribute byte that names its colors. A [`Writer`] keeps a
//! cursor in the bottom row of the grid: it writes bytes and text there,
//! wraps at the end of the row, and scrolls the display up by one row
//! whenever a new line starts.
//!
//! - [`color`]: the palette and the attribute byte.
//! - [`cell`]: a cell and the word of display memory that shows it.
//! - [`grid`]: display memory as rows of cells, behind volatile accesses.
//! - [`screen`]: the console as a mathematical value, which the contracts
//!   of the writer speak of.
//! - [`writer`]: the writer itself.
//! - [`print`]: printing with or without colors and line ends.
//! - [`laws`]: what holds of the console whatever is written to it.
//!
//! Every function is proved to meet its contract and not to panic. What is
//! trusted is the behavior of `volatile::Volatile`: that a read returns what
//! the last write stored. It is stated in [`grid`].

pub mod cell;
pub mod color;
pub mod grid;
pub mod laws;
pub mod print;
pub mod screen;
pub mod writer;

pub use crate::cell::Cell;
pub use crate::color::{Color, ColorCode};
pub use crate::grid::{Grid, Region, BUFFER_HEIGHT, BUFFER_WIDTH};
pub use crate::screen::Screen;
pub use crate::writer::Writer;
