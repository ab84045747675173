//! Frame buffer, palette and key dispatch of a terminal Mandelbrot explorer.
//!
//! The library holds everything of the explorer that is integer logic: the
//! grid of pixel intensities, the mapping from an intensity to terminal
//! text, and the state machine that turns key presses into commands. The
//! floating-point kernel and the terminal itself live with the caller.

pub mod term;
pub mod palette;
pub mod bitmap;
pub mod control;
pub mod screen;
