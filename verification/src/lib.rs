//! Driver core for a row-multiplexed 5x3 dot-matrix LED display.
//!
//! The crate holds the three parts of the driver that carry real invariants:
//! the bit-packed [`frame::Frame`] snapshot of the 15 dots, the scanning
//! [`display::Display`] state machine that enables one row at a time, and the
//! free-running [`millis::Timebase`] millisecond counter that the animation
//! is keyed from. Board setup, pin handles and the interrupt plumbing live
//! outside the crate; they hand plain values in and carry the computed output
//! levels to the electrical lines.

use vstd::prelude::*;

pub mod animation;
pub mod display;
pub mod frame;
pub mod millis;

verus! {

/// Number of columns of the dot matrix.
pub const WIDTH: usize = 5;

/// Number of rows of the dot matrix.
pub const HEIGHT: usize = 3;

/// Number of addressable dots; also the number of meaningful bits in a
/// packed frame.
pub const DOTS: usize = 15;

} // verus!
