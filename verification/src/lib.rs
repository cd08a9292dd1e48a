//! Verified parser for the reMarkable tablet's `.lines` page format.
//!
//! The crate decodes the version-5 (fixed layout) and version-6 (tagged block
//! stream) page encodings into a tree of layers, lines and points.  Every
//! parsing function is specified against a mathematical model of the byte
//! stream and proved to compute exactly what the model says.
//!
//! Wire values that are IEEE-754 floats are carried as their bit patterns
//! (`u32` / `u64`); turning them into native floats, and the float-valued
//! point normalisation, happen outside the verified core.

pub mod content;
pub mod device;
pub mod error;
pub mod laws;
pub mod model;
pub mod page;
pub mod primitives;
pub mod tags;
pub mod text;
pub mod v5;
pub mod v6;

use vstd::prelude::*;

verus! {

/// Canonical pixel width of the device's screen; the v6 decoder's x-shift
/// is half of it.
pub const WIDTH_PIXELS: u32 = 1872;

/// Canonical pixel height of the device's screen.
pub const HEIGHT_PIXELS: u32 = 1404;

} // verus!
