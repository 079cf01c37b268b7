//! Renders a raster image as text: each pixel is reduced to a scalar by a
//! selected color mode, weighted by its alpha channel, and mapped to one
//! character of an ordered gradient; the characters are assembled into rows
//! joined by newlines.
//!
//! All channel arithmetic is exact: a normalized channel is an 8-bit value
//! over 255, so every scalar a mode produces is a rational with a small
//! denominator, and the character each pixel selects is pinned down exactly.

use vstd::prelude::*;

pub mod color;
pub mod gradient;
pub mod pixel;
pub mod render;
pub mod scalar;

verus! {

/// Default character gradient, ordered from darkest to brightest.
pub const DEFAULT_GRADIENT: &'static str = " .'`^\",:;Il!i><~+_-?][}{1)(|\\/tfjrxnuvczXYUJCLQ0OZmwqpdbkhao*#MW&8%B@$";

} // verus!
