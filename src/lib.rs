//! Integer model of a tiled generative-art scene: the grid layout, the
//! per-frame jitter of each tile, the bloom pulse of the camera and the
//! screenshot schedule.
//!
//! Lengths, scales and bloom parameters are fixed-point numbers: `ONE` units
//! stand for one pixel, a scale of one, or a bloom parameter of one.
use vstd::prelude::*;

pub mod bloom;
pub mod capture;
pub mod grid;
pub mod jitter;
mod random;

verus! {

/// The number of fixed-point units in one whole (one pixel, or a scale of one).
pub const ONE: i64 = 15_000_000;

} // verus!
