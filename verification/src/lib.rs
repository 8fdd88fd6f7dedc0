//! Streamed terrain meshes over SRTM elevation tiles.
//!
//! The library partitions an unbounded elevation surface into fixed-size
//! chunks, keeps the active tile and its eight compass neighbours cached,
//! detects when the camera's sampling origin crosses a tile boundary, and
//! regenerates chunk geometry (solid and wireframe vertex streams plus the
//! two index schemes) at a selectable level of detail.
//!
//! Heights are carried as fixed-point integers: `HEIGHT_SCALE` stands for a
//! normalized height of one. Colors are fixed-point too, with `COLOR_SCALE`
//! standing for a channel value of one. The render layer divides by these
//! scales when it uploads vertex data to the GPU.

use vstd::prelude::*;

pub mod boundary;
pub mod chunks;
pub mod colors;
pub mod coords;
pub mod grid;
pub mod mesh;
pub mod neighbors;
pub mod terrain;

verus! {

/// Fixed-point representation of a normalized height of 1.0.
pub const HEIGHT_SCALE: u32 = 1_000_000;

/// Fixed-point representation of a color channel value of 1.0.
pub const COLOR_SCALE: u32 = 1_000;

/// Samples below the water level are flattened to the water level minus
/// this epsilon (0.01 in normalized height units), so that every underwater
/// sample is coplanar.
pub const WATER_EPSILON: u32 = 10_000;

} // verus!
