//! The boundary tracker: classifying camera-relative sample coordinates.
//!
//! Each axis of a sample coordinate falls into one of five bands relative
//! to the active tile of side `tile`:
//!
//! - far negative (`v < -tile/2`): a full tile rotation is due;
//! - near negative (`-tile/2 <= v < 0`): the sample reads a neighbour tile;
//! - center (`0 <= v < tile`): the sample reads the active tile;
//! - near positive (`tile <= v <= tile + tile/2`): a neighbour tile again;
//! - far positive (`v > tile + tile/2`): a rotation is due.
//!
//! The two axis bands combine into one of nine regions (the active tile or
//! one of its eight neighbours), which selects the height source, and a
//! rebasing step translates the coordinate into that source's local frame.

use vstd::prelude::*;

verus! {

use crate::coords::Direction;

/// The five bands a single axis of a sample coordinate can fall into.
#[derive(Clone, Copy, Debug, PartialEq, Eq, Structural)]
pub enum AxisBand {
    FarNegative,
    NearNegative,
    Center,
    NearPositive,
    FarPositive,
}

impl AxisBand {
    /// The axis points into negative territory (a north or west neighbour).
    pub open spec fn is_negative(self) -> bool {
        self == AxisBand::FarNegative || self == AxisBand::NearNegative
    }

    /// The axis points past the far edge (a south or east neighbour).
    pub open spec fn is_positive(self) -> bool {
        self == AxisBand::FarPositive || self == AxisBand::NearPositive
    }

    /// The axis lies in a far band, where a rotation is due.
    pub open spec fn is_far(self) -> bool {
        self == AxisBand::FarNegative || self == AxisBand::FarPositive
    }
}

/// The band of axis value `v` for a tile of side `tile`.
pub open spec fn band_of(v: int, tile: int) -> AxisBand {
    if v < -(tile / 2) {
        AxisBand::FarNegative
    } else if v < 0 {
        AxisBand::NearNegative
    } else if v < tile {
        AxisBand::Center
    } else if v <= tile + tile / 2 {
        AxisBand::NearPositive
    } else {
        AxisBand::FarPositive
    }
}

/// Classifies one axis of a sample coordinate.
pub fn classify_axis(v: i64, tile: u32) -> (b: AxisBand)
    requires
        1 <= tile <= 4000,
    ensures
        b == band_of(v as int, tile as int),
{
    let half: i64 = (tile / 2) as i64;
    let t: i64 = tile as i64;
    if v < -half {
        AxisBand::FarNegative
    } else if v < 0 {
        AxisBand::NearNegative
    } else if v < t {
        AxisBand::Center
    } else if v <= t + half {
        AxisBand::NearPositive
    } else {
        AxisBand::FarPositive
    }
}

/// The nine compound states of the boundary tracker: the active tile, the
/// four edges, and the four corners.
#[derive(Clone, Copy, Debug, PartialEq, Eq, Structural)]
pub enum Region {
    Center,
    North,
    NorthEast,
    East,
    SouthEast,
    South,
    SouthWest,
    West,
    NorthWest,
}

/// The region determined by the z-axis band (north/south) and the x-axis
/// band (west/east).
pub open spec fn region_of(zb: AxisBand, xb: AxisBand) -> Region {
    if zb.is_negative() {
        if xb.is_negative() {
            Region::NorthWest
        } else if xb.is_positive() {
            Region::NorthEast
        } else {
            Region::North
        }
    } else if zb.is_positive() {
        if xb.is_negative() {
            Region::SouthWest
        } else if xb.is_positive() {
            Region::SouthEast
        } else {
            Region::South
        }
    } else {
        if xb.is_negative() {
            Region::West
        } else if xb.is_positive() {
            Region::East
        } else {
            Region::Center
        }
    }
}

/// Classifies a sample coordinate into one of the nine regions.
pub fn classify_region(usex: i64, usez: i64, tile: u32) -> (r: Region)
    requires
        1 <= tile <= 4000,
    ensures
        r == region_of(band_of(usez as int, tile as int), band_of(usex as int, tile as int)),
{
    let zb = classify_axis(usez, tile);
    let xb = classify_axis(usex, tile);
    match zb {
        AxisBand::FarNegative | AxisBand::NearNegative => match xb {
            AxisBand::FarNegative | AxisBand::NearNegative => Region::NorthWest,
            AxisBand::FarPositive | AxisBand::NearPositive => Region::NorthEast,
            AxisBand::Center => Region::North,
        },
        AxisBand::FarPositive | AxisBand::NearPositive => match xb {
            AxisBand::FarNegative | AxisBand::NearNegative => Region::SouthWest,
            AxisBand::FarPositive | AxisBand::NearPositive => Region::SouthEast,
            AxisBand::Center => Region::South,
        },
        AxisBand::Center => match xb {
            AxisBand::FarNegative | AxisBand::NearNegative => Region::West,
            AxisBand::FarPositive | AxisBand::NearPositive => Region::East,
            AxisBand::Center => Region::Center,
        },
    }
}

/// The neighbour tile a region samples from, or `None` for the active tile.
pub open spec fn source_of(r: Region) -> Option<Direction> {
    match r {
        Region::Center => None,
        Region::North => Some(Direction::North),
        Region::NorthEast => Some(Direction::NorthEast),
        Region::East => Some(Direction::East),
        Region::SouthEast => Some(Direction::SouthEast),
        Region::South => Some(Direction::South),
        Region::SouthWest => Some(Direction::SouthWest),
        Region::West => Some(Direction::West),
        Region::NorthWest => Some(Direction::NorthWest),
    }
}

/// Translates one axis of a sample coordinate into the local frame of the
/// tile its band selects: one tile side is added when the axis points at a
/// negative-side neighbour and subtracted when it points at a
/// positive-side neighbour.
pub open spec fn rebased_axis(b: AxisBand, v: int, tile: int) -> int {
    if b.is_negative() {
        v + tile
    } else if b.is_positive() {
        v - tile
    } else {
        v
    }
}

/// Computes the rebased axis value.
pub fn rebase_axis(b: AxisBand, v: i64, tile: u32) -> (r: i64)
    requires
        1 <= tile <= 4000,
        -0x4000_0000_0000_0000 < v < 0x4000_0000_0000_0000,
    ensures
        r == rebased_axis(b, v as int, tile as int),
{
    match b {
        AxisBand::FarNegative | AxisBand::NearNegative => v + tile as i64,
        AxisBand::FarPositive | AxisBand::NearPositive => v - tile as i64,
        AxisBand::Center => v,
    }
}

/// In the near bands and the center band, the rebased axis value is a
/// valid local index of the selected source tile.
pub proof fn lemma_rebase_in_bounds(v: int, tile: int)
    requires
        tile >= 1,
        band_of(v, tile) != AxisBand::FarNegative,
        band_of(v, tile) != AxisBand::FarPositive,
    ensures
        0 <= rebased_axis(band_of(v, tile), v, tile) < tile,
{
}

/// Boundary classification is total: every representable sample coordinate
/// maps to one of the nine regions (and, being a function, to exactly one).
pub proof fn lemma_classification_total(usex: int, usez: int, tile: int)
    requires
        tile >= 1,
    ensures
        ({
            let r = region_of(band_of(usez, tile), band_of(usex, tile));
            ||| r == Region::Center
            ||| r == Region::North
            ||| r == Region::NorthEast
            ||| r == Region::East
            ||| r == Region::SouthEast
            ||| r == Region::South
            ||| r == Region::SouthWest
            ||| r == Region::West
            ||| r == Region::NorthWest
        }),
{
}

/// The region pins down the sign of each axis exactly: a sample is
/// classified into a west region if and only if its x axis is negative,
/// into an east region if and only if its x axis runs past the active
/// tile, and likewise for north and south on the z axis.
pub proof fn lemma_region_characterization(usex: int, usez: int, tile: int)
    requires
        tile >= 1,
    ensures
        ({
            let r = region_of(band_of(usez, tile), band_of(usex, tile));
            &&& (r == Region::Center <==> (0 <= usex < tile && 0 <= usez < tile))
            &&& ((r == Region::West || r == Region::NorthWest || r == Region::SouthWest) <==> usex
                < 0)
            &&& ((r == Region::East || r == Region::NorthEast || r == Region::SouthEast) <==> usex
                >= tile)
            &&& ((r == Region::North || r == Region::NorthWest || r == Region::NorthEast) <==> usez
                < 0)
            &&& ((r == Region::South || r == Region::SouthWest || r == Region::SouthEast) <==> usez
                >= tile)
        }),
{
}

} // verus!
