//! The tile cache: the active height grid plus its eight compass
//! neighbours, each with a pending/delivered flag.
//!
//! Loads happen outside the library; a slot is `pending` from the moment a
//! load is requested until `deliver` stores the finished grid. A slot's
//! grid is only consumed once it has been delivered, and sampling falls
//! back to the clamped active grid whenever the selected neighbour has not
//! arrived yet, so a late delivery can never produce an out-of-range read.

use vstd::prelude::*;

verus! {

use crate::HEIGHT_SCALE;
use crate::boundary::{
    band_of, classify_axis, rebase_axis, rebased_axis, region_of, source_of, Region,
};
use crate::coords::{Direction, TileCoordinate};
use crate::grid::HeightGrid;

/// One neighbour tile: its coordinate, whether a load for it is still in
/// flight, and the delivered grid once it has arrived.
pub struct NeighborSlot {
    pub coord: TileCoordinate,
    pub pending: bool,
    pub grid: Option<HeightGrid>,
}

impl NeighborSlot {
    /// A delivered grid is well formed and has the set's side length.
    pub open spec fn wf(&self, side: int) -> bool {
        match self.grid {
            Some(g) => g.wf() && g.side == side,
            None => true,
        }
    }
}

/// The active height grid plus its eight compass neighbours.
pub struct NeighborSet {
    pub side: usize,
    pub active: HeightGrid,
    pub north: NeighborSlot,
    pub north_east: NeighborSlot,
    pub east: NeighborSlot,
    pub south_east: NeighborSlot,
    pub south: NeighborSlot,
    pub south_west: NeighborSlot,
    pub west: NeighborSlot,
    pub north_west: NeighborSlot,
}

impl NeighborSet {
    /// The slot keyed by direction `d`.
    pub open spec fn slot(&self, d: Direction) -> NeighborSlot {
        match d {
            Direction::North => self.north,
            Direction::NorthEast => self.north_east,
            Direction::East => self.east,
            Direction::SouthEast => self.south_east,
            Direction::South => self.south,
            Direction::SouthWest => self.south_west,
            Direction::West => self.west,
            Direction::NorthWest => self.north_west,
        }
    }

    /// Well-formedness: the active grid and every delivered neighbour grid
    /// share the set's side length.
    pub open spec fn wf(&self) -> bool {
        &&& 1 <= self.side <= 4000
        &&& self.active.wf()
        &&& self.active.side == self.side
        &&& self.north.wf(self.side as int)
        &&& self.north_east.wf(self.side as int)
        &&& self.east.wf(self.side as int)
        &&& self.south_east.wf(self.side as int)
        &&& self.south.wf(self.side as int)
        &&& self.south_west.wf(self.side as int)
        &&& self.west.wf(self.side as int)
        &&& self.north_west.wf(self.side as int)
    }

    /// A fresh set around `center`: the given active grid, every neighbour
    /// slot empty and pending.
    pub fn new(active: HeightGrid, center: TileCoordinate) -> (s: NeighborSet)
        requires
            active.wf(),
            center.wf(),
        ensures
            s.wf(),
            s.side == active.side,
            s.active == active,
            forall|d: Direction| (#[trigger] s.slot(d)) == (NeighborSlot {
                coord: center.neighbor_spec(d),
                pending: true,
                grid: None::<HeightGrid>,
            }),
    {
        let side = active.side;
        NeighborSet {
            side,
            active,
            north: NeighborSlot {
                coord: center.neighbor(Direction::North),
                pending: true,
                grid: None,
            },
            north_east: NeighborSlot {
                coord: center.neighbor(Direction::NorthEast),
                pending: true,
                grid: None,
            },
            east: NeighborSlot { coord: center.neighbor(Direction::East), pending: true, grid: None },
            south_east: NeighborSlot {
                coord: center.neighbor(Direction::SouthEast),
                pending: true,
                grid: None,
            },
            south: NeighborSlot {
                coord: center.neighbor(Direction::South),
                pending: true,
                grid: None,
            },
            south_west: NeighborSlot {
                coord: center.neighbor(Direction::SouthWest),
                pending: true,
                grid: None,
            },
            west: NeighborSlot { coord: center.neighbor(Direction::West), pending: true, grid: None },
            north_west: NeighborSlot {
                coord: center.neighbor(Direction::NorthWest),
                pending: true,
                grid: None,
            },
        }
    }

    /// Whether the neighbour grid in direction `d` has been delivered.
    pub fn has_grid(&self, d: Direction) -> (b: bool)
        ensures
            b == (self.slot(d).grid is Some),
    {
        match d {
            Direction::North => self.north.grid.is_some(),
            Direction::NorthEast => self.north_east.grid.is_some(),
            Direction::East => self.east.grid.is_some(),
            Direction::SouthEast => self.south_east.grid.is_some(),
            Direction::South => self.south.grid.is_some(),
            Direction::SouthWest => self.south_west.grid.is_some(),
            Direction::West => self.west.grid.is_some(),
            Direction::NorthWest => self.north_west.grid.is_some(),
        }
    }

    /// Stores a finished load in slot `d` and clears its pending flag.
    pub fn deliver(&mut self, d: Direction, g: HeightGrid)
        requires
            old(self).wf(),
            g.wf(),
            g.side == old(self).side,
        ensures
            final(self).wf(),
            final(self).side == old(self).side,
            final(self).active == old(self).active,
            final(self).slot(d) == (NeighborSlot {
                coord: old(self).slot(d).coord,
                pending: false,
                grid: Some(g),
            }),
            forall|d2: Direction| d2 != d ==> #[trigger] final(self).slot(d2) == old(self).slot(d2),
    {
        match d {
            Direction::North => {
                self.north = NeighborSlot { coord: self.north.coord, pending: false, grid: Some(g) };
            },
            Direction::NorthEast => {
                self.north_east = NeighborSlot {
                    coord: self.north_east.coord,
                    pending: false,
                    grid: Some(g),
                };
            },
            Direction::East => {
                self.east = NeighborSlot { coord: self.east.coord, pending: false, grid: Some(g) };
            },
            Direction::SouthEast => {
                self.south_east = NeighborSlot {
                    coord: self.south_east.coord,
                    pending: false,
                    grid: Some(g),
                };
            },
            Direction::South => {
                self.south = NeighborSlot { coord: self.south.coord, pending: false, grid: Some(g) };
            },
            Direction::SouthWest => {
                self.south_west = NeighborSlot {
                    coord: self.south_west.coord,
                    pending: false,
                    grid: Some(g),
                };
            },
            Direction::West => {
                self.west = NeighborSlot { coord: self.west.coord, pending: false, grid: Some(g) };
            },
            Direction::NorthWest => {
                self.north_west = NeighborSlot {
                    coord: self.north_west.coord,
                    pending: false,
                    grid: Some(g),
                };
            },
        }
    }

    /// Moves the delivered grid out of slot `d`, leaving the slot empty.
    pub fn take_grid(&mut self, d: Direction) -> (g: Option<HeightGrid>)
        requires
            old(self).wf(),
        ensures
            final(self).wf(),
            g == old(self).slot(d).grid,
            final(self).side == old(self).side,
            final(self).active == old(self).active,
            final(self).slot(d) == (NeighborSlot {
                coord: old(self).slot(d).coord,
                pending: old(self).slot(d).pending,
                grid: None::<HeightGrid>,
            }),
            forall|d2: Direction| d2 != d ==> #[trigger] final(self).slot(d2) == old(self).slot(d2),
    {
        let mut taken: Option<HeightGrid> = None;
        match d {
            Direction::North => std::mem::swap(&mut self.north.grid, &mut taken),
            Direction::NorthEast => std::mem::swap(&mut self.north_east.grid, &mut taken),
            Direction::East => std::mem::swap(&mut self.east.grid, &mut taken),
            Direction::SouthEast => std::mem::swap(&mut self.south_east.grid, &mut taken),
            Direction::South => std::mem::swap(&mut self.south.grid, &mut taken),
            Direction::SouthWest => std::mem::swap(&mut self.south_west.grid, &mut taken),
            Direction::West => std::mem::swap(&mut self.west.grid, &mut taken),
            Direction::NorthWest => std::mem::swap(&mut self.north_west.grid, &mut taken),
        }
        taken
    }

    /// Replaces the active grid.
    pub fn set_active(&mut self, g: HeightGrid)
        requires
            old(self).wf(),
            g.wf(),
            g.side == old(self).side,
        ensures
            final(self).wf(),
            final(self).side == old(self).side,
            final(self).active == g,
            forall|d: Direction| #[trigger] final(self).slot(d) == old(self).slot(d),
    {
        self.active = g;
    }

    /// Empties every neighbour slot, marks all eight pending, and rekeys
    /// them around `center`.
    pub fn refresh_all(&mut self, center: TileCoordinate)
        requires
            old(self).wf(),
            center.wf(),
        ensures
            final(self).wf(),
            final(self).side == old(self).side,
            final(self).active == old(self).active,
            forall|d: Direction| (#[trigger] final(self).slot(d)) == (NeighborSlot {
                coord: center.neighbor_spec(d),
                pending: true,
                grid: None::<HeightGrid>,
            }),
    {
        self.north = NeighborSlot {
            coord: center.neighbor(Direction::North),
            pending: true,
            grid: None,
        };
        self.north_east = NeighborSlot {
            coord: center.neighbor(Direction::NorthEast),
            pending: true,
            grid: None,
        };
        self.east = NeighborSlot {
            coord: center.neighbor(Direction::East),
            pending: true,
            grid: None,
        };
        self.south_east = NeighborSlot {
            coord: center.neighbor(Direction::SouthEast),
            pending: true,
            grid: None,
        };
        self.south = NeighborSlot {
            coord: center.neighbor(Direction::South),
            pending: true,
            grid: None,
        };
        self.south_west = NeighborSlot {
            coord: center.neighbor(Direction::SouthWest),
            pending: true,
            grid: None,
        };
        self.west = NeighborSlot {
            coord: center.neighbor(Direction::West),
            pending: true,
            grid: None,
        };
        self.north_west = NeighborSlot {
            coord: center.neighbor(Direction::NorthWest),
            pending: true,
            grid: None,
        };
    }
}

/// Clamps an axis value into the valid index range `[0, side)` of a grid.
pub open spec fn clamp_idx(v: int, side: int) -> int {
    if v < 0 {
        0
    } else if v >= side {
        side - 1
    } else {
        v
    }
}

/// Computes `clamp_idx`.
pub fn clamp_index(v: i64, side: usize) -> (i: usize)
    requires
        1 <= side <= 4000,
    ensures
        i == clamp_idx(v as int, side as int),
{
    if v < 0 {
        0
    } else if v >= side as i64 {
        side - 1
    } else {
        v as usize
    }
}

/// The sample of grid `g` at `(x, z)` with both axes clamped into range.
pub open spec fn grid_at_clamped(g: HeightGrid, x: int, z: int) -> int {
    g.at(clamp_idx(x, g.side as int), clamp_idx(z, g.side as int))
}

impl NeighborSet {
    /// The height this set yields for the camera-relative sample
    /// coordinate `(usex, usez)`.
    ///
    /// The coordinate's axis bands select the source tile (the active grid
    /// or one of the eight neighbours) and the coordinate is rebased into
    /// that tile's local frame. If the selected neighbour has not been
    /// delivered, the sample falls back to the active grid; indices are
    /// clamped into range in every case, so the result is always a real
    /// sample of some cached grid.
    pub open spec fn sample_spec(&self, usex: int, usez: int) -> int {
        let t = self.side as int;
        let zb = band_of(usez, t);
        let xb = band_of(usex, t);
        match source_of(region_of(zb, xb)) {
            None => grid_at_clamped(self.active, usex, usez),
            Some(d) => match self.slot(d).grid {
                Some(g) => grid_at_clamped(
                    g,
                    rebased_axis(xb, usex, t),
                    rebased_axis(zb, usez, t),
                ),
                None => grid_at_clamped(self.active, usex, usez),
            },
        }
    }

    /// Away from the far bands, sampling is exact: the region
    /// classification selects a source tile, the rebased coordinate is a
    /// valid index of it, and no clamping takes place — a stale
    /// classification can never cause an out-of-range read because the
    /// classification and the rebasing are derived together from the same
    /// coordinate.
    pub proof fn lemma_sample_exact(&self, usex: int, usez: int)
        requires
            self.wf(),
            !band_of(usex, self.side as int).is_far(),
            !band_of(usez, self.side as int).is_far(),
        ensures
            ({
                let t = self.side as int;
                let zb = band_of(usez, t);
                let xb = band_of(usex, t);
                match source_of(region_of(zb, xb)) {
                    None => self.sample_spec(usex, usez) == self.active.at(usex, usez),
                    Some(d) => match self.slot(d).grid {
                        Some(g) => self.sample_spec(usex, usez) == g.at(
                            rebased_axis(xb, usex, t),
                            rebased_axis(zb, usez, t),
                        ),
                        None => true,
                    },
                }
            }),
    {
        let t = self.side as int;
        crate::boundary::lemma_rebase_in_bounds(usex, t);
        crate::boundary::lemma_rebase_in_bounds(usez, t);
    }

    /// Samples the cached tiles at a camera-relative coordinate.
    pub fn sample_height(&self, usex: i64, usez: i64) -> (h: u32)
        requires
            self.wf(),
            -0x4000_0000_0000_0000 < usex < 0x4000_0000_0000_0000,
            -0x4000_0000_0000_0000 < usez < 0x4000_0000_0000_0000,
        ensures
            h == self.sample_spec(usex as int, usez as int),
            h <= HEIGHT_SCALE,
    {
        let t: u32 = self.side as u32;
        let zb = classify_axis(usez, t);
        let xb = classify_axis(usex, t);
        let region = crate::boundary::classify_region(usex, usez, t);
        let source: Option<Direction> = match region {
            Region::Center => None,
            Region::North => Some(Direction::North),
            Region::NorthEast => Some(Direction::NorthEast),
            Region::East => Some(Direction::East),
            Region::SouthEast => Some(Direction::SouthEast),
            Region::South => Some(Direction::South),
            Region::SouthWest => Some(Direction::SouthWest),
            Region::West => Some(Direction::West),
            Region::NorthWest => Some(Direction::NorthWest),
        };
        match source {
            Some(d) => {
                let lx = rebase_axis(xb, usex, t);
                let lz = rebase_axis(zb, usez, t);
                let s = match d {
                    Direction::North => &self.north,
                    Direction::NorthEast => &self.north_east,
                    Direction::East => &self.east,
                    Direction::SouthEast => &self.south_east,
                    Direction::South => &self.south,
                    Direction::SouthWest => &self.south_west,
                    Direction::West => &self.west,
                    Direction::NorthWest => &self.north_west,
                };
                match &s.grid {
                    Some(g) => g.get(clamp_index(lx, g.side), clamp_index(lz, g.side)),
                    None => self.active.get(
                        clamp_index(usex, self.side),
                        clamp_index(usez, self.side),
                    ),
                }
            },
            None => self.active.get(clamp_index(usex, self.side), clamp_index(usez, self.side)),
        }
    }
}

} // verus!
