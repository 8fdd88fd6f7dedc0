//! The terrain streaming core: camera-relative state, tile rotation, and
//! chunk mesh generation.
//!
//! A `Terrain` owns two tile caches (full resolution and a quarter-side
//! minimised one), the camera's sampling origin (`move_x`, `move_z`), the
//! chunk-local offsets, and the runtime parameters (level of detail, water
//! level, minimised mode). `settle` performs at most one tile rotation per
//! call when the sampling origin has left the active tile; mesh generation
//! is a pure function of the settled state.

use vstd::prelude::*;

verus! {

use vstd::arithmetic::div_mod::lemma_fundamental_div_mod_converse;
use crate::colors::{
    add_terrain_colors, solid_palette, solid_palette_spec, terrain_color, wire_palette,
    wire_palette_spec, Color,
};
use crate::coords::{Direction, TileCoordinate, COORD_LIMIT};
use crate::grid::HeightGrid;
use crate::mesh::{rows_of, stride_of};
use crate::neighbors::{NeighborSet, NeighborSlot};
use crate::{HEIGHT_SCALE, WATER_EPSILON};

/// The camera's sampling origin stays well inside `i64`, so boundary
/// arithmetic can never overflow.
pub const MOVE_LIMIT: i64 = 0x1_0000_0000;

/// Chunk-local offsets are bounded by the extent of any sensible chunk
/// grid.
pub const OFFSET_LIMIT: i64 = 0x100000;

/// One mesh vertex: a chunk-local position and a fixed-point color.
///
/// `x` and `z` are chunk-local sample coordinates; `y` is the (possibly
/// water-clamped) height in `HEIGHT_SCALE` units, negative only when the
/// water level sits within `WATER_EPSILON` of zero.
#[derive(Clone, Copy, Debug, PartialEq, Eq, Structural)]
pub struct Vertex {
    pub x: u32,
    pub y: i64,
    pub z: u32,
    pub color: Color,
}

/// The terrain streaming state.
pub struct Terrain {
    /// Chunk-local placement of the chunk being generated.
    pub offset_x: i64,
    pub offset_z: i64,
    /// The camera's sampling origin within the active tile's frame.
    pub move_x: i64,
    pub move_z: i64,
    /// Sampling stride selector, clamped to 0..=7.
    pub level_of_detail: u32,
    /// Fixed-point water threshold in `HEIGHT_SCALE` units.
    pub water_level: u32,
    /// Samples per chunk side before the stride is applied.
    pub chunksize: u32,
    /// Whether the quarter-resolution cache drives sampling.
    pub minimised: bool,
    /// Set by every parameter change; cleared when all chunks have been
    /// regenerated.
    pub dirty: bool,
    /// The coordinate of the active tile.
    pub center: TileCoordinate,
    /// Full-resolution tile cache.
    pub full: NeighborSet,
    /// Quarter-resolution tile cache.
    pub mini: NeighborSet,
}

impl Terrain {
    /// Well-formedness of the whole streaming state.
    pub open spec fn wf(&self) -> bool {
        &&& self.full.wf()
        &&& self.mini.wf()
        &&& self.mini.side * 4 == self.full.side
        &&& 2 <= self.chunksize <= 4000
        &&& self.level_of_detail <= 7
        &&& self.water_level <= HEIGHT_SCALE
        &&& self.center.wf()
        &&& -MOVE_LIMIT <= self.move_x <= MOVE_LIMIT
        &&& -MOVE_LIMIT <= self.move_z <= MOVE_LIMIT
        &&& -OFFSET_LIMIT <= self.offset_x <= OFFSET_LIMIT
        &&& -OFFSET_LIMIT <= self.offset_z <= OFFSET_LIMIT
    }

    /// The tile cache the current mode samples from.
    pub open spec fn sample_set(&self) -> NeighborSet {
        if self.minimised {
            self.mini
        } else {
            self.full
        }
    }

    /// A fresh terrain centered on `(lat, long)`: the camera starts in the
    /// middle of the active tile, both caches hold a flat zero tile with
    /// all eight neighbour loads pending, and the water level sits just
    /// above zero.
    pub fn new(side: usize, chunksize: u32, lat: i32, long: i32) -> (t: Terrain)
        requires
            4 <= side <= 4000,
            side % 4 == 0,
            2 <= chunksize <= 4000,
            -COORD_LIMIT <= lat <= COORD_LIMIT,
            -COORD_LIMIT <= long <= COORD_LIMIT,
        ensures
            t.wf(),
            t.center == (TileCoordinate { lat, long }),
            t.full.side == side,
            t.mini.side == side / 4,
            t.move_x == side / 2,
            t.move_z == side / 2,
            t.offset_x == 0 && t.offset_z == 0,
            t.level_of_detail == 0,
            t.water_level == 1_000,
            t.chunksize == chunksize,
            !t.minimised,
            !t.dirty,
            forall|k: int| 0 <= k < t.full.active.data.len() ==> t.full.active.data[k] == 0,
            forall|d: Direction| (#[trigger] t.full.slot(d)) == (NeighborSlot {
                coord: t.center.neighbor_spec(d),
                pending: true,
                grid: None::<HeightGrid>,
            }),
            forall|d: Direction| (#[trigger] t.mini.slot(d)) == (NeighborSlot {
                coord: t.center.neighbor_spec(d),
                pending: true,
                grid: None::<HeightGrid>,
            }),
    {
        let center = TileCoordinate { lat, long };
        let full = NeighborSet::new(HeightGrid::constant(side, 0), center);
        let mini = NeighborSet::new(HeightGrid::constant(side / 4, 0), center);
        proof {
            assert(side / 4 * 4 == side) by {
                vstd::arithmetic::div_mod::lemma_fundamental_div_mod(side as int, 4);
            }
        }
        Terrain {
            offset_x: 0,
            offset_z: 0,
            move_x: (side / 2) as i64,
            move_z: (side / 2) as i64,
            level_of_detail: 0,
            water_level: 1_000,
            chunksize,
            minimised: false,
            dirty: false,
            center,
            full,
            mini,
        }
    }

    /// The latitude of the active tile.
    pub fn lat(&self) -> (v: i32)
        ensures
            v == self.center.lat,
    {
        self.center.lat
    }

    /// The longitude of the active tile.
    pub fn long(&self) -> (v: i32)
        ensures
            v == self.center.long,
    {
        self.center.long
    }

    /// Applies one keyboard movement step to the camera's sampling origin:
    /// `'e'`/`'w'` move east/west, `'s'`/`'n'` move south/north, and
    /// `'u'`, `'d'`, `'c'` only mark the geometry dirty. Any other key
    /// leaves the terrain untouched.
    pub fn plane_move(&mut self, m: char)
        requires
            old(self).wf(),
            -MOVE_LIMIT + 2 <= old(self).move_x <= MOVE_LIMIT - 2,
            -MOVE_LIMIT + 2 <= old(self).move_z <= MOVE_LIMIT - 2,
        ensures
            final(self).wf(),
            final(self).move_x == old(self).move_x + (if m == 'e' {
                2int
            } else if m == 'w' {
                -2int
            } else {
                0int
            }),
            final(self).move_z == old(self).move_z + (if m == 's' {
                2int
            } else if m == 'n' {
                -2int
            } else {
                0int
            }),
            final(self).dirty == (old(self).dirty || m == 'e' || m == 'w' || m == 's' || m == 'n'
                || m == 'u' || m == 'd' || m == 'c'),
            final(self).offset_x == old(self).offset_x,
            final(self).offset_z == old(self).offset_z,
            final(self).level_of_detail == old(self).level_of_detail,
            final(self).water_level == old(self).water_level,
            final(self).chunksize == old(self).chunksize,
            final(self).minimised == old(self).minimised,
            final(self).center == old(self).center,
            final(self).full == old(self).full,
            final(self).mini == old(self).mini,
    {
        match m {
            'e' => {
                self.move_x = self.move_x + 2;
                self.dirty = true;
            },
            'w' => {
                self.move_x = self.move_x - 2;
                self.dirty = true;
            },
            's' => {
                self.move_z = self.move_z + 2;
                self.dirty = true;
            },
            'n' => {
                self.move_z = self.move_z - 2;
                self.dirty = true;
            },
            'u' | 'd' | 'c' => {
                self.dirty = true;
            },
            _ => {},
        }
    }

    /// Coarsens the sampling (raises the level of detail value), clamped
    /// at 7.
    pub fn increase_level_of_detail(&mut self)
        requires
            old(self).wf(),
        ensures
            final(self).wf(),
            final(self).level_of_detail == (if old(self).level_of_detail < 7 {
                old(self).level_of_detail + 1
            } else {
                old(self).level_of_detail as int
            }),
            final(self).dirty,
            *final(self) == (Terrain {
                level_of_detail: final(self).level_of_detail,
                dirty: true,
                ..*old(self)
            }),
    {
        if self.level_of_detail < 7 {
            self.level_of_detail = self.level_of_detail + 1;
        }
        self.dirty = true;
    }

    /// Refines the sampling (lowers the level of detail value), clamped
    /// at 0.
    pub fn decrease_level_of_detail(&mut self)
        requires
            old(self).wf(),
        ensures
            final(self).wf(),
            final(self).level_of_detail == (if old(self).level_of_detail > 0 {
                old(self).level_of_detail - 1
            } else {
                0int
            }),
            final(self).dirty,
            *final(self) == (Terrain {
                level_of_detail: final(self).level_of_detail,
                dirty: true,
                ..*old(self)
            }),
    {
        if self.level_of_detail > 0 {
            self.level_of_detail = self.level_of_detail - 1;
        }
        self.dirty = true;
    }

    /// Switches between the full-resolution and minimised caches.
    pub fn toggle_minimised(&mut self)
        requires
            old(self).wf(),
        ensures
            final(self).wf(),
            *final(self) == (Terrain {
                minimised: !old(self).minimised,
                dirty: true,
                ..*old(self)
            }),
    {
        self.minimised = !self.minimised;
        self.dirty = true;
    }

    /// Sets the fixed-point water level.
    pub fn set_water_level(&mut self, w: u32)
        requires
            old(self).wf(),
            w <= HEIGHT_SCALE,
        ensures
            final(self).wf(),
            *final(self) == (Terrain { water_level: w, dirty: true, ..*old(self) }),
    {
        self.water_level = w;
        self.dirty = true;
    }

    /// Marks the geometry dirty, forcing the next update to regenerate it.
    pub fn mark_dirty(&mut self)
        ensures
            *final(self) == (Terrain { dirty: true, ..*old(self) }),
    {
        self.dirty = true;
    }

    /// Stores a finished neighbour load in the addressed cache.
    pub fn deliver_neighbor(&mut self, minimised: bool, d: Direction, g: HeightGrid)
        requires
            old(self).wf(),
            g.wf(),
            g.side == (if minimised {
                old(self).mini.side
            } else {
                old(self).full.side
            }),
        ensures
            final(self).wf(),
            minimised ==> *final(self) == (Terrain { mini: final(self).mini, ..*old(self) })
                && final(self).mini.slot(d) == (NeighborSlot {
                coord: old(self).mini.slot(d).coord,
                pending: false,
                grid: Some(g),
            }) && (forall|d2: Direction|
                d2 != d ==> #[trigger] final(self).mini.slot(d2) == old(self).mini.slot(d2))
                && final(self).mini.active == old(self).mini.active && final(self).mini.side == old(
                self,
            ).mini.side,
            !minimised ==> *final(self) == (Terrain { full: final(self).full, ..*old(self) })
                && final(self).full.slot(d) == (NeighborSlot {
                coord: old(self).full.slot(d).coord,
                pending: false,
                grid: Some(g),
            }) && (forall|d2: Direction|
                d2 != d ==> #[trigger] final(self).full.slot(d2) == old(self).full.slot(d2))
                && final(self).full.active == old(self).full.active && final(self).full.side == old(
                self,
            ).full.side,
    {
        if minimised {
            self.mini.deliver(d, g);
        } else {
            self.full.deliver(d, g);
        }
    }

    /// Replaces the active grid of the addressed cache (the initial tile
    /// load).
    pub fn deliver_active(&mut self, minimised: bool, g: HeightGrid)
        requires
            old(self).wf(),
            g.wf(),
            g.side == (if minimised {
                old(self).mini.side
            } else {
                old(self).full.side
            }),
        ensures
            final(self).wf(),
            minimised ==> *final(self) == (Terrain { mini: final(self).mini, ..*old(self) })
                && final(self).mini.active == g && final(self).mini.side == old(self).mini.side && (
            forall|d2: Direction| #[trigger] final(self).mini.slot(d2) == old(self).mini.slot(d2)),
            !minimised ==> *final(self) == (Terrain { full: final(self).full, ..*old(self) })
                && final(self).full.active == g && final(self).full.side == old(self).full.side && (
            forall|d2: Direction| #[trigger] final(self).full.slot(d2) == old(self).full.slot(d2)),
    {
        if minimised {
            self.mini.set_active(g);
        } else {
            self.full.set_active(g);
        }
    }

    /// Whether a load is still outstanding for neighbour `d` of the
    /// addressed cache.
    pub fn slot_pending(&self, minimised: bool, d: Direction) -> (b: bool)
        ensures
            b == (if minimised {
                self.mini.slot(d).pending
            } else {
                self.full.slot(d).pending
            }),
    {
        let s = if minimised {
            &self.mini
        } else {
            &self.full
        };
        match d {
            Direction::North => s.north.pending,
            Direction::NorthEast => s.north_east.pending,
            Direction::East => s.east.pending,
            Direction::SouthEast => s.south_east.pending,
            Direction::South => s.south.pending,
            Direction::SouthWest => s.south_west.pending,
            Direction::West => s.west.pending,
            Direction::NorthWest => s.north_west.pending,
        }
    }

    /// The tile coordinate neighbour `d` of the addressed cache stands
    /// for.
    pub fn slot_coord(&self, minimised: bool, d: Direction) -> (c: TileCoordinate)
        ensures
            c == (if minimised {
                self.mini.slot(d).coord
            } else {
                self.full.slot(d).coord
            }),
    {
        let s = if minimised {
            &self.mini
        } else {
            &self.full
        };
        match d {
            Direction::North => s.north.coord,
            Direction::NorthEast => s.north_east.coord,
            Direction::East => s.east.coord,
            Direction::SouthEast => s.south_east.coord,
            Direction::South => s.south.coord,
            Direction::SouthWest => s.south_west.coord,
            Direction::West => s.west.coord,
            Direction::NorthWest => s.north_west.coord,
        }
    }
}

impl Default for Terrain {
    /// The configuration the renderer starts from: full SRTM tiles of
    /// 3600 samples, 241-sample chunks, centered on tile N55 W005, the
    /// camera in the middle of the active tile, both caches holding a
    /// flat zero tile with every neighbour slot empty and pending, keyed
    /// by the compass convention (north at lat+1, east at long-1).
    fn default() -> (t: Terrain)
        ensures
            t.wf(),
            t.full.side == 3600,
            t.mini.side == 900,
            t.chunksize == 241,
            t.center == (TileCoordinate { lat: 55, long: 5 }),
            t.move_x == 1800 && t.move_z == 1800,
            t.offset_x == 0 && t.offset_z == 0,
            t.level_of_detail == 0,
            t.water_level == 1_000,
            !t.minimised,
            !t.dirty,
            forall|k: int| 0 <= k < t.full.active.data.len() ==> t.full.active.data[k] == 0,
            forall|d: Direction| (#[trigger] t.full.slot(d)) == (NeighborSlot {
                coord: t.center.neighbor_spec(d),
                pending: true,
                grid: None::<HeightGrid>,
            }),
            forall|d: Direction| (#[trigger] t.mini.slot(d)) == (NeighborSlot {
                coord: t.center.neighbor_spec(d),
                pending: true,
                grid: None::<HeightGrid>,
            }),
    {
        Terrain::new(3600, 241, 55, 5)
    }
}

/// In minimised mode the camera offset is scaled down to the
/// quarter-resolution grid, truncating toward zero.
pub open spec fn eff_move(m: int) -> int {
    if m >= 0 {
        m / 4
    } else {
        -((-m) / 4)
    }
}

/// Computes the effective minimised-mode offset.
pub fn eff_move_exec(m: i64) -> (r: i64)
    requires
        -MOVE_LIMIT <= m <= MOVE_LIMIT,
    ensures
        r == eff_move(m as int),
{
    if m >= 0 {
        ((m as u64) / 4) as i64
    } else {
        -((((-m) as u64) / 4) as i64)
    }
}

/// The direction in which the camera's sampling origin has left the
/// active tile, if it has: past either edge of an axis a rotation in that
/// compass direction is due, and a diagonal exit combines both axes.
pub open spec fn rotation_direction(s: Terrain) -> Option<Direction> {
    let t = s.full.side as int;
    let zn = s.move_z < 0;
    let zs = s.move_z >= t;
    let xw = s.move_x < 0;
    let xe = s.move_x >= t;
    if zn && xw {
        Some(Direction::NorthWest)
    } else if zn && xe {
        Some(Direction::NorthEast)
    } else if zs && xw {
        Some(Direction::SouthWest)
    } else if zs && xe {
        Some(Direction::SouthEast)
    } else if zn {
        Some(Direction::North)
    } else if zs {
        Some(Direction::South)
    } else if xw {
        Some(Direction::West)
    } else if xe {
        Some(Direction::East)
    } else {
        None
    }
}

/// The camera's sampling origin lies within the active tile, so no
/// rotation is due.
pub open spec fn settled(s: Terrain) -> bool {
    rotation_direction(s) is None
}

/// A due rotation can be performed now: the neighbour grid it consumes
/// has been delivered and the new center coordinate is representable.
pub open spec fn rotation_ready(s: Terrain, d: Direction) -> bool {
    &&& s.sample_set().slot(d).grid is Some
    &&& s.center.neighbor_spec(d).wf()
}

/// A cache rekeyed around `c`: the given active grid, every neighbour
/// slot emptied and marked pending.
pub open spec fn refreshed(set: NeighborSet, c: TileCoordinate, active: HeightGrid) -> NeighborSet {
    NeighborSet {
        side: set.side,
        active,
        north: NeighborSlot { coord: c.neighbor_spec(Direction::North), pending: true, grid: None },
        north_east: NeighborSlot {
            coord: c.neighbor_spec(Direction::NorthEast),
            pending: true,
            grid: None,
        },
        east: NeighborSlot { coord: c.neighbor_spec(Direction::East), pending: true, grid: None },
        south_east: NeighborSlot {
            coord: c.neighbor_spec(Direction::SouthEast),
            pending: true,
            grid: None,
        },
        south: NeighborSlot { coord: c.neighbor_spec(Direction::South), pending: true, grid: None },
        south_west: NeighborSlot {
            coord: c.neighbor_spec(Direction::SouthWest),
            pending: true,
            grid: None,
        },
        west: NeighborSlot { coord: c.neighbor_spec(Direction::West), pending: true, grid: None },
        north_west: NeighborSlot {
            coord: c.neighbor_spec(Direction::NorthWest),
            pending: true,
            grid: None,
        },
    }
}

/// The terrain after one rotation in direction `d`: the consumed
/// neighbour grid becomes the current mode's active grid, the camera
/// offset shifts by one tile width per crossed axis so sampling stays
/// continuous, the center coordinate steps to the neighbour, and all
/// eight slots of both caches are refreshed around it.
pub open spec fn rotated(s: Terrain, d: Direction) -> Terrain {
    let t = s.full.side as int;
    let nc = s.center.neighbor_spec(d);
    let g = s.sample_set().slot(d).grid.unwrap();
    Terrain {
        move_x: (s.move_x + t * d.long_step()) as i64,
        move_z: (s.move_z + t * d.lat_step()) as i64,
        center: nc,
        full: refreshed(
            s.full,
            nc,
            if s.minimised {
                s.full.active
            } else {
                g
            },
        ),
        mini: refreshed(
            s.mini,
            nc,
            if s.minimised {
                g
            } else {
                s.mini.active
            },
        ),
        ..s
    }
}

/// One settling step: a due and ready rotation is performed, anything
/// else (no crossing, or the needed neighbour still in flight) leaves the
/// state untouched and the rotation deferred to a later pass.
pub open spec fn settle_core(s: Terrain) -> Terrain {
    match rotation_direction(s) {
        None => s,
        Some(d) => if rotation_ready(s, d) {
            rotated(s, d)
        } else {
            s
        },
    }
}

impl Terrain {
    /// Performs at most one tile rotation, when the camera's sampling
    /// origin has crossed out of the active tile and the needed neighbour
    /// grid has been delivered. A crossing whose neighbour is still in
    /// flight is deferred: sampling then clamps to the stale active grid
    /// for a frame rather than blocking.
    pub fn settle(&mut self)
        requires
            old(self).wf(),
        ensures
            final(self).wf(),
            *final(self) == settle_core(*old(self)),
    {
        let t: i64 = self.full.side as i64;
        let zn = self.move_z < 0;
        let zs = self.move_z >= t;
        let xw = self.move_x < 0;
        let xe = self.move_x >= t;
        let dir: Option<Direction> = if zn && xw {
            Some(Direction::NorthWest)
        } else if zn && xe {
            Some(Direction::NorthEast)
        } else if zs && xw {
            Some(Direction::SouthWest)
        } else if zs && xe {
            Some(Direction::SouthEast)
        } else if zn {
            Some(Direction::North)
        } else if zs {
            Some(Direction::South)
        } else if xw {
            Some(Direction::West)
        } else if xe {
            Some(Direction::East)
        } else {
            None
        };
        match dir {
            None => {},
            Some(d) => {
                let has = if self.minimised {
                    self.mini.has_grid(d)
                } else {
                    self.full.has_grid(d)
                };
                if has && self.center.can_step(d) {
                    let taken = if self.minimised {
                        self.mini.take_grid(d)
                    } else {
                        self.full.take_grid(d)
                    };
                    match taken {
                        Some(g) => {
                            if self.minimised {
                                self.mini.set_active(g);
                            } else {
                                self.full.set_active(g);
                            }
                        },
                        None => {
                            proof {
                                assert(false);
                            }
                        },
                    }
                    let (dlat, dlong) = crate::coords::direction_steps(d);
                    proof {
                        assert(-t <= t * (dlong as i64) <= t && -t <= t * (dlat as i64) <= t)
                            by (nonlinear_arith)
                            requires
                                0 <= t,
                                -1 <= dlong <= 1,
                                -1 <= dlat <= 1,
                        ;
                    }
                    self.move_x = self.move_x + t * (dlong as i64);
                    self.move_z = self.move_z + t * (dlat as i64);
                    self.center = self.center.neighbor(d);
                    let c = self.center;
                    self.full.refresh_all(c);
                    self.mini.refresh_all(c);
                    proof {
                        let s0 = *old(self);
                        let r = rotated(s0, d);
                        assert(self.full.slot(Direction::North) == r.full.slot(Direction::North)
                            && self.full.slot(Direction::NorthEast) == r.full.slot(
                            Direction::NorthEast,
                        ) && self.full.slot(Direction::East) == r.full.slot(Direction::East)
                            && self.full.slot(Direction::SouthEast) == r.full.slot(
                            Direction::SouthEast,
                        ) && self.full.slot(Direction::South) == r.full.slot(Direction::South)
                            && self.full.slot(Direction::SouthWest) == r.full.slot(
                            Direction::SouthWest,
                        ) && self.full.slot(Direction::West) == r.full.slot(Direction::West)
                            && self.full.slot(Direction::NorthWest) == r.full.slot(
                            Direction::NorthWest,
                        ));
                        assert(self.mini.slot(Direction::North) == r.mini.slot(Direction::North)
                            && self.mini.slot(Direction::NorthEast) == r.mini.slot(
                            Direction::NorthEast,
                        ) && self.mini.slot(Direction::East) == r.mini.slot(Direction::East)
                            && self.mini.slot(Direction::SouthEast) == r.mini.slot(
                            Direction::SouthEast,
                        ) && self.mini.slot(Direction::South) == r.mini.slot(Direction::South)
                            && self.mini.slot(Direction::SouthWest) == r.mini.slot(
                            Direction::SouthWest,
                        ) && self.mini.slot(Direction::West) == r.mini.slot(Direction::West)
                            && self.mini.slot(Direction::NorthWest) == r.mini.slot(
                            Direction::NorthWest,
                        ));
                        assert(self.full.active == r.full.active && self.mini.active
                            == r.mini.active);
                        assert(self.full == r.full && self.mini == r.mini);
                        assert(*self == r);
                    }
                }
            },
        }
    }
}

/// A settled camera — its sampling origin within the active tile on both
/// axes — is a fixed point of settling: no rotation fires until the
/// origin actually leaves the tile.
pub proof fn lemma_settled_fixed_point(s: Terrain)
    requires
        settled(s),
    ensures
        settle_core(s) == s,
{
}

/// Settling twice in a row changes nothing the second time: if the first
/// pass rotated, every neighbour slot is empty afterwards and the next
/// rotation is deferred; if it did nothing, the state was already settled
/// or deferred. Together with mesh generation being a pure function of
/// the settled state, regenerating twice with no camera movement and no
/// parameter change yields identical geometry.
pub proof fn lemma_regenerate_idempotent(s: Terrain, palette: Seq<Color>)
    ensures
        settle_core(settle_core(s)) == settle_core(s),
        mesh_seq(settle_core(settle_core(s)), palette) == mesh_seq(settle_core(s), palette),
{
    let s1 = settle_core(s);
    match rotation_direction(s1) {
        None => {},
        Some(d1) => {
            if rotation_ready(s1, d1) {
                assert(s1 != s);
                let d = rotation_direction(s).unwrap();
                assert(s1 == rotated(s, d));
                assert(s1.sample_set().slot(d1).grid is None);
            }
        },
    }
}

/// The running sum of a sequence of movement deltas.
pub open spec fn sum_of(deltas: Seq<int>) -> int
    decreases deltas.len(),
{
    if deltas.len() == 0 {
        0
    } else {
        sum_of(deltas.drop_last()) + deltas.last()
    }
}

/// One eastward camera move of `d`, followed by one settling step, on the
/// x axis of a tile of width `t`: exactly what `settle_core` does to
/// `move_x` and `center.long` when the crossed neighbour is available.
pub open spec fn east_move_step(m: int, long: int, d: int, t: int) -> (int, int) {
    if m + d >= t {
        (m + d - t, long - 1)
    } else {
        (m + d, long)
    }
}

/// The camera state after a sequence of eastward moves, each followed by
/// one settling step.
pub open spec fn east_moves(m0: int, long0: int, deltas: Seq<int>, t: int) -> (int, int)
    decreases deltas.len(),
{
    if deltas.len() == 0 {
        (m0, long0)
    } else {
        let prev = east_moves(m0, long0, deltas.drop_last(), t);
        east_move_step(prev.0, prev.1, deltas.last(), t)
    }
}

/// Consecutive eastward moves that cross tile boundaries M times in total
/// leave the longitude exactly M below its initial value, and the camera
/// offset within one tile's bounds: after any sequence of eastward moves
/// each smaller than a tile width, the offset is the total movement
/// reduced modulo the tile width, and the longitude has dropped by the
/// number of whole tile widths crossed.
pub proof fn lemma_eastward_crossings(m0: int, long0: int, deltas: Seq<int>, t: int)
    requires
        t >= 1,
        0 <= m0 < t,
        forall|i: int| 0 <= i < deltas.len() ==> 0 <= #[trigger] deltas[i] < t,
    ensures
        ({
            let r = east_moves(m0, long0, deltas, t);
            &&& 0 <= r.0 < t
            &&& r.0 == (m0 + sum_of(deltas)) % t
            &&& r.1 == long0 - (m0 + sum_of(deltas)) / t
        }),
    decreases deltas.len(),
{
    if deltas.len() == 0 {
        lemma_fundamental_div_mod_converse(m0, t, 0, m0);
    } else {
        let pre = deltas.drop_last();
        assert(forall|i: int| 0 <= i < pre.len() ==> 0 <= #[trigger] pre[i] < t);
        lemma_eastward_crossings(m0, long0, pre, t);
        let p = east_moves(m0, long0, pre, t);
        let d = deltas.last();
        let s_pre = m0 + sum_of(pre);
        let s_all = m0 + sum_of(deltas);
        vstd::arithmetic::div_mod::lemma_fundamental_div_mod(s_pre, t);
        let q = s_pre / t;
        assert(s_pre == q * t + p.0);
        if p.0 + d >= t {
            assert(s_all == (q + 1) * t + (p.0 + d - t)) by (nonlinear_arith)
                requires
                    s_all == s_pre + d,
                    s_pre == q * t + p.0,
            ;
            lemma_fundamental_div_mod_converse(s_all, t, q + 1, p.0 + d - t);
        } else {
            lemma_fundamental_div_mod_converse(s_all, t, q, p.0 + d);
        }
    }
}

/// The effective camera offset on the x axis for the current mode.
pub open spec fn eff_move_x(s: Terrain) -> int {
    if s.minimised {
        eff_move(s.move_x as int)
    } else {
        s.move_x as int
    }
}

/// The effective camera offset on the z axis for the current mode.
pub open spec fn eff_move_z(s: Terrain) -> int {
    if s.minimised {
        eff_move(s.move_z as int)
    } else {
        s.move_z as int
    }
}

/// The number of samples per chunk row at the current level of detail.
pub open spec fn mesh_rows(s: Terrain) -> int {
    rows_of(s.chunksize as int, s.level_of_detail as int)
}

/// The mesh vertex at sample `(xi, zi)` of the chunk being generated:
/// the chunk-local position is the sample coordinate scaled by the
/// stride, the height is read from the cached tiles at the
/// camera-relative coordinate, samples below the water level are clamped
/// to `water_level - WATER_EPSILON` so the water surface is flat, and the
/// color comes from the water-shifted ramp.
pub open spec fn mesh_vertex(s: Terrain, palette: Seq<Color>, xi: int, zi: int) -> Vertex {
    let inc = stride_of(s.level_of_detail as int);
    let x = xi * inc;
    let z = zi * inc;
    let usex = x + s.offset_x + eff_move_x(s);
    let usez = z + s.offset_z + eff_move_z(s);
    let h = s.sample_set().sample_spec(usex, usez);
    let y: int = if h < s.water_level {
        s.water_level - WATER_EPSILON
    } else {
        h
    };
    Vertex {
        x: x as u32,
        y: y as i64,
        z: z as u32,
        color: terrain_color(palette, s.water_level as int, y),
    }
}

/// The vertex stream of one chunk: `mesh_rows(s)` rows of `mesh_rows(s)`
/// samples, x-major.
pub open spec fn mesh_seq(s: Terrain, palette: Seq<Color>) -> Seq<Vertex> {
    Seq::new(
        (mesh_rows(s) * mesh_rows(s)) as nat,
        |k: int| mesh_vertex(s, palette, k / mesh_rows(s), k % mesh_rows(s)),
    )
}

impl Terrain {
    /// Generates one chunk's vertex stream against a five-band palette.
    fn generate_vertices(&self, palette: &Vec<Color>, vpr: u32) -> (v: Vec<Vertex>)
        requires
            self.wf(),
            palette.len() == 5,
            vpr == mesh_rows(*self),
            1 <= vpr <= self.chunksize,
        ensures
            v@ == mesh_seq(*self, palette@),
    {
        let rows: usize = vpr as usize;
        proof {
            assert(rows * rows <= 16_000_000) by (nonlinear_arith)
                requires
                    0 <= rows <= 4000,
            ;
        }
        let n: usize = rows * rows;
        let inc = crate::mesh::stride_for_lod(self.level_of_detail);
        let ex: i64 = if self.minimised {
            eff_move_exec(self.move_x)
        } else {
            self.move_x
        };
        let ez: i64 = if self.minimised {
            eff_move_exec(self.move_z)
        } else {
            self.move_z
        };
        let mut v: Vec<Vertex> = Vec::new();
        let mut k: usize = 0;
        while k < n
            invariant
                k <= n,
                n == rows * rows,
                rows == vpr,
                1 <= vpr <= self.chunksize,
                self.wf(),
                palette.len() == 5,
                vpr == mesh_rows(*self),
                inc == stride_of(self.level_of_detail as int),
                1 <= inc <= 10,
                ex == eff_move_x(*self),
                ez == eff_move_z(*self),
                v.len() == k,
                forall|m: int|
                    0 <= m < k ==> v[m] == mesh_vertex(
                        *self,
                        palette@,
                        m / (vpr as int),
                        m % (vpr as int),
                    ),
            decreases n - k,
        {
            proof {
                assert(k < rows * rows ==> k / rows < rows) by (nonlinear_arith)
                    requires
                        rows >= 1,
                ;
                vstd::arithmetic::div_mod::lemma_mod_division_less_than_divisor(
                    k as int,
                    rows as int,
                );
            }
            let xi: usize = k / rows;
            let zi: usize = k % rows;
            proof {
                assert(xi * inc <= 4000 * 10 && zi * inc <= 4000 * 10) by (nonlinear_arith)
                    requires
                        0 <= xi < 4001,
                        0 <= zi < 4001,
                        0 <= inc <= 10,
                ;
            }
            let x: u32 = (xi as u32) * inc;
            let z: u32 = (zi as u32) * inc;
            let usex: i64 = x as i64 + self.offset_x + ex;
            let usez: i64 = z as i64 + self.offset_z + ez;
            let h: u32 = if self.minimised {
                self.mini.sample_height(usex, usez)
            } else {
                self.full.sample_height(usex, usez)
            };
            let y: i64 = if (h as i64) < (self.water_level as i64) {
                self.water_level as i64 - WATER_EPSILON as i64
            } else {
                h as i64
            };
            let color = add_terrain_colors(palette, self.water_level, y);
            v.push(Vertex { x, y, z, color });
            k = k + 1;
        }
        proof {
            assert(v@ =~= mesh_seq(*self, palette@));
        }
        v
    }

    /// Regenerates one chunk: settles the camera (performing at most one
    /// tile rotation), then produces the solid vertex stream, the
    /// wireframe vertex stream, and the number of vertices per row.
    pub fn create_terrain_data(&mut self) -> (r: (Vec<Vertex>, Vec<Vertex>, u32))
        requires
            old(self).wf(),
        ensures
            final(self).wf(),
            *final(self) == settle_core(*old(self)),
            r.0@ == mesh_seq(*final(self), solid_palette_spec()),
            r.1@ == mesh_seq(*final(self), wire_palette_spec()),
            r.2 == mesh_rows(*final(self)),
            1 <= r.2 <= final(self).chunksize,
    {
        self.settle();
        let vpr = crate::mesh::vertices_per_row(self.chunksize, self.level_of_detail);
        let cpal = solid_palette();
        let wpal = wire_palette();
        let data = self.generate_vertices(&cpal, vpr);
        let texturedata = self.generate_vertices(&wpal, vpr);
        (data, texturedata, vpr)
    }
}

/// The terrain with the chunk-local offsets replaced.
pub open spec fn with_offsets(s: Terrain, off: (i64, i64)) -> Terrain {
    Terrain { offset_x: off.0, offset_z: off.1, ..s }
}

/// The terrain state after the first `k` chunks of a regeneration pass:
/// each chunk installs its translation as the chunk-local offset and
/// settles the camera.
pub open spec fn chunk_state(s: Terrain, tr: Seq<(i64, i64)>, k: int) -> Terrain
    decreases k,
{
    if k <= 0 {
        s
    } else {
        settle_core(with_offsets(chunk_state(s, tr, k - 1), tr[k - 1]))
    }
}

impl Terrain {
    /// Regenerates every chunk of an `x_chunks * z_chunks` grid, row-major,
    /// installing each chunk's world translation as its local offset, and
    /// clears the dirty flag: the single regeneration entry point the
    /// render driver calls.
    pub fn create_collection_of_terrain_data(
        &mut self,
        x_chunks: u32,
        z_chunks: u32,
        translations: &Vec<(i64, i64)>,
    ) -> (r: (Vec<Vec<Vertex>>, Vec<Vec<Vertex>>, u32))
        requires
            old(self).wf(),
            1 <= x_chunks <= 64,
            1 <= z_chunks <= 64,
            translations.len() == x_chunks * z_chunks,
            forall|k: int|
                0 <= k < translations.len() ==> -OFFSET_LIMIT <= (#[trigger] translations[k]).0
                    <= OFFSET_LIMIT && -OFFSET_LIMIT <= translations[k].1 <= OFFSET_LIMIT,
        ensures
            final(self).wf(),
            *final(self) == (Terrain {
                dirty: false,
                ..chunk_state(*old(self), translations@, translations.len() as int)
            }),
            r.0.len() == translations.len(),
            r.1.len() == translations.len(),
            forall|k: int|
                0 <= k < r.0.len() ==> (#[trigger] r.0[k])@ == mesh_seq(
                    chunk_state(*old(self), translations@, k + 1),
                    solid_palette_spec(),
                ),
            forall|k: int|
                0 <= k < r.1.len() ==> (#[trigger] r.1[k])@ == mesh_seq(
                    chunk_state(*old(self), translations@, k + 1),
                    wire_palette_spec(),
                ),
            r.2 == mesh_rows(*final(self)),
    {
        let total: usize = translations.len();
        let mut data: Vec<Vec<Vertex>> = Vec::new();
        let mut texturedata: Vec<Vec<Vertex>> = Vec::new();
        let mut vertices_per_row: u32 = 1;
        let mut k: usize = 0;
        while k < total
            invariant
                k <= total,
                total == translations.len(),
                self.wf(),
                *self == chunk_state(*old(self), translations@, k as int),
                forall|i: int|
                    0 <= i < translations.len() ==> -OFFSET_LIMIT <= (#[trigger] translations[i]).0
                        <= OFFSET_LIMIT && -OFFSET_LIMIT <= translations[i].1 <= OFFSET_LIMIT,
                data.len() == k,
                texturedata.len() == k,
                forall|i: int|
                    0 <= i < k ==> (#[trigger] data[i])@ == mesh_seq(
                        chunk_state(*old(self), translations@, i + 1),
                        solid_palette_spec(),
                    ),
                forall|i: int|
                    0 <= i < k ==> (#[trigger] texturedata[i])@ == mesh_seq(
                        chunk_state(*old(self), translations@, i + 1),
                        wire_palette_spec(),
                    ),
                k > 0 ==> vertices_per_row == mesh_rows(*self),
                k == 0 ==> vertices_per_row == 1,
                1 <= vertices_per_row <= 4000,
            decreases total - k,
        {
            let tr = translations[k];
            self.offset_x = tr.0;
            self.offset_z = tr.1;
            proof {
                assert(*self == with_offsets(
                    chunk_state(*old(self), translations@, k as int),
                    translations@[k as int],
                ));
            }
            let dd = self.create_terrain_data();
            data.push(dd.0);
            texturedata.push(dd.1);
            vertices_per_row = dd.2;
            k = k + 1;
        }
        self.dirty = false;
        proof {
            assert(total >= 1) by (nonlinear_arith)
                requires
                    total == x_chunks * z_chunks,
                    x_chunks >= 1,
                    z_chunks >= 1,
            ;
        }
        (data, texturedata, vertices_per_row)
    }

    /// Builds the solid and wireframe index streams for a chunk of
    /// `width * height` vertices; see `mesh::build_indices`. Every index
    /// addresses a vertex of the chunk, so the index buffers can never
    /// read out of range.
    pub fn create_indices(&mut self, width: u32, height: u32) -> (r: (Vec<u32>, Vec<u32>))
        requires
            1 <= width <= 4000,
            1 <= height <= 4000,
        ensures
            *final(self) == *old(self),
            r.0@ == crate::mesh::solid_cells(height as int, (width - 1) * (height - 1)),
            r.1@ == crate::mesh::wire_cells(
                width as int,
                height as int,
                (width - 1) * (height - 1),
            ),
            forall|n: int| 0 <= n < r.0@.len() ==> (#[trigger] r.0@[n]) < width * height,
            forall|n: int| 0 <= n < r.1@.len() ==> (#[trigger] r.1@[n]) < width * height,
    {
        crate::mesh::build_indices(width, height)
    }
}

/// A rotation never loses track of where the camera sits on the globe:
/// the quantity `move - tile * coordinate` is conserved on each axis, so
/// the camera offset and the tile coordinate always describe the same
/// absolute position.
pub proof fn lemma_settle_conserves(s: Terrain)
    requires
        s.wf(),
    ensures
        ({
            let r = settle_core(s);
            let t = s.full.side as int;
            &&& r.full.side == s.full.side
            &&& r.move_x - t * r.center.long == s.move_x - t * s.center.long
            &&& r.move_z - t * r.center.lat == s.move_z - t * s.center.lat
        }),
{
    let t = s.full.side as int;
    match rotation_direction(s) {
        None => {},
        Some(d) => {
            if rotation_ready(s, d) {
                let r = rotated(s, d);
                assert(-t <= t * d.long_step() <= t && -t <= t * d.lat_step() <= t)
                    by (nonlinear_arith)
                    requires
                        0 <= t,
                        -1 <= d.long_step() <= 1,
                        -1 <= d.lat_step() <= 1,
                ;
                assert(r.move_x == s.move_x + t * d.long_step());
                assert(r.move_z == s.move_z + t * d.lat_step());
                assert(t * (s.center.long + d.long_step()) == t * s.center.long + t
                    * d.long_step()) by (nonlinear_arith);
                assert(t * (s.center.lat + d.lat_step()) == t * s.center.lat + t * d.lat_step())
                    by (nonlinear_arith);
            }
        },
    }
}

} // verus!
