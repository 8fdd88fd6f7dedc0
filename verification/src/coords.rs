//! Tile coordinates and compass directions.
//!
//! A `TileCoordinate` names the one-degree cell an elevation tile covers;
//! the eight compass directions name its neighbours. The direction
//! convention matches the camera axes: moving the sampling origin east
//! decrements the longitude, moving it north increments the latitude.

use vstd::prelude::*;

verus! {

/// The (latitude, longitude) integer pair identifying one elevation tile.
#[derive(Clone, Copy, Debug, PartialEq, Eq, Structural)]
pub struct TileCoordinate {
    pub lat: i32,
    pub long: i32,
}

/// One of the eight compass neighbours of the active tile.
#[derive(Clone, Copy, Debug, PartialEq, Eq, Structural)]
pub enum Direction {
    North,
    NorthEast,
    East,
    SouthEast,
    South,
    SouthWest,
    West,
    NorthWest,
}

impl Direction {
    /// Latitude offset of the neighbouring tile in this direction.
    pub open spec fn lat_step(self) -> int {
        match self {
            Direction::North | Direction::NorthEast | Direction::NorthWest => 1,
            Direction::South | Direction::SouthEast | Direction::SouthWest => -1,
            Direction::East | Direction::West => 0,
        }
    }

    /// Longitude offset of the neighbouring tile in this direction.
    /// Longitudes are counted westward, so the east neighbour sits at
    /// `long - 1` and the west neighbour at `long + 1`.
    pub open spec fn long_step(self) -> int {
        match self {
            Direction::East | Direction::NorthEast | Direction::SouthEast => -1,
            Direction::West | Direction::NorthWest | Direction::SouthWest => 1,
            Direction::North | Direction::South => 0,
        }
    }
}

/// Coordinates stay well inside `i32` so that stepping to a neighbour can
/// never overflow.
pub const COORD_LIMIT: i32 = 1_000_000;

impl TileCoordinate {
    /// The coordinate is far enough from the `i32` limits that any
    /// neighbour step is representable.
    pub open spec fn wf(&self) -> bool {
        &&& -COORD_LIMIT <= self.lat <= COORD_LIMIT
        &&& -COORD_LIMIT <= self.long <= COORD_LIMIT
    }

    /// The coordinate of the neighbouring tile in direction `d`.
    pub open spec fn neighbor_spec(&self, d: Direction) -> TileCoordinate {
        TileCoordinate {
            lat: (self.lat + d.lat_step()) as i32,
            long: (self.long + d.long_step()) as i32,
        }
    }

    /// Whether the neighbouring tile coordinate in direction `d` is still
    /// representable.
    pub fn can_step(&self, d: Direction) -> (b: bool)
        requires
            self.wf(),
        ensures
            b == self.neighbor_spec(d).wf(),
    {
        let (dlat, dlong) = direction_steps(d);
        let nl = self.lat + dlat;
        let ng = self.long + dlong;
        -COORD_LIMIT <= nl && nl <= COORD_LIMIT && -COORD_LIMIT <= ng && ng <= COORD_LIMIT
    }

    /// Computes the neighbouring tile coordinate in direction `d`.
    pub fn neighbor(&self, d: Direction) -> (c: TileCoordinate)
        requires
            self.wf(),
        ensures
            c == self.neighbor_spec(d),
            c.lat == self.lat + d.lat_step(),
            c.long == self.long + d.long_step(),
    {
        let (dlat, dlong) = direction_steps(d);
        TileCoordinate { lat: self.lat + dlat, long: self.long + dlong }
    }
}

/// The decimal digits of `n`, as ASCII bytes without leading zeros.
pub open spec fn decimal_digits(n: int) -> Seq<u8>
    decreases n,
{
    if n < 10 {
        seq![(48 + n) as u8]
    } else {
        decimal_digits(n / 10) + seq![(48 + n % 10) as u8]
    }
}

/// The file name that backs a tile coordinate, as ASCII bytes: the
/// latitude after `N`, the longitude after `W00`, and the `.hgt` suffix.
/// Each coordinate maps to exactly this one name.
pub open spec fn tile_name_spec(c: TileCoordinate) -> Seq<u8> {
    seq![78u8] + decimal_digits(c.lat as int) + seq![87u8, 48u8, 48u8] + decimal_digits(
        c.long as int,
    ) + seq![46u8, 104u8, 103u8, 116u8]
}

/// Appends the decimal digits of `n`.
fn push_decimal_digits(n: u32, out: &mut Vec<u8>)
    requires
        n <= 0x8000_0000,
    ensures
        final(out)@ == old(out)@ + decimal_digits(n as int),
    decreases n,
{
    if n >= 10 {
        push_decimal_digits(n / 10, out);
    }
    let d: u8 = (48 + n % 10) as u8;
    out.push(d);
    proof {
        if n >= 10 {
            assert(out@ =~= old(out)@ + decimal_digits(n as int));
        } else {
            assert(out@ =~= old(out)@ + decimal_digits(n as int));
        }
    }
}

/// Builds the `.hgt` file name of a tile coordinate, as ASCII bytes.
pub fn tile_file_name(c: TileCoordinate) -> (name: Vec<u8>)
    requires
        0 <= c.lat,
        0 <= c.long,
    ensures
        name@ == tile_name_spec(c),
{
    let mut name: Vec<u8> = Vec::new();
    name.push(78);
    push_decimal_digits(c.lat as u32, &mut name);
    name.push(87);
    name.push(48);
    name.push(48);
    push_decimal_digits(c.long as u32, &mut name);
    name.push(46);
    name.push(104);
    name.push(103);
    name.push(116);
    proof {
        assert(name@ =~= tile_name_spec(c));
    }
    name
}

/// The latitude and longitude steps of a compass direction.
pub fn direction_steps(d: Direction) -> (s: (i32, i32))
    ensures
        s.0 == d.lat_step(),
        s.1 == d.long_step(),
{
    match d {
        Direction::North => (1, 0),
        Direction::NorthEast => (1, -1),
        Direction::East => (0, -1),
        Direction::SouthEast => (-1, -1),
        Direction::South => (-1, 0),
        Direction::SouthWest => (-1, 1),
        Direction::West => (0, 1),
        Direction::NorthWest => (1, 1),
    }
}

} // verus!
