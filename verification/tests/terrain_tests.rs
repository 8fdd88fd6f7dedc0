use terrain_stream::coords::{Direction, TileCoordinate};
use terrain_stream::grid::HeightGrid;
use terrain_stream::terrain::Terrain;
use terrain_stream::{HEIGHT_SCALE, WATER_EPSILON};

/// A small terrain whose active full-resolution grid is built from the
/// given raw samples.
fn small_terrain(side: usize, raw: &[i32]) -> Terrain {
    let mut t = Terrain::new(side, side as u32, 55, 5);
    let raw_vec: Vec<i32> = raw.to_vec();
    let g = HeightGrid::from_raw(&raw_vec, side);
    t.deliver_active(false, g);
    t
}

#[test]
fn fresh_terrain_matches_the_default_configuration() {
    let t = Terrain::default();
    assert_eq!(t.full.side, 3600);
    assert_eq!(t.mini.side, 900);
    assert_eq!(t.chunksize, 241);
    assert_eq!(t.move_x, 1800);
    assert_eq!(t.move_z, 1800);
    assert_eq!(t.level_of_detail, 0);
    assert_eq!(t.water_level, 1_000);
    assert!(!t.minimised);
    assert_eq!((t.lat(), t.long()), (55, 5));
    // Every neighbour load starts out pending.
    for d in [
        Direction::North,
        Direction::NorthEast,
        Direction::East,
        Direction::SouthEast,
        Direction::South,
        Direction::SouthWest,
        Direction::West,
        Direction::NorthWest,
    ] {
        assert!(t.slot_pending(false, d));
        assert!(t.slot_pending(true, d));
    }
    assert_eq!(t.slot_coord(false, Direction::East), TileCoordinate { lat: 55, long: 4 });
    assert_eq!(t.slot_coord(false, Direction::North), TileCoordinate { lat: 56, long: 5 });
    assert_eq!(t.slot_coord(true, Direction::SouthWest), TileCoordinate { lat: 54, long: 6 });
    assert_eq!((t.offset_x, t.offset_z), (0, 0));
}

#[test]
fn plane_move_shifts_the_sampling_origin() {
    let mut t = Terrain::new(8, 4, 55, 5);
    assert_eq!((t.move_x, t.move_z), (4, 4));
    t.plane_move('e');
    assert_eq!((t.move_x, t.move_z), (6, 4));
    t.plane_move('w');
    t.plane_move('w');
    assert_eq!((t.move_x, t.move_z), (2, 4));
    t.plane_move('s');
    assert_eq!((t.move_x, t.move_z), (2, 6));
    t.plane_move('n');
    t.plane_move('n');
    assert_eq!((t.move_x, t.move_z), (2, 2));
    assert!(t.dirty);
    // Keys that only affect the camera still mark the geometry dirty;
    // unknown keys change nothing.
    let mut u = Terrain::new(8, 4, 55, 5);
    u.plane_move('q');
    assert!(!u.dirty);
    u.plane_move('c');
    assert!(u.dirty);
    assert_eq!((u.move_x, u.move_z), (4, 4));
}

#[test]
fn level_of_detail_is_clamped() {
    let mut t = Terrain::new(8, 4, 55, 5);
    t.decrease_level_of_detail();
    assert_eq!(t.level_of_detail, 0);
    for _ in 0..10 {
        t.increase_level_of_detail();
    }
    assert_eq!(t.level_of_detail, 7);
    t.decrease_level_of_detail();
    assert_eq!(t.level_of_detail, 6);
    assert!(t.dirty);
}

#[test]
fn toggles_and_water_level() {
    let mut t = Terrain::new(8, 4, 55, 5);
    t.toggle_minimised();
    assert!(t.minimised);
    t.toggle_minimised();
    assert!(!t.minimised);
    t.set_water_level(100_000);
    assert_eq!(t.water_level, 100_000);
    assert!(t.dirty);
}

#[test]
fn delivery_clears_the_pending_flag() {
    let mut t = Terrain::new(8, 4, 55, 5);
    assert!(t.slot_pending(false, Direction::East));
    t.deliver_neighbor(false, Direction::East, HeightGrid::constant(8, 7));
    assert!(!t.slot_pending(false, Direction::East));
    assert!(t.slot_pending(false, Direction::West));
    assert_eq!(t.full.east.grid.as_ref().unwrap().data[0], 7);
}

#[test]
fn eastward_crossing_rotates_once() {
    // A single eastward move past the tile edge: the longitude drops by
    // one, the offset comes back by one tile width, and the active grid
    // is what was the east neighbour.
    let mut t = Terrain::new(8, 4, 55, 5);
    t.deliver_neighbor(false, Direction::East, HeightGrid::constant(8, 500_000));
    t.move_x = 8 + 3;
    t.settle();
    assert_eq!(t.long(), 4);
    assert_eq!(t.lat(), 55);
    assert_eq!(t.move_x, 3);
    assert!(t.full.active.data.iter().all(|&h| h == 500_000));
    // The rotation refreshed every neighbour slot around the new center.
    assert!(t.slot_pending(false, Direction::East));
    assert_eq!(t.slot_coord(false, Direction::East), TileCoordinate { lat: 55, long: 3 });
    assert_eq!(t.slot_coord(false, Direction::North), TileCoordinate { lat: 56, long: 4 });
}

#[test]
fn crossing_without_a_delivered_neighbour_is_deferred() {
    let mut t = Terrain::new(8, 4, 55, 5);
    t.move_x = 20;
    t.settle();
    // Nothing was delivered, so nothing rotates and nothing is lost.
    assert_eq!(t.long(), 5);
    assert_eq!(t.move_x, 20);
}

#[test]
fn repeated_eastward_moves_cross_tiles_one_by_one() {
    // Two tile widths crossed over many small moves: the longitude ends
    // two below its start and the offset within one tile's bounds.
    let mut t = Terrain::new(8, 8, 55, 5);
    let mut crossings = 0;
    while crossings < 2 {
        t.plane_move('e');
        t.deliver_neighbor(false, Direction::East, HeightGrid::constant(8, 1));
        let before = t.long();
        t.settle();
        if t.long() != before {
            crossings += 1;
        }
    }
    assert_eq!(t.long(), 3);
    assert!(0 <= t.move_x && t.move_x < 8);
}

#[test]
fn westward_crossing_increments_longitude() {
    let mut t = Terrain::new(8, 4, 55, 5);
    t.deliver_neighbor(false, Direction::West, HeightGrid::constant(8, 1));
    t.move_x = -1;
    t.settle();
    assert_eq!(t.long(), 6);
    assert_eq!(t.move_x, 7);
}

#[test]
fn northward_crossing_increments_latitude() {
    let mut t = Terrain::new(8, 4, 55, 5);
    t.deliver_neighbor(false, Direction::North, HeightGrid::constant(8, 1));
    t.move_z = -2;
    t.settle();
    assert_eq!(t.lat(), 56);
    assert_eq!(t.move_z, 6);
}

#[test]
fn diagonal_crossing_applies_both_axis_rotations() {
    let mut t = Terrain::new(8, 4, 55, 5);
    t.deliver_neighbor(false, Direction::NorthEast, HeightGrid::constant(8, 2));
    t.move_x = 9;
    t.move_z = -1;
    t.settle();
    assert_eq!(t.lat(), 56);
    assert_eq!(t.long(), 4);
    assert_eq!(t.move_x, 1);
    assert_eq!(t.move_z, 7);
    assert!(t.full.active.data.iter().all(|&h| h == 2));
}

#[test]
fn water_clamp_flattens_underwater_samples() {
    // Raw heights spanning [100, 500] and a water level of 0.1: the
    // minimum sample normalizes to 0 and is clamped to 0.09 in the
    // vertex stream.
    let side = 8;
    let mut raw = vec![500i32; side * side];
    raw[0] = 100; // sample (0, 0)
    let mut t = small_terrain(side, &raw);
    t.set_water_level(100_000);
    t.move_x = 0;
    t.move_z = 0;
    let (data, wire, vpr) = t.create_terrain_data();
    assert_eq!(vpr, 8);
    assert_eq!(data.len(), 64);
    assert_eq!(wire.len(), 64);
    // Sample (0,0) was raw 100 -> normalized 0 -> clamped.
    assert_eq!(data[0].y, (100_000 - WATER_EPSILON) as i64);
    assert_eq!(data[0].y, 90_000);
    // An above-water sample keeps its normalized height.
    assert_eq!(data[1].y, HEIGHT_SCALE as i64);
    // Positions are the chunk-local sample coordinates.
    assert_eq!((data[0].x, data[0].z), (0, 0));
    assert_eq!((data[9].x, data[9].z), (1, 1));
}

#[test]
fn regenerating_twice_without_changes_is_byte_identical() {
    let side = 8;
    let raw: Vec<i32> = (0..(side * side) as i32).collect();
    let mut t = small_terrain(side, &raw);
    t.set_water_level(100_000);
    let first = t.create_terrain_data();
    let second = t.create_terrain_data();
    assert_eq!(first.0, second.0);
    assert_eq!(first.1, second.1);
    assert_eq!(first.2, second.2);
}

#[test]
fn collection_covers_every_chunk_and_clears_dirty() {
    let side = 8;
    let raw: Vec<i32> = (0..(side * side) as i32).collect();
    let mut t = small_terrain(side, &raw);
    t.mark_dirty();
    let translations: Vec<(i64, i64)> = vec![(0, 0), (0, 3), (3, 0), (3, 3)];
    let (data, wire, vpr) = t.create_collection_of_terrain_data(2, 2, &translations);
    assert_eq!(data.len(), 4);
    assert_eq!(wire.len(), 4);
    assert_eq!(vpr, 8);
    assert!(!t.dirty);
    // The same pass twice yields identical buffers.
    let again = t.create_collection_of_terrain_data(2, 2, &translations);
    assert_eq!(data, again.0);
    assert_eq!(wire, again.1);
}

#[test]
fn create_indices_matches_the_vertex_grid() {
    let mut t = Terrain::new(8, 4, 55, 5);
    let (solid, wire) = t.create_indices(4, 4);
    assert_eq!(solid.len(), 6 * 3 * 3);
    assert!(solid.iter().all(|&i| i < 16));
    assert!(wire.iter().all(|&i| i < 16));
    assert_eq!(&solid[0..6], &[0, 1, 5, 5, 4, 0]);
}

#[test]
fn minimised_mode_samples_the_quarter_grid() {
    let side = 8;
    let mut t = Terrain::new(side, 2, 55, 5);
    // The minimised cache has side 2; give it a distinctive active grid.
    t.deliver_active(true, HeightGrid::constant(2, 777_000));
    t.toggle_minimised();
    t.move_x = 0;
    t.move_z = 0;
    let (data, _, vpr) = t.create_terrain_data();
    assert_eq!(vpr, 2);
    assert!(data.iter().all(|v| v.y == 777_000));
}

#[test]
fn minimised_offset_scales_down_by_the_resolution_factor() {
    // A camera offset of 5 full-resolution units becomes 5/4 = 1 on the
    // quarter grid.
    let mut t = Terrain::new(8, 2, 55, 5);
    let raw: Vec<i32> = vec![0, 100, 200, 400];
    t.deliver_active(true, HeightGrid::from_raw(&raw, 2));
    t.toggle_minimised();
    t.move_x = 5;
    t.move_z = 5;
    let (data, _, _) = t.create_terrain_data();
    // Sample (0, 0) lands on quarter-grid cell (1, 1).
    assert_eq!(data[0].y, HEIGHT_SCALE as i64);
}

#[test]
fn neighbour_sampling_reads_the_east_tile() {
    // With the camera pushed against the east edge, samples past the
    // active tile read the delivered east neighbour, rebased.
    let side = 8;
    let raw = vec![0i32; side * side];
    let mut t = small_terrain(side, &raw);
    t.deliver_neighbor(false, Direction::East, HeightGrid::constant(8, 333_000));
    t.move_x = 4;
    t.move_z = 0;
    let (data, _, _) = t.create_terrain_data();
    // Samples with x + 4 >= 8 fall into the east neighbour.
    let vpr = 8usize;
    for xi in 0..8usize {
        for zi in 0..8usize {
            let v = data[xi * vpr + zi];
            if xi + 4 >= 8 {
                assert_eq!(v.y, 333_000, "sample {} {}", xi, zi);
            } else {
                // The active tile is flat zero, but normalization of a
                // degenerate tile gives 0, below the default water level.
                assert_eq!(v.y, 1_000 - WATER_EPSILON as i64, "sample {} {}", xi, zi);
            }
        }
    }
}
