use terrain_stream::boundary::{classify_axis, classify_region, rebase_axis, AxisBand, Region};
use terrain_stream::chunks::{chunk_translations, local_position_of, world_position_of};
use terrain_stream::colors::{
    add_terrain_colors, color_interp, shift_thresholds, solid_palette, wire_palette, Color,
};
use terrain_stream::coords::{Direction, TileCoordinate};
use terrain_stream::mesh::{build_indices, stride_for_lod, vertices_per_row};

#[test]
fn axis_bands_full_resolution() {
    // tile 3600: far < -1800, near -1800..=-1, center 0..=3599,
    // near-positive 3600..=5400, far > 5400.
    assert_eq!(classify_axis(-1801, 3600), AxisBand::FarNegative);
    assert_eq!(classify_axis(-1800, 3600), AxisBand::NearNegative);
    assert_eq!(classify_axis(-1, 3600), AxisBand::NearNegative);
    assert_eq!(classify_axis(0, 3600), AxisBand::Center);
    assert_eq!(classify_axis(3599, 3600), AxisBand::Center);
    assert_eq!(classify_axis(3600, 3600), AxisBand::NearPositive);
    assert_eq!(classify_axis(5400, 3600), AxisBand::NearPositive);
    assert_eq!(classify_axis(5401, 3600), AxisBand::FarPositive);
}

#[test]
fn axis_bands_minimised_resolution() {
    assert_eq!(classify_axis(-451, 900), AxisBand::FarNegative);
    assert_eq!(classify_axis(-450, 900), AxisBand::NearNegative);
    assert_eq!(classify_axis(50, 900), AxisBand::Center);
    assert_eq!(classify_axis(899, 900), AxisBand::Center);
    assert_eq!(classify_axis(900, 900), AxisBand::NearPositive);
    assert_eq!(classify_axis(1350, 900), AxisBand::NearPositive);
    assert_eq!(classify_axis(1351, 900), AxisBand::FarPositive);
}

#[test]
fn all_nine_regions_are_reachable() {
    let t = 3600;
    assert_eq!(classify_region(100, 100, t), Region::Center);
    assert_eq!(classify_region(100, -5, t), Region::North);
    assert_eq!(classify_region(100, 3700, t), Region::South);
    assert_eq!(classify_region(3700, 100, t), Region::East);
    assert_eq!(classify_region(-5, 100, t), Region::West);
    assert_eq!(classify_region(3700, -5, t), Region::NorthEast);
    assert_eq!(classify_region(-5, -5, t), Region::NorthWest);
    assert_eq!(classify_region(3700, 3700, t), Region::SouthEast);
    assert_eq!(classify_region(-5, 3700, t), Region::SouthWest);
}

#[test]
fn rebasing_translates_into_the_source_frame() {
    assert_eq!(rebase_axis(AxisBand::NearPositive, 3605, 3600), 5);
    assert_eq!(rebase_axis(AxisBand::NearNegative, -5, 3600), 3595);
    assert_eq!(rebase_axis(AxisBand::Center, 17, 3600), 17);
    assert_eq!(rebase_axis(AxisBand::FarPositive, 7205, 3600), 3605);
}

#[test]
fn stride_for_each_level_of_detail() {
    // Levels 0..=5 sample every lod+1 cells; levels 6 and 7 widen.
    assert_eq!(stride_for_lod(0), 1);
    assert_eq!(stride_for_lod(1), 2);
    assert_eq!(stride_for_lod(2), 3);
    assert_eq!(stride_for_lod(3), 4);
    assert_eq!(stride_for_lod(4), 5);
    assert_eq!(stride_for_lod(5), 6);
    assert_eq!(stride_for_lod(6), 8);
    assert_eq!(stride_for_lod(7), 10);
}

#[test]
fn samples_per_row_at_extreme_levels() {
    // Full detail keeps every sample of the row; level 6 strides by
    // 2*(6-2) = 8, leaving floor((241-1)/8)+1 samples.
    assert_eq!(vertices_per_row(241, 0), 241);
    assert_eq!(stride_for_lod(6), 2 * (6 - 2));
    assert_eq!(vertices_per_row(241, 6), (241 - 1) / 8 + 1);
    assert_eq!(vertices_per_row(241, 6), 31);
}

#[test]
fn solid_indices_of_a_three_by_three_grid() {
    let (solid, _) = build_indices(3, 3);
    let expected: Vec<u32> = vec![
        0, 1, 4, 4, 3, 0, //
        1, 2, 5, 5, 4, 1, //
        3, 4, 7, 7, 6, 3, //
        4, 5, 8, 8, 7, 4,
    ];
    assert_eq!(solid, expected);
}

#[test]
fn wireframe_indices_close_the_last_column() {
    let (_, wire) = build_indices(3, 3);
    let expected: Vec<u32> = vec![
        0, 1, 0, 3, //
        1, 2, 1, 4, //
        3, 4, 3, 6, 4, 7, 7, 6, //
        4, 5, 4, 7, 5, 8, 8, 7,
    ];
    assert_eq!(wire, expected);
}

#[test]
fn indices_counts_and_bounds() {
    let (solid, wire) = build_indices(5, 4);
    assert_eq!(solid.len(), 6 * 4 * 3);
    assert!(solid.iter().all(|&i| i < 20));
    assert!(wire.iter().all(|&i| i < 20));
    // Four wire indices per cell plus four extra on the last column's cells.
    assert_eq!(wire.len(), 4 * 4 * 3 + 4 * 3);
}

#[test]
fn chunk_translations_match_the_four_by_four_layout() {
    let tr = chunk_translations(4, 4, 241);
    assert_eq!(tr.len(), 16);
    // -0.5 * 4 * 240 + i * 240 for i in 0..4
    let expected = [-480i64, -240, 0, 240];
    for i in 0..4 {
        for j in 0..4 {
            assert_eq!(tr[i * 4 + j], (expected[i], expected[j]));
        }
    }
}

#[test]
fn world_round_trip_recovers_the_local_coordinate() {
    // worldPositionOf composed with the inverse translation is the
    // identity on local sample coordinates.
    for &t in &[-480i64, -240, 0, 240] {
        for local in [0u32, 1, 7, 240] {
            let w = world_position_of(t, local);
            assert_eq!(local_position_of(w, t), local as i64);
        }
    }
}

#[test]
fn tile_file_names_follow_the_convention() {
    let name = terrain_stream::coords::tile_file_name(TileCoordinate { lat: 55, long: 5 });
    assert_eq!(String::from_utf8(name).unwrap(), "N55W005.hgt");
    let name = terrain_stream::coords::tile_file_name(TileCoordinate { lat: 0, long: 0 });
    assert_eq!(String::from_utf8(name).unwrap(), "N0W000.hgt");
    let name = terrain_stream::coords::tile_file_name(TileCoordinate { lat: 7, long: 123 });
    assert_eq!(String::from_utf8(name).unwrap(), "N7W00123.hgt");
}

#[test]
fn neighbor_coordinates_follow_the_compass() {
    let c = TileCoordinate { lat: 55, long: 5 };
    assert_eq!(c.neighbor(Direction::North), TileCoordinate { lat: 56, long: 5 });
    assert_eq!(c.neighbor(Direction::South), TileCoordinate { lat: 54, long: 5 });
    assert_eq!(c.neighbor(Direction::East), TileCoordinate { lat: 55, long: 4 });
    assert_eq!(c.neighbor(Direction::West), TileCoordinate { lat: 55, long: 6 });
    assert_eq!(c.neighbor(Direction::NorthEast), TileCoordinate { lat: 56, long: 4 });
    assert_eq!(c.neighbor(Direction::NorthWest), TileCoordinate { lat: 56, long: 6 });
    assert_eq!(c.neighbor(Direction::SouthEast), TileCoordinate { lat: 54, long: 4 });
    assert_eq!(c.neighbor(Direction::SouthWest), TileCoordinate { lat: 54, long: 6 });
}

#[test]
fn shifted_thresholds_for_water_at_a_tenth() {
    let t1 = shift_thresholds(100_000);
    assert_eq!(t1[0], 0);
    assert_eq!(t1[1], 100_000);
    assert_eq!(t1[2], 164_285);
    assert_eq!(t1[3], 614_285);
    assert_eq!(t1[4], 871_427);
    // The top threshold is pinned at full scale: the floor-division
    // rounding is absorbed into the last band.
    assert_eq!(t1[5], 1_000_000);
    for i in 0..5 {
        assert!(t1[i] <= t1[i + 1]);
    }
}

#[test]
fn ramp_picks_the_band_of_the_height() {
    let palette = solid_palette();
    let t1 = shift_thresholds(100_000);
    assert_eq!(color_interp(&palette, &t1, 50_000), palette[0]);
    assert_eq!(color_interp(&palette, &t1, 150_000), palette[1]);
    assert_eq!(color_interp(&palette, &t1, 500_000), palette[2]);
    assert_eq!(color_interp(&palette, &t1, 700_000), palette[3]);
    assert_eq!(color_interp(&palette, &t1, 900_000), palette[4]);
    assert_eq!(color_interp(&palette, &t1, 999_999), palette[4]);
    // A maximal sample sits exactly on the pinned top threshold and still
    // lands in the last band.
    assert_eq!(color_interp(&palette, &t1, 1_000_000), palette[4]);
    // Outside the ramp: black.
    assert_eq!(color_interp(&palette, &t1, 1_000_001), Color { r: 0, g: 0, b: 0 });
}

#[test]
fn a_maximal_sample_is_colored_snow() {
    // Every non-degenerate tile's highest sample normalizes to exactly
    // full scale; it must land in the last ramp band at any water level.
    let palette = solid_palette();
    for w in [0u32, 1_000, 100_000, 999_999] {
        assert_eq!(
            add_terrain_colors(&palette, w, terrain_stream::HEIGHT_SCALE as i64),
            palette[4],
            "water level {}",
            w
        );
    }
}

#[test]
fn terrain_color_clamps_out_of_range_heights() {
    let palette = solid_palette();
    // Negative heights clamp to zero, which sits in the water band.
    assert_eq!(add_terrain_colors(&palette, 100_000, -9_000), palette[0]);
    // The wireframe palette is white everywhere.
    let wpal = wire_palette();
    assert_eq!(
        add_terrain_colors(&wpal, 100_000, 500_000),
        Color { r: 1000, g: 1000, b: 1000 }
    );
}
