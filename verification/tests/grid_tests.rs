use terrain_stream::grid::{decode_hgt, decode_sample, HeightGrid};
use terrain_stream::HEIGHT_SCALE;

fn payload(ext: usize, f: impl Fn(usize, usize) -> i16) -> Vec<u8> {
    let mut bytes = Vec::new();
    for z in 0..ext {
        for x in 0..ext {
            let v = f(x, z);
            let b = v.to_be_bytes();
            bytes.push(b[0]);
            bytes.push(b[1]);
        }
    }
    bytes
}

#[test]
fn decode_sample_positive() {
    assert_eq!(decode_sample(0x01, 0x00), 256);
    assert_eq!(decode_sample(0x00, 0x2A), 42);
    assert_eq!(decode_sample(0x7F, 0xFF), 32767);
}

#[test]
fn decode_sample_negative() {
    assert_eq!(decode_sample(0xFF, 0xFF), -1);
    assert_eq!(decode_sample(0x80, 0x00), -32768);
    assert_eq!(decode_sample(0xFF, 0x00), -256);
}

#[test]
fn decode_hgt_crops_and_orders() {
    // A 3x3 payload, cropped to its top-left 2x2 corner.
    let bytes = payload(3, |x, z| (10 * x + z) as i16);
    let raw = decode_hgt(&bytes, 3, 2);
    assert_eq!(raw.len(), 4);
    // raw[x * side + z] holds the sample at (x, z)
    assert_eq!(raw[0], 0); // (0,0)
    assert_eq!(raw[1], 1); // (0,1)
    assert_eq!(raw[2], 10); // (1,0)
    assert_eq!(raw[3], 11); // (1,1)
}

#[test]
fn normalization_uses_whole_tile_range() {
    // Raw heights 100..=500: min 100, max 500.
    let raw: Vec<i32> = vec![100, 300, 500, 100];
    let g = HeightGrid::from_raw(&raw, 2);
    assert_eq!(g.side, 2);
    assert_eq!(g.data[0], 0);
    assert_eq!(g.data[1], 500_000); // (300-100)*1e6/400
    assert_eq!(g.data[2], HEIGHT_SCALE);
    assert_eq!(g.data[3], 0);
}

#[test]
fn normalization_bounds_hold() {
    let raw: Vec<i32> = vec![-32768, 32767, 0, -1, 1, 17, -17, 9999, -9999];
    let g = HeightGrid::from_raw(&raw, 3);
    for &h in g.data.iter() {
        assert!(h <= HEIGHT_SCALE);
    }
    assert_eq!(g.data[0], 0);
    assert_eq!(g.data[1], HEIGHT_SCALE);
}

#[test]
fn degenerate_tile_normalizes_to_zero() {
    // All samples equal: min == max must yield a constant zero grid.
    let raw: Vec<i32> = vec![250; 9];
    let g = HeightGrid::from_raw(&raw, 3);
    assert!(g.data.iter().all(|&h| h == 0));
}

#[test]
fn from_hgt_composes_decode_and_normalize() {
    let bytes = payload(2, |x, z| if x == 0 && z == 0 { 100 } else { 500 });
    let g = HeightGrid::from_hgt(&bytes, 2, 2);
    assert_eq!(g.side, 2);
    assert_eq!(g.data[0], 0);
    assert_eq!(g.data[1], HEIGHT_SCALE);
    assert_eq!(g.data[2], HEIGHT_SCALE);
    assert_eq!(g.data[3], HEIGHT_SCALE);
}

#[test]
fn constant_grid() {
    let g = HeightGrid::constant(4, 123);
    assert_eq!(g.side, 4);
    assert_eq!(g.data.len(), 16);
    assert!(g.data.iter().all(|&h| h == 123));
}

#[test]
fn grid_get_reads_x_major() {
    let raw: Vec<i32> = vec![0, 100, 200, 400];
    let g = HeightGrid::from_raw(&raw, 2);
    assert_eq!(g.get(0, 0), 0);
    assert_eq!(g.get(0, 1), 250_000);
    assert_eq!(g.get(1, 0), 500_000);
    assert_eq!(g.get(1, 1), HEIGHT_SCALE);
}
