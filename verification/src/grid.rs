//! Elevation tiles: decoding the raw `.hgt` payload and normalizing it
//! into a dense fixed-point height grid.
//!
//! An `.hgt` file holds `ext * ext` big-endian signed 16-bit samples,
//! row-major with the x coordinate varying fastest. The loader decodes the
//! payload, crops it to the `side * side` region the renderer uses, and
//! normalizes every sample to `[0, HEIGHT_SCALE]` using the tile's own
//! minimum and maximum, so downstream consumers never see a raw elevation.

use vstd::prelude::*;

verus! {

use vstd::arithmetic::div_mod::{
    lemma_div_is_ordered, lemma_div_multiples_vanish, lemma_fundamental_div_mod,
    lemma_mod_division_less_than_divisor,
};
use vstd::arithmetic::mul::lemma_mul_inequality;
use crate::HEIGHT_SCALE;

/// The value of a big-endian signed 16-bit sample with bytes `hi`, `lo`.
pub open spec fn be_i16(hi: u8, lo: u8) -> int {
    if hi < 128 {
        hi * 256 + lo
    } else {
        hi * 256 + lo - 65536
    }
}

/// The elevation sample at `(x, z)` of an `.hgt` payload of extent `ext`,
/// stored row-major with x varying fastest.
pub open spec fn hgt_sample(bytes: Seq<u8>, ext: int, x: int, z: int) -> int {
    be_i16(bytes[2 * (z * ext + x)], bytes[2 * (z * ext + x) + 1])
}

/// Decodes one big-endian signed 16-bit sample.
pub fn decode_sample(hi: u8, lo: u8) -> (v: i32)
    ensures
        v == be_i16(hi, lo),
        -32768 <= v <= 32767,
{
    let u: i32 = (hi as i32) * 256 + (lo as i32);
    if u >= 32768 {
        u - 65536
    } else {
        u
    }
}

/// Crops and decodes the top-left `side * side` corner of an `.hgt`
/// payload of extent `ext` into a raw elevation grid, stored with
/// the sample at `(x, z)` at index `x * side + z`.
pub fn decode_hgt(bytes: &Vec<u8>, ext: usize, side: usize) -> (raw: Vec<i32>)
    requires
        1 <= side <= ext,
        ext <= 4000,
        bytes.len() == 2 * ext * ext,
    ensures
        raw.len() == side * side,
        forall|x: int, z: int|
            0 <= x < side && 0 <= z < side ==> raw[x * side + z] == hgt_sample(
                bytes@,
                ext as int,
                x,
                z,
            ),
        forall|k: int| 0 <= k < raw.len() ==> -32768 <= #[trigger] raw[k] <= 32767,
{
    let mut raw: Vec<i32> = Vec::new();
    let mut x: usize = 0;
    while x < side
        invariant
            x <= side,
            1 <= side <= ext <= 4000,
            bytes.len() == 2 * ext * ext,
            raw.len() == x * side,
            forall|xi: int, zi: int|
                0 <= xi < x && 0 <= zi < side ==> raw[xi * side + zi] == hgt_sample(
                    bytes@,
                    ext as int,
                    xi,
                    zi,
                ),
            forall|k: int| 0 <= k < raw.len() ==> -32768 <= #[trigger] raw[k] <= 32767,
        decreases side - x,
    {
        let mut z: usize = 0;
        while z < side
            invariant
                x < side,
                z <= side,
                1 <= side <= ext <= 4000,
                bytes.len() == 2 * ext * ext,
                raw.len() == x * side + z,
                forall|xi: int, zi: int|
                    0 <= xi < x && 0 <= zi < side ==> raw[xi * side + zi] == hgt_sample(
                        bytes@,
                        ext as int,
                        xi,
                        zi,
                    ),
                forall|zi: int|
                    0 <= zi < z ==> raw[x * side + zi] == hgt_sample(bytes@, ext as int, x as int, zi),
                forall|k: int| 0 <= k < raw.len() ==> -32768 <= #[trigger] raw[k] <= 32767,
            decreases side - z,
        {
            proof {
                assert(z * ext + x < ext * ext && ext * ext <= 16_000_000 && 2 * (z * ext + x) + 1
                    < 2 * ext * ext) by (nonlinear_arith)
                    requires
                        0 <= x < side,
                        0 <= z < side,
                        side <= ext <= 4000,
                ;
            }
            let idx: usize = 2 * (z * ext + x);
            let v = decode_sample(bytes[idx], bytes[idx + 1]);
            raw.push(v);
            proof {
                assert forall|xi: int, zi: int|
                    0 <= xi < x && 0 <= zi < side implies #[trigger] (xi * side + zi) < x
                    * side by {
                    assert(xi * side + zi < x * side) by (nonlinear_arith)
                        requires
                            0 <= xi < x,
                            0 <= zi < side,
                    ;
                }
            }
            z = z + 1;
        }
        proof {
            assert((x + 1) * side == x * side + side) by (nonlinear_arith);
        }
        x = x + 1;
    }
    raw
}

/// The least element of a non-empty sequence of raw samples.
pub open spec fn seq_min(s: Seq<i32>) -> int
    decreases s.len(),
{
    if s.len() <= 1 {
        s[0] as int
    } else if s.last() < seq_min(s.drop_last()) {
        s.last() as int
    } else {
        seq_min(s.drop_last())
    }
}

/// The greatest element of a non-empty sequence of raw samples.
pub open spec fn seq_max(s: Seq<i32>) -> int
    decreases s.len(),
{
    if s.len() <= 1 {
        s[0] as int
    } else if s.last() > seq_max(s.drop_last()) {
        s.last() as int
    } else {
        seq_max(s.drop_last())
    }
}

/// The normalized fixed-point height of a raw sample `v` within the raw
/// range `[lo, hi]`: `(v - lo) * HEIGHT_SCALE / (hi - lo)`, or 0 for a
/// degenerate tile whose samples are all equal.
pub open spec fn normalized(v: int, lo: int, hi: int) -> int {
    if hi <= lo {
        0
    } else {
        (v - lo) * HEIGHT_SCALE / (hi - lo)
    }
}

/// Every normalized height lies in `[0, HEIGHT_SCALE]`, and a degenerate
/// range normalizes to exactly 0.
pub proof fn lemma_normalized_in_range(v: int, lo: int, hi: int)
    requires
        lo <= v <= hi,
    ensures
        0 <= normalized(v, lo, hi) <= HEIGHT_SCALE,
        lo == hi ==> normalized(v, lo, hi) == 0,
{
    if hi > lo {
        let d = hi - lo;
        let a = v - lo;
        assert(a * HEIGHT_SCALE >= 0) by (nonlinear_arith)
            requires
                a >= 0,
        ;
        assert(0 <= a * HEIGHT_SCALE / d) by {
            lemma_div_is_ordered(0, a * HEIGHT_SCALE, d);
        }
        lemma_mul_inequality(a, d, HEIGHT_SCALE as int);
        lemma_div_is_ordered(a * HEIGHT_SCALE, d * HEIGHT_SCALE, d);
        lemma_div_multiples_vanish(HEIGHT_SCALE as int, d);
        assert(d * HEIGHT_SCALE == HEIGHT_SCALE * d) by (nonlinear_arith);
    }
}

/// A dense square grid of normalized fixed-point heights.
///
/// `data[x * side + z]` holds the sample at `(x, z)`; every sample lies in
/// `[0, HEIGHT_SCALE]`.
pub struct HeightGrid {
    pub side: usize,
    pub data: Vec<u32>,
}

impl HeightGrid {
    /// Well-formedness: a square grid of in-range samples.
    pub open spec fn wf(&self) -> bool {
        &&& 1 <= self.side <= 4000
        &&& self.data.len() == self.side * self.side
        &&& forall|k: int| 0 <= k < self.data.len() ==> self.data[k] <= HEIGHT_SCALE
    }

    /// The sample at `(x, z)`.
    pub open spec fn at(&self, x: int, z: int) -> int {
        self.data[x * self.side + z] as int
    }

    /// Reads the sample at `(x, z)`.
    pub fn get(&self, x: usize, z: usize) -> (h: u32)
        requires
            self.wf(),
            x < self.side,
            z < self.side,
        ensures
            h == self.at(x as int, z as int),
            h <= HEIGHT_SCALE,
    {
        proof {
            assert(x * self.side + z < self.side * self.side) by (nonlinear_arith)
                requires
                    0 <= x < self.side,
                    0 <= z < self.side,
            ;
        }
        self.data[x * self.side + z]
    }

    /// A grid whose samples are all `value`.
    pub fn constant(side: usize, value: u32) -> (g: HeightGrid)
        requires
            1 <= side <= 4000,
            value <= HEIGHT_SCALE,
        ensures
            g.wf(),
            g.side == side,
            forall|k: int| 0 <= k < g.data.len() ==> g.data[k] == value,
    {
        proof {
            assert(1 <= side * side <= 16_000_000) by (nonlinear_arith)
                requires
                    1 <= side <= 4000,
            ;
        }
        let mut data: Vec<u32> = Vec::new();
        let n: usize = side * side;
        let mut k: usize = 0;
        while k < n
            invariant
                k <= n,
                data.len() == k,
                value <= HEIGHT_SCALE,
                forall|i: int| 0 <= i < k ==> data[i] == value,
            decreases n - k,
        {
            data.push(value);
            k = k + 1;
        }
        HeightGrid { side, data }
    }

    /// Normalizes a raw elevation grid to `[0, HEIGHT_SCALE]` using the
    /// tile's own minimum and maximum, computed over the whole tile. A
    /// degenerate tile (all samples equal) yields an all-zero grid.
    pub fn from_raw(raw: &Vec<i32>, side: usize) -> (g: HeightGrid)
        requires
            1 <= side <= 4000,
            raw.len() == side * side,
            forall|k: int| 0 <= k < raw.len() ==> -32768 <= #[trigger] raw[k] <= 32767,
        ensures
            g.wf(),
            g.side == side,
            forall|k: int|
                0 <= k < raw.len() ==> g.data[k] == normalized(
                    raw[k] as int,
                    seq_min(raw@),
                    seq_max(raw@),
                ),
    {
        proof {
            assert(1 <= side * side <= 16_000_000) by (nonlinear_arith)
                requires
                    1 <= side <= 4000,
            ;
        }
        let n: usize = raw.len();
        let mut lo: i32 = raw[0];
        let mut hi: i32 = raw[0];
        let mut k: usize = 1;
        proof {
            assert(raw@.take(1).len() == 1);
            assert(raw@.take(1)[0] == raw[0]);
            assert(lo == seq_min(raw@.take(1)));
            assert(hi == seq_max(raw@.take(1)));
        }
        while k < n
            invariant
                1 <= k <= n,
                n == raw.len(),
                lo == seq_min(raw@.take(k as int)),
                hi == seq_max(raw@.take(k as int)),
                forall|i: int| 0 <= i < raw.len() ==> -32768 <= #[trigger] raw[i] <= 32767,
                -32768 <= lo <= 32767,
                -32768 <= hi <= 32767,
            decreases n - k,
        {
            let v = raw[k];
            proof {
                assert(raw@.take(k + 1).drop_last() =~= raw@.take(k as int));
                assert(raw@.take(k + 1).last() == raw[k as int]);
            }
            if v < lo {
                lo = v;
            }
            if v > hi {
                hi = v;
            }
            k = k + 1;
        }
        proof {
            assert(raw@.take(n as int) =~= raw@);
        }
        let mut data: Vec<u32> = Vec::new();
        let mut k: usize = 0;
        while k < n
            invariant
                k <= n,
                n == raw.len(),
                data.len() == k,
                lo == seq_min(raw@),
                hi == seq_max(raw@),
                forall|i: int| 0 <= i < raw.len() ==> -32768 <= #[trigger] raw[i] <= 32767,
                -32768 <= lo <= 32767,
                -32768 <= hi <= 32767,
                forall|i: int|
                    0 <= i < k ==> data[i] == normalized(raw[i] as int, lo as int, hi as int),
                forall|i: int| 0 <= i < k ==> data[i] <= HEIGHT_SCALE,
            decreases n - k,
        {
            let v = raw[k];
            proof {
                lemma_seq_min_le(raw@, k as int);
                lemma_seq_max_ge(raw@, k as int);
                lemma_normalized_in_range(v as int, lo as int, hi as int);
            }
            let h: u32 = if hi <= lo {
                0
            } else {
                let num: u64 = ((v as i64 - lo as i64) as u64) * (HEIGHT_SCALE as u64);
                let den: u64 = (hi as i64 - lo as i64) as u64;
                (num / den) as u32
            };
            data.push(h);
            k = k + 1;
        }
        HeightGrid { side, data }
    }
}

/// The decoded raw samples of an `.hgt` payload, cropped to `side * side`
/// and flattened with the sample at `(x, z)` at index `x * side + z`.
pub open spec fn raw_seq(bytes: Seq<u8>, ext: int, side: int) -> Seq<i32> {
    Seq::new((side * side) as nat, |k: int| hgt_sample(bytes, ext, k / side, k % side) as i32)
}

impl HeightGrid {
    /// Decodes and normalizes one `.hgt` payload: the tile loader's whole
    /// computation. Every sample of the result is the raw sample
    /// normalized to `[0, HEIGHT_SCALE]` by the tile's own raw minimum
    /// and maximum.
    pub fn from_hgt(bytes: &Vec<u8>, ext: usize, side: usize) -> (g: HeightGrid)
        requires
            1 <= side <= ext,
            ext <= 4000,
            bytes.len() == 2 * ext * ext,
        ensures
            g.wf(),
            g.side == side,
            forall|k: int|
                0 <= k < side * side ==> g.data[k] == normalized(
                    raw_seq(bytes@, ext as int, side as int)[k] as int,
                    seq_min(raw_seq(bytes@, ext as int, side as int)),
                    seq_max(raw_seq(bytes@, ext as int, side as int)),
                ),
    {
        let raw = decode_hgt(bytes, ext, side);
        proof {
            let rs = raw_seq(bytes@, ext as int, side as int);
            assert forall|k: int| 0 <= k < raw.len() implies raw[k] == rs[k] by {
                let x = k / (side as int);
                let z = k % (side as int);
                lemma_fundamental_div_mod(k, side as int);
                lemma_mod_division_less_than_divisor(k, side as int);
                assert(side as int * x == x * (side as int)) by (nonlinear_arith);
                assert(x < side) by (nonlinear_arith)
                    requires
                        k < side * side,
                        k == (side as int) * x + z,
                        0 <= z < side,
                        side >= 1,
                ;
                assert(raw[x * (side as int) + z] == hgt_sample(bytes@, ext as int, x, z));
            }
            assert(raw@ =~= rs);
        }
        HeightGrid::from_raw(&raw, side)
    }
}

/// `seq_min` is a lower bound for every element.
pub proof fn lemma_seq_min_le(s: Seq<i32>, i: int)
    requires
        0 <= i < s.len(),
    ensures
        seq_min(s) <= s[i],
    decreases s.len(),
{
    if s.len() > 1 {
        if i < s.len() - 1 {
            lemma_seq_min_le(s.drop_last(), i);
        }
    }
}

/// `seq_max` is an upper bound for every element.
pub proof fn lemma_seq_max_ge(s: Seq<i32>, i: int)
    requires
        0 <= i < s.len(),
    ensures
        seq_max(s) >= s[i],
    decreases s.len(),
{
    if s.len() > 1 {
        if i < s.len() - 1 {
            lemma_seq_max_ge(s.drop_last(), i);
        }
    }
}

} // verus!
