//! Height-to-color mapping: a piecewise-constant ramp whose thresholds are
//! shifted so that the first band ends exactly at the water level.
//!
//! All values are fixed point: heights and thresholds are scaled by
//! `HEIGHT_SCALE`, color channels by `COLOR_SCALE`.

use vstd::prelude::*;

verus! {

use vstd::arithmetic::div_mod::{
    lemma_div_is_ordered, lemma_div_multiples_vanish, lemma_fundamental_div_mod,
    lemma_mod_division_less_than_divisor,
};
use vstd::arithmetic::mul::lemma_mul_inequality;
use crate::HEIGHT_SCALE;

/// A fixed-point RGB color; `COLOR_SCALE` stands for a channel value of 1.
#[derive(Clone, Copy, Debug, PartialEq, Eq, Structural)]
pub struct Color {
    pub r: u32,
    pub g: u32,
    pub b: u32,
}

/// The unshifted ramp thresholds, in `HEIGHT_SCALE` units:
/// 0, 0.3, 0.35, 0.7, 0.9, 1.
pub open spec fn base_threshold(i: int) -> int {
    if i == 0 {
        0
    } else if i == 1 {
        300_000
    } else if i == 2 {
        350_000
    } else if i == 3 {
        700_000
    } else if i == 4 {
        900_000
    } else {
        1_000_000
    }
}

/// Builds the unshifted ramp thresholds.
pub fn base_thresholds() -> (ta: Vec<u32>)
    ensures
        ta.len() == 6,
        forall|i: int| 0 <= i < 6 ==> ta[i] == base_threshold(i),
{
    let mut ta: Vec<u32> = Vec::new();
    ta.push(0);
    ta.push(300_000);
    ta.push(350_000);
    ta.push(700_000);
    ta.push(900_000);
    ta.push(1_000_000);
    ta
}

/// The `i`-th threshold of the ramp shifted for water level `w`: the first
/// band ends at `w`, the middle bands are rescaled by
/// `(1 - w) / (1 - base_threshold(1))`, and the last threshold is pinned
/// at full scale — the rounding lost to the floor divisions is absorbed
/// into the top band, so the ramp still spans the full height range and a
/// maximal sample always lands in the last band.
pub open spec fn shifted_threshold(w: int, i: int) -> int
    decreases i,
{
    if i <= 0 {
        0
    } else if i == 1 {
        w
    } else if i >= 5 {
        HEIGHT_SCALE as int
    } else {
        shifted_threshold(w, i - 1) + (HEIGHT_SCALE - w) * (base_threshold(i) - base_threshold(
            i - 1,
        )) / (HEIGHT_SCALE - base_threshold(1))
    }
}

/// A product scaled down by a larger divisor does not exceed the first
/// factor.
proof fn lemma_mul_div_le(a: int, d: int, b: int)
    requires
        0 <= a,
        0 <= d <= b,
        0 < b,
    ensures
        0 <= a * d / b <= a,
{
    assert(a * d >= 0) by (nonlinear_arith)
        requires
            a >= 0,
            d >= 0,
    ;
    lemma_div_is_ordered(0, a * d, b);
    lemma_mul_inequality(d, b, a);
    assert(d * a == a * d && b * a == a * b) by (nonlinear_arith);
    lemma_div_is_ordered(a * d, a * b, b);
    lemma_div_multiples_vanish(a, b);
    assert(b * a == a * b) by (nonlinear_arith);
}

/// Every shifted threshold lies in `[0, HEIGHT_SCALE]`, the sequence is
/// non-decreasing in `i`, and each middle threshold stays below the
/// exactly rescaled ramp (the inequality is stated cross-multiplied to
/// avoid division).
pub proof fn lemma_shifted_threshold_bounds(w: int, i: int)
    requires
        0 <= w <= HEIGHT_SCALE,
        0 <= i <= 5,
    ensures
        0 <= shifted_threshold(w, i) <= HEIGHT_SCALE,
        i >= 1 ==> shifted_threshold(w, i - 1) <= shifted_threshold(w, i),
        1 <= i <= 4 ==> (shifted_threshold(w, i) - w) * (HEIGHT_SCALE - base_threshold(1)) <= (
        HEIGHT_SCALE - w) * (base_threshold(i) - base_threshold(1)),
    decreases i,
{
    let a = HEIGHT_SCALE - w;
    let b = HEIGHT_SCALE - base_threshold(1);
    if i == 1 {
        lemma_shifted_threshold_bounds(w, 0);
        assert((w - w) * b == 0) by (nonlinear_arith);
    } else if 2 <= i <= 4 {
        lemma_shifted_threshold_bounds(w, i - 1);
        let d = base_threshold(i) - base_threshold(i - 1);
        let q = a * d / b;
        lemma_mul_div_le(a, d, b);
        lemma_fundamental_div_mod(a * d, b);
        lemma_mod_division_less_than_divisor(a * d, b);
        assert(q * b <= a * d) by (nonlinear_arith)
            requires
                a * d == b * q + (a * d) % b,
                0 <= (a * d) % b,
        ;
        let t_prev = shifted_threshold(w, i - 1);
        let t = shifted_threshold(w, i);
        assert(t == t_prev + q);
        assert((t - w) * b == (t_prev - w) * b + q * b) by (nonlinear_arith)
            requires
                t == t_prev + q,
        ;
        assert(a * (base_threshold(i - 1) - base_threshold(1)) + a * d == a * (base_threshold(i)
            - base_threshold(1))) by (nonlinear_arith)
            requires
                d == base_threshold(i) - base_threshold(i - 1),
        ;
        assert((t - w) * b <= a * (base_threshold(i) - base_threshold(1)));
        assert(a * (base_threshold(i) - base_threshold(1)) <= a * b) by (nonlinear_arith)
            requires
                0 <= a,
                base_threshold(i) - base_threshold(1) <= b,
        ;
        assert(t - w <= a) by (nonlinear_arith)
            requires
                (t - w) * b <= a * b,
                b > 0,
        ;
    } else if i == 5 {
        lemma_shifted_threshold_bounds(w, 4);
    }
}

/// Shifts the ramp thresholds for water level `w`.
pub fn shift_thresholds(w: u32) -> (t1: Vec<u32>)
    requires
        w <= HEIGHT_SCALE,
    ensures
        t1.len() == 6,
        forall|i: int| 0 <= i < 6 ==> t1[i] == shifted_threshold(w as int, i),
{
    let mut t1: Vec<u32> = Vec::new();
    t1.push(0);
    t1.push(w);
    let mut i: usize = 1;
    while i < 4
        invariant
            1 <= i <= 4,
            t1.len() == i + 1,
            w <= HEIGHT_SCALE,
            forall|j: int| 0 <= j <= i ==> t1[j] == shifted_threshold(w as int, j),
        decreases 4 - i,
    {
        let prev: u32 = t1[i];
        let d: u32 = base_delta(i);
        proof {
            lemma_shifted_threshold_bounds(w as int, i as int);
            lemma_shifted_threshold_bounds(w as int, i + 1);
            lemma_mul_div_le(
                HEIGHT_SCALE - w,
                base_threshold(i + 1) - base_threshold(i as int),
                HEIGHT_SCALE - base_threshold(1),
            );
        }
        let num: u64 = ((HEIGHT_SCALE - w) as u64) * (d as u64);
        let den: u64 = (HEIGHT_SCALE - 300_000) as u64;
        let next: u32 = prev + (num / den) as u32;
        t1.push(next);
        i = i + 1;
    }
    t1.push(HEIGHT_SCALE);
    t1
}

/// The width of band `i` of the unshifted ramp.
fn base_delta(i: usize) -> (d: u32)
    requires
        1 <= i <= 3,
    ensures
        d == base_threshold(i + 1) - base_threshold(i as int),
{
    if i == 1 {
        50_000
    } else if i == 2 {
        350_000
    } else {
        200_000
    }
}

/// The ramp color for height `t` against thresholds `t1`: the color of the
/// highest band `[t1[i], t1[i+1])` containing `t`, the last band's color
/// when `t` sits exactly on the last threshold, and black when `t` falls
/// outside the ramp altogether.
pub open spec fn color_of(palette: Seq<Color>, t1: Seq<int>, t: int) -> Color {
    if t == t1[5] {
        palette[4]
    } else if t1[4] <= t && t < t1[5] {
        palette[4]
    } else if t1[3] <= t && t < t1[4] {
        palette[3]
    } else if t1[2] <= t && t < t1[3] {
        palette[2]
    } else if t1[1] <= t && t < t1[2] {
        palette[1]
    } else if t1[0] <= t && t < t1[1] {
        palette[0]
    } else {
        Color { r: 0, g: 0, b: 0 }
    }
}

/// The shifted thresholds for water level `w`, as a sequence.
pub open spec fn shifted_seq(w: int) -> Seq<int> {
    Seq::new(6, |i: int| shifted_threshold(w, i))
}

/// The final color of a sample of height `t` under water level `w`: the
/// height is clamped into `[0, HEIGHT_SCALE]` and looked up in the ramp
/// shifted for `w`.
pub open spec fn terrain_color(palette: Seq<Color>, w: int, t: int) -> Color {
    let tt = if t < 0 {
        0
    } else if t > HEIGHT_SCALE {
        HEIGHT_SCALE as int
    } else {
        t
    };
    color_of(palette, shifted_seq(w), tt)
}

/// Looks up the ramp color for a (possibly out-of-range) height `t`.
pub fn color_interp(palette: &Vec<Color>, t1: &Vec<u32>, t: i64) -> (c: Color)
    requires
        palette.len() == 5,
        t1.len() == 6,
    ensures
        c == color_of(palette@, t1@.map_values(|v: u32| v as int), t as int),
{
    let ghost t1s = t1@.map_values(|v: u32| v as int);
    proof {
        assert(t1s[0] == t1[0] && t1s[1] == t1[1] && t1s[2] == t1[2] && t1s[3] == t1[3] && t1s[4]
            == t1[4] && t1s[5] == t1[5]);
    }
    if t == t1[5] as i64 {
        palette[4]
    } else if t1[4] as i64 <= t && t < t1[5] as i64 {
        palette[4]
    } else if t1[3] as i64 <= t && t < t1[4] as i64 {
        palette[3]
    } else if t1[2] as i64 <= t && t < t1[3] as i64 {
        palette[2]
    } else if t1[1] as i64 <= t && t < t1[2] as i64 {
        palette[1]
    } else if t1[0] as i64 <= t && t < t1[1] as i64 {
        palette[0]
    } else {
        Color { r: 0, g: 0, b: 0 }
    }
}

/// Computes the final color of a sample of height `t` under water level
/// `w`.
pub fn add_terrain_colors(palette: &Vec<Color>, w: u32, t: i64) -> (c: Color)
    requires
        palette.len() == 5,
        w <= HEIGHT_SCALE,
    ensures
        c == terrain_color(palette@, w as int, t as int),
{
    let tt: i64 = if t < 0 {
        0
    } else if t > HEIGHT_SCALE as i64 {
        HEIGHT_SCALE as i64
    } else {
        t
    };
    let t1 = shift_thresholds(w);
    proof {
        assert(t1@.map_values(|v: u32| v as int) =~= shifted_seq(w as int));
    }
    color_interp(palette, &t1, tt)
}

/// The solid-surface palette, in band order: water, sand, grass, rock,
/// snow.
pub open spec fn solid_palette_spec() -> Seq<Color> {
    seq![
        Color { r: 55, g: 529, b: 800 },
        Color { r: 761, g: 698, b: 502 },
        Color { r: 204, g: 549, b: 192 },
        Color { r: 353, g: 302, b: 255 },
        Color { r: 1000, g: 980, b: 980 },
    ]
}

/// Builds the solid-surface palette.
pub fn solid_palette() -> (p: Vec<Color>)
    ensures
        p@ =~= solid_palette_spec(),
        p.len() == 5,
{
    let mut p: Vec<Color> = Vec::new();
    p.push(Color { r: 55, g: 529, b: 800 });
    p.push(Color { r: 761, g: 698, b: 502 });
    p.push(Color { r: 204, g: 549, b: 192 });
    p.push(Color { r: 353, g: 302, b: 255 });
    p.push(Color { r: 1000, g: 980, b: 980 });
    p
}

/// The wireframe palette: white in every band.
pub open spec fn wire_palette_spec() -> Seq<Color> {
    Seq::new(5, |i: int| Color { r: 1000, g: 1000, b: 1000 })
}

/// Builds the wireframe palette.
pub fn wire_palette() -> (p: Vec<Color>)
    ensures
        p@ =~= wire_palette_spec(),
        p.len() == 5,
{
    let mut p: Vec<Color> = Vec::new();
    p.push(Color { r: 1000, g: 1000, b: 1000 });
    p.push(Color { r: 1000, g: 1000, b: 1000 });
    p.push(Color { r: 1000, g: 1000, b: 1000 });
    p.push(Color { r: 1000, g: 1000, b: 1000 });
    p.push(Color { r: 1000, g: 1000, b: 1000 });
    p
}

} // verus!
