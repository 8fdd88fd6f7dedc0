//! Mesh geometry helpers: the level-of-detail stride and the two index
//! schemes.
//!
//! For a `width * height` sample grid the solid scheme emits two
//! clockwise triangles per unit cell (six indices `idx0, idx1, idx2,
//! idx2, idx3, idx0`), and the wireframe scheme a reduced four-index line
//! list per cell, plus the four extra segments that close the last column
//! of cells.

use vstd::prelude::*;

verus! {

use vstd::arithmetic::div_mod::{
    lemma_div_is_ordered_by_denominator, lemma_fundamental_div_mod_converse,
};

/// The sampling stride for a level of detail: levels 0 to 5 sample every
/// `lod + 1` cells, levels above widen to `2 * (lod - 2)`.
pub open spec fn stride_of(lod: int) -> int {
    if lod <= 5 {
        lod + 1
    } else {
        2 * (lod - 2)
    }
}

/// Computes the sampling stride of a level of detail.
pub fn stride_for_lod(lod: u32) -> (s: u32)
    requires
        lod <= 7,
    ensures
        s == stride_of(lod as int),
        1 <= s <= 10,
{
    if lod <= 5 {
        lod + 1
    } else {
        2 * (lod - 2)
    }
}

/// The stride is monotone non-decreasing in the level of detail over the
/// valid range 0 to 7.
pub proof fn lemma_stride_monotonic(a: int, b: int)
    requires
        0 <= a <= b <= 7,
    ensures
        1 <= stride_of(a) <= stride_of(b),
{
}

/// The number of samples per row of a chunk of side `chunksize` at level
/// of detail `lod`.
pub open spec fn rows_of(chunksize: int, lod: int) -> int {
    (chunksize - 1) / stride_of(lod) + 1
}

/// Computes the samples per row of a chunk.
pub fn vertices_per_row(chunksize: u32, lod: u32) -> (n: u32)
    requires
        1 <= chunksize <= 4000,
        lod <= 7,
    ensures
        n == rows_of(chunksize as int, lod as int),
        1 <= n <= chunksize,
{
    let inc = stride_for_lod(lod);
    proof {
        lemma_div_is_ordered_by_denominator(chunksize - 1, 1, inc as int);
    }
    (chunksize - 1) / inc + 1
}

/// The six solid indices of the unit cell at `(i, j)` of a grid with `h`
/// vertices per row.
pub open spec fn solid_cell(h: int, i: int, j: int) -> Seq<u32> {
    let idx0 = (j + i * h) as u32;
    let idx1 = (j + 1 + i * h) as u32;
    let idx2 = (j + 1 + (i + 1) * h) as u32;
    let idx3 = (j + (i + 1) * h) as u32;
    seq![idx0, idx1, idx2, idx2, idx3, idx0]
}

/// The solid indices of the first `c` cells, in row-major cell order.
pub open spec fn solid_cells(h: int, c: int) -> Seq<u32>
    decreases c,
{
    if c <= 0 {
        Seq::empty()
    } else {
        solid_cells(h, c - 1) + solid_cell(h, (c - 1) / (h - 1), (c - 1) % (h - 1))
    }
}

/// The wireframe indices of the unit cell at `(i, j)`: two segments per
/// cell, plus the two closing segments on the last column of cells.
pub open spec fn wire_cell(w: int, h: int, i: int, j: int) -> Seq<u32> {
    let idx0 = (j + i * h) as u32;
    let idx1 = (j + 1 + i * h) as u32;
    let idx2 = (j + 1 + (i + 1) * h) as u32;
    let idx3 = (j + (i + 1) * h) as u32;
    if i == w - 2 || j == h - 1 {
        seq![idx0, idx1, idx0, idx3, idx1, idx2, idx2, idx3]
    } else {
        seq![idx0, idx1, idx0, idx3]
    }
}

/// The wireframe indices of the first `c` cells.
pub open spec fn wire_cells(w: int, h: int, c: int) -> Seq<u32>
    decreases c,
{
    if c <= 0 {
        Seq::empty()
    } else {
        wire_cells(w, h, c - 1) + wire_cell(w, h, (c - 1) / (h - 1), (c - 1) % (h - 1))
    }
}

/// The solid scheme emits exactly six indices per cell.
pub proof fn lemma_solid_cells_len(h: int, c: int)
    requires
        c >= 0,
    ensures
        solid_cells(h, c).len() == 6 * c,
    decreases c,
{
    if c > 0 {
        lemma_solid_cells_len(h, c - 1);
    }
}

/// Builds the solid and wireframe index streams for a `width * height`
/// vertex grid. Every emitted index addresses a vertex of the grid.
pub fn build_indices(width: u32, height: u32) -> (r: (Vec<u32>, Vec<u32>))
    requires
        1 <= width <= 4000,
        1 <= height <= 4000,
    ensures
        r.0@ == solid_cells(height as int, (width - 1) * (height - 1)),
        r.1@ == wire_cells(width as int, height as int, (width - 1) * (height - 1)),
        forall|n: int| 0 <= n < r.0@.len() ==> (#[trigger] r.0@[n]) < width * height,
        forall|n: int| 0 <= n < r.1@.len() ==> (#[trigger] r.1@[n]) < width * height,
{
    let mut indices: Vec<u32> = Vec::new();
    let mut texindices: Vec<u32> = Vec::new();
    let w = width;
    let h = height;
    if w < 2 || h < 2 {
        proof {
            assert((w - 1) as int * ((h - 1) as int) == 0) by (nonlinear_arith)
                requires
                    w == 1 || h == 1,
                    w >= 1,
                    h >= 1,
            ;
        }
        return (indices, texindices);
    }
    let mut i: u32 = 0;
    while i < w - 1
        invariant
            2 <= w <= 4000,
            2 <= h <= 4000,
            i <= w - 1,
            indices@ == solid_cells(h as int, i * (h - 1)),
            texindices@ == wire_cells(w as int, h as int, i * (h - 1)),
            forall|n: int| 0 <= n < indices@.len() ==> (#[trigger] indices@[n]) < w * h,
            forall|n: int| 0 <= n < texindices@.len() ==> (#[trigger] texindices@[n]) < w * h,
        decreases w - 1 - i,
    {
        let mut j: u32 = 0;
        while j < h - 1
            invariant
                2 <= w <= 4000,
                2 <= h <= 4000,
                i < w - 1,
                j <= h - 1,
                indices@ == solid_cells(h as int, i * (h - 1) + j),
                texindices@ == wire_cells(w as int, h as int, i * (h - 1) + j),
                forall|n: int| 0 <= n < indices@.len() ==> (#[trigger] indices@[n]) < w * h,
                forall|n: int| 0 <= n < texindices@.len() ==> (#[trigger] texindices@[n]) < w * h,
            decreases h - 1 - j,
        {
            proof {
                assert((i + 1) * h == i * h + h && i * h + h <= 4000 * 4000 && (i + 1) * h <= (w
                    - 1) * h && (w - 1) * h + h == w * h) by (nonlinear_arith)
                    requires
                        0 <= i <= w - 2,
                        2 <= h <= 4000,
                        2 <= w <= 4000,
                ;
            }
            let idx0: u32 = j + i * h;
            let idx1: u32 = j + 1 + i * h;
            let idx2: u32 = j + 1 + (i + 1) * h;
            let idx3: u32 = j + (i + 1) * h;
            let ghost c: int = i * (h - 1) + j;
            proof {
                lemma_fundamental_div_mod_converse(c, (h - 1) as int, i as int, j as int);
                assert(c / ((h - 1) as int) == i as int && c % ((h - 1) as int) == j as int);
            }
            indices.push(idx0);
            indices.push(idx1);
            indices.push(idx2);
            indices.push(idx2);
            indices.push(idx3);
            indices.push(idx0);
            proof {
                assert(indices@ =~= solid_cells(h as int, c + 1));
            }
            if i == w - 2 || j == h - 1 {
                texindices.push(idx0);
                texindices.push(idx1);
                texindices.push(idx0);
                texindices.push(idx3);
                texindices.push(idx1);
                texindices.push(idx2);
                texindices.push(idx2);
                texindices.push(idx3);
            } else {
                texindices.push(idx0);
                texindices.push(idx1);
                texindices.push(idx0);
                texindices.push(idx3);
            }
            proof {
                assert(texindices@ =~= wire_cells(w as int, h as int, c + 1));
            }
            j = j + 1;
        }
        proof {
            assert((i + 1) * (h - 1) == i * (h - 1) + (h - 1)) by (nonlinear_arith);
        }
        i = i + 1;
    }
    (indices, texindices)
}

} // verus!
