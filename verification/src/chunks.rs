//! The chunk grid: world-space translations for a rectangular arrangement
//! of mesh chunks, row-major, centered on the origin.

use vstd::prelude::*;

verus! {

use vstd::arithmetic::div_mod::lemma_fundamental_div_mod_converse;

/// The world-space translation of chunk row or column `i` in a row of
/// `count` chunks of side `chunksize`: chunks abut edge to edge (each
/// spans `chunksize - 1` units) and the whole row is centered on the
/// origin.
pub open spec fn chunk_translation(count: int, chunksize: int, i: int) -> int {
    i * (chunksize - 1) - count * (chunksize - 1) / 2
}

/// Builds the world translation of every chunk of an
/// `x_chunks * z_chunks` grid, row-major: entry `i * z_chunks + j` holds
/// the translation of chunk `(i, j)`.
pub fn chunk_translations(x_chunks: u32, z_chunks: u32, chunksize: u32) -> (tr: Vec<(i64, i64)>)
    requires
        1 <= x_chunks <= 64,
        1 <= z_chunks <= 64,
        2 <= chunksize <= 4000,
    ensures
        tr.len() == x_chunks * z_chunks,
        forall|i: int, j: int|
            0 <= i < x_chunks && 0 <= j < z_chunks ==> tr[i * z_chunks + j] == (
                chunk_translation(x_chunks as int, chunksize as int, i) as i64,
                chunk_translation(z_chunks as int, chunksize as int, j) as i64,
            ),
        forall|k: int|
            0 <= k < tr.len() ==> -0x100000 <= (#[trigger] tr[k]).0 <= 0x100000 && -0x100000
                <= tr[k].1 <= 0x100000,
{
    let span: u32 = chunksize - 1;
    proof {
        assert(x_chunks * span <= 64 * 3999 && z_chunks * span <= 64 * 3999) by (nonlinear_arith)
            requires
                1 <= x_chunks <= 64,
                1 <= z_chunks <= 64,
                0 <= span <= 3999,
        ;
    }
    let half_x: i64 = ((x_chunks * span) / 2) as i64;
    let half_z: i64 = ((z_chunks * span) / 2) as i64;
    let mut tr: Vec<(i64, i64)> = Vec::new();
    let mut i: u32 = 0;
    while i < x_chunks
        invariant
            i <= x_chunks,
            1 <= x_chunks <= 64,
            1 <= z_chunks <= 64,
            2 <= chunksize <= 4000,
            span == chunksize - 1,
            half_x == x_chunks * span / 2,
            half_z == z_chunks * span / 2,
            tr.len() == i * z_chunks,
            forall|ii: int, jj: int|
                0 <= ii < i && 0 <= jj < z_chunks ==> tr[ii * z_chunks + jj] == (
                    chunk_translation(x_chunks as int, chunksize as int, ii) as i64,
                    chunk_translation(z_chunks as int, chunksize as int, jj) as i64,
                ),
            forall|k: int|
                0 <= k < tr.len() ==> -0x100000 <= (#[trigger] tr[k]).0 <= 0x100000 && -0x100000
                    <= tr[k].1 <= 0x100000,
        decreases x_chunks - i,
    {
        proof {
            assert(0 <= i * span <= 64 * 3999 && x_chunks * span <= 64 * 3999) by (nonlinear_arith)
                requires
                    0 <= i < x_chunks <= 64,
                    0 <= span <= 3999,
            ;
        }
        let xt: i64 = (i as i64) * (span as i64) - half_x;
        let mut j: u32 = 0;
        while j < z_chunks
            invariant
                i < x_chunks,
                j <= z_chunks,
                1 <= x_chunks <= 64,
                1 <= z_chunks <= 64,
                2 <= chunksize <= 4000,
                span == chunksize - 1,
                half_x == x_chunks * span / 2,
                half_z == z_chunks * span / 2,
                xt == chunk_translation(x_chunks as int, chunksize as int, i as int),
                -0x100000 <= xt <= 0x100000,
                tr.len() == i * z_chunks + j,
                forall|ii: int, jj: int|
                    0 <= ii < i && 0 <= jj < z_chunks ==> tr[ii * z_chunks + jj] == (
                        chunk_translation(x_chunks as int, chunksize as int, ii) as i64,
                        chunk_translation(z_chunks as int, chunksize as int, jj) as i64,
                    ),
                forall|jj: int|
                    0 <= jj < j ==> tr[i * z_chunks + jj] == (
                        chunk_translation(x_chunks as int, chunksize as int, i as int) as i64,
                        chunk_translation(z_chunks as int, chunksize as int, jj) as i64,
                    ),
                forall|k: int|
                    0 <= k < tr.len() ==> -0x100000 <= (#[trigger] tr[k]).0 <= 0x100000
                        && -0x100000 <= tr[k].1 <= 0x100000,
            decreases z_chunks - j,
        {
            proof {
                assert(0 <= j * span <= 64 * 3999 && z_chunks * span <= 64 * 3999) by (nonlinear_arith)
                    requires
                        0 <= j < z_chunks <= 64,
                        0 <= span <= 3999,
                ;
            }
            let zt: i64 = (j as i64) * (span as i64) - half_z;
            tr.push((xt, zt));
            proof {
                assert forall|ii: int, jj: int|
                    0 <= ii < i && 0 <= jj < z_chunks implies #[trigger] (ii * z_chunks + jj) < i
                    * z_chunks by {
                    assert(ii * z_chunks + jj < i * z_chunks) by (nonlinear_arith)
                        requires
                            0 <= ii < i,
                            0 <= jj < z_chunks,
                    ;
                }
            }
            j = j + 1;
        }
        proof {
            assert((i + 1) * z_chunks == i * z_chunks + z_chunks) by (nonlinear_arith);
        }
        i = i + 1;
    }
    tr
}

/// The world position of local sample coordinate `local` within a chunk
/// whose translation is `translation`.
pub open spec fn world_of(translation: int, local: int) -> int {
    translation + local
}

/// Computes the world position of a chunk-local sample coordinate.
pub fn world_position_of(translation: i64, local: u32) -> (w: i64)
    requires
        -0x100000 <= translation <= 0x100000,
        local <= 4000,
    ensures
        w == world_of(translation as int, local as int),
{
    translation + local as i64
}

/// Recovers the chunk-local sample coordinate from a world position.
pub fn local_position_of(world: i64, translation: i64) -> (l: i64)
    requires
        -0x200000 <= world <= 0x200000,
        -0x100000 <= translation <= 0x100000,
    ensures
        l == world - translation,
{
    world - translation
}

/// Round trip: composing `world_of` with the inverse chunk translation
/// recovers the original local sample coordinate, for every chunk
/// translation and every local coordinate.
pub proof fn lemma_world_local_round_trip(translation: int, local: int)
    ensures
        world_of(translation, local) - translation == local,
{
}

} // verus!
