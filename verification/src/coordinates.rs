//! The three coordinate kinds and the conversions between them.
//!
//! A global coordinate addresses one cell in the unbounded world. Per axis,
//! the chunk coordinate is the floor of the global component divided by
//! `CHUNK_SIZE`, and the local coordinate is the remainder, normalized into
//! `[0, CHUNK_SIZE)`. With that convention the two conversions compose back
//! to the global coordinate on every axis, negative components included.

use crate::coordinates::chunk::chunk_from_global;
use crate::coordinates::global::GlobalCoord;
use crate::coordinates::local::local_from_global;
use vstd::arithmetic::div_mod::{lemma_fundamental_div_mod, lemma_fundamental_div_mod_converse};
use vstd::prelude::*;

pub mod chunk;
pub mod global;
pub mod local;

verus! {

/// Cells per chunk edge; the single source of truth for both the chunk
/// array's size and the coordinate math.
pub const CHUNK_SIZE: u8 = 32;

/// The chunk-scale component for a global axis component: floor division by
/// `CHUNK_SIZE` (`int` division by a positive divisor rounds toward negative
/// infinity).
pub open spec fn chunk_axis(w: int) -> int {
    w / (CHUNK_SIZE as int)
}

/// The cell's position along one axis inside its chunk: the remainder of the
/// global component by `CHUNK_SIZE`, normalized into `[0, CHUNK_SIZE)`.
pub open spec fn local_axis(w: int) -> int {
    w % (CHUNK_SIZE as int)
}

/// Per axis, the chunk component and the local component reconstruct the
/// global component: `chunk * CHUNK_SIZE + local == w`, with the local
/// component always in `[0, CHUNK_SIZE)`.
pub proof fn lemma_axis_split(w: int)
    ensures
        chunk_axis(w) * (CHUNK_SIZE as int) + local_axis(w) == w,
        0 <= local_axis(w) < CHUNK_SIZE as int,
{
    lemma_fundamental_div_mod(w, CHUNK_SIZE as int);
}

/// Computes the chunk-scale and local components of one global axis
/// component, using only unsigned machine arithmetic.
pub fn split_axis(w: i32) -> (r: (i32, u8))
    ensures
        r.0 as int == chunk_axis(w as int),
        r.1 as int == local_axis(w as int),
{
    let size: u32 = CHUNK_SIZE as u32;
    if w >= 0 {
        let q: u32 = (w as u32) / size;
        let m: u32 = (w as u32) % size;
        proof {
            lemma_fundamental_div_mod(w as int, CHUNK_SIZE as int);
            assert(q as int * (CHUNK_SIZE as int) <= w as int) by (nonlinear_arith)
                requires
                    q as int == (w as int) / (CHUNK_SIZE as int),
                    m as int == (w as int) % (CHUNK_SIZE as int),
                    w as int == (CHUNK_SIZE as int) * (q as int) + m as int,
                    0 <= m as int,
            ;
        }
        (q as i32, m as u8)
    } else {
        let magnitude: u32 = if w == i32::MIN {
            0x8000_0000u32
        } else {
            (-w) as u32
        };
        assert(magnitude as int == -(w as int));
        let a: u32 = magnitude / size;
        let m: u32 = magnitude % size;
        proof {
            lemma_fundamental_div_mod(magnitude as int, CHUNK_SIZE as int);
            assert(a as int * (CHUNK_SIZE as int) <= magnitude as int) by (nonlinear_arith)
                requires
                    a as int == (magnitude as int) / (CHUNK_SIZE as int),
                    magnitude as int == (CHUNK_SIZE as int) * (a as int) + m as int,
                    0 <= m as int,
            ;
        }
        let quotient: i32 = if m == 0 { -(a as i32) } else { -(a as i32) - 1 };
        let local: u32 = if m == 0 { 0 } else { size - m };
        proof {
            assert(w as int == quotient as int * (CHUNK_SIZE as int) + local as int);
            lemma_fundamental_div_mod_converse(
                w as int,
                CHUNK_SIZE as int,
                quotient as int,
                local as int,
            );
        }
        (quotient, local as u8)
    }
}

/// Consistency of the two derivations: per axis, combining the chunk
/// coordinate and the local coordinate as `chunk * CHUNK_SIZE + local`
/// reconstructs the global coordinate — on every axis, negative components
/// included.
pub proof fn lemma_coordinate_roundtrip(g: GlobalCoord)
    ensures
        chunk_from_global(g).x as int * (CHUNK_SIZE as int) + local_from_global(g).x as int
            == g.x as int,
        chunk_from_global(g).y as int * (CHUNK_SIZE as int) + local_from_global(g).y as int
            == g.y as int,
        chunk_from_global(g).z as int * (CHUNK_SIZE as int) + local_from_global(g).z as int
            == g.z as int,
{
    lemma_axis_split(g.x as int);
    lemma_axis_split(g.y as int);
    lemma_axis_split(g.z as int);
}

} // verus!
