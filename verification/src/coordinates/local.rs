//! The local coordinate of a cell inside its chunk.

use crate::coordinates::global::GlobalCoord;
use crate::coordinates::{lemma_axis_split, local_axis, split_axis, CHUNK_SIZE};
use crate::text::{point_text, render_point};
use vstd::prelude::*;

verus! {

/// The component type of a local coordinate.
pub type LocalCoordType = u8;

/// Position of a cell within its chunk; every component of a value derived
/// from a global coordinate lies in `[0, CHUNK_SIZE)`.
#[derive(PartialEq, Eq, Structural, Debug, Clone, Copy)]
pub struct LocalCoord {
    pub x: LocalCoordType,
    pub y: LocalCoordType,
    pub z: LocalCoordType,
}

/// The cell position a global coordinate maps to inside its chunk: per axis,
/// the remainder by `CHUNK_SIZE`, normalized into `[0, CHUNK_SIZE)`.
pub open spec fn local_from_global(g: GlobalCoord) -> LocalCoord {
    LocalCoord {
        x: local_axis(g.x as int) as u8,
        y: local_axis(g.y as int) as u8,
        z: local_axis(g.z as int) as u8,
    }
}

/// Every component of a local coordinate derived from a global one lies in
/// `[0, CHUNK_SIZE)`.
pub proof fn lemma_local_from_global_in_bounds(g: GlobalCoord)
    ensures
        local_from_global(g).x < CHUNK_SIZE,
        local_from_global(g).y < CHUNK_SIZE,
        local_from_global(g).z < CHUNK_SIZE,
{
    lemma_axis_split(g.x as int);
    lemma_axis_split(g.y as int);
    lemma_axis_split(g.z as int);
}

/// The rendering of a local coordinate: `"LocalCoord (x, y, z)"`.
pub open spec fn local_coord_text(c: LocalCoord) -> Seq<char> {
    point_text("LocalCoord"@, c.x as int, c.y as int, c.z as int)
}

impl LocalCoord {
    /// The coordinate with every component at the type's minimum.
    pub fn min() -> (r: Self)
        ensures
            r == (LocalCoord { x: u8::MIN, y: u8::MIN, z: u8::MIN }),
    {
        Self { x: u8::MIN, y: u8::MIN, z: u8::MIN }
    }

    /// The coordinate with every component at the type's maximum.
    pub fn max() -> (r: Self)
        ensures
            r == (LocalCoord { x: u8::MAX, y: u8::MAX, z: u8::MAX }),
    {
        Self { x: u8::MAX, y: u8::MAX, z: u8::MAX }
    }

    /// The coordinate with every component equal to `x`, `y`, `z`.
    pub fn new(x: LocalCoordType, y: LocalCoordType, z: LocalCoordType) -> (r: Self)
        ensures
            r == (LocalCoord { x, y, z }),
    {
        Self { x, y, z }
    }

    /// Renders the coordinate as `"LocalCoord (x, y, z)"`.
    pub fn to_string(&self) -> (s: String)
        ensures
            s@ == local_coord_text(*self),
    {
        render_point("LocalCoord", self.x as i32, self.y as i32, self.z as i32)
    }
}

impl From<GlobalCoord> for LocalCoord {
    /// Derives the cell position inside the chunk: per axis, the remainder of
    /// the global component by `CHUNK_SIZE`, normalized into
    /// `[0, CHUNK_SIZE)`.
    fn from(global_position: GlobalCoord) -> (r: Self) {
        let (_, x) = split_axis(global_position.x);
        let (_, y) = split_axis(global_position.y);
        let (_, z) = split_axis(global_position.z);
        Self { x, y, z }
    }
}

impl vstd::std_specs::convert::FromSpecImpl<GlobalCoord> for LocalCoord {
    open spec fn obeys_from_spec() -> bool {
        true
    }

    open spec fn from_spec(g: GlobalCoord) -> Self {
        local_from_global(g)
    }
}

} // verus!
