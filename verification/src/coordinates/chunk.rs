//! The coordinate of one chunk: which `CHUNK_SIZE`-sized cube of the world a
//! cell belongs to.

use crate::coordinates::global::GlobalCoord;
use crate::coordinates::{chunk_axis, split_axis};
use crate::text::{point_text, render_point};
use vstd::prelude::*;

verus! {

/// The component type of a chunk coordinate: the full signed 32-bit range.
pub type ChunkCoordType = i32;

/// Identifies one cubic chunk of `CHUNK_SIZE³` cells.
#[derive(PartialEq, Eq, Structural, Debug, Clone, Copy, Hash)]
pub struct ChunkCoord {
    pub x: ChunkCoordType,
    pub y: ChunkCoordType,
    pub z: ChunkCoordType,
}

/// The chunk coordinate a global coordinate belongs to: per axis, the floor
/// of the global component divided by `CHUNK_SIZE`.
pub open spec fn chunk_from_global(g: GlobalCoord) -> ChunkCoord {
    ChunkCoord {
        x: chunk_axis(g.x as int) as i32,
        y: chunk_axis(g.y as int) as i32,
        z: chunk_axis(g.z as int) as i32,
    }
}

/// The rendering of a chunk coordinate: `"ChunkCoord (x, y, z)"`.
pub open spec fn chunk_coord_text(c: ChunkCoord) -> Seq<char> {
    point_text("ChunkCoord"@, c.x as int, c.y as int, c.z as int)
}

impl ChunkCoord {
    /// The coordinate with every component at the type's minimum.
    pub fn min() -> (r: Self)
        ensures
            r == (ChunkCoord { x: i32::MIN, y: i32::MIN, z: i32::MIN }),
    {
        Self { x: i32::MIN, y: i32::MIN, z: i32::MIN }
    }

    /// The coordinate with every component at the type's maximum.
    pub fn max() -> (r: Self)
        ensures
            r == (ChunkCoord { x: i32::MAX, y: i32::MAX, z: i32::MAX }),
    {
        Self { x: i32::MAX, y: i32::MAX, z: i32::MAX }
    }

    /// The coordinate with every component equal to `x`, `y`, `z`.
    pub fn new(x: ChunkCoordType, y: ChunkCoordType, z: ChunkCoordType) -> (r: Self)
        ensures
            r == (ChunkCoord { x, y, z }),
    {
        Self { x, y, z }
    }

    /// Renders the coordinate as `"ChunkCoord (x, y, z)"`.
    pub fn to_string(&self) -> (s: String)
        ensures
            s@ == chunk_coord_text(*self),
    {
        render_point("ChunkCoord", self.x, self.y, self.z)
    }
}

impl From<GlobalCoord> for ChunkCoord {
    /// Derives the chunk a global coordinate belongs to, by floor division of
    /// each component by `CHUNK_SIZE`.
    fn from(global_position: GlobalCoord) -> (r: Self) {
        let (x, _) = split_axis(global_position.x);
        let (y, _) = split_axis(global_position.y);
        let (z, _) = split_axis(global_position.z);
        Self { x, y, z }
    }
}

impl vstd::std_specs::convert::FromSpecImpl<GlobalCoord> for ChunkCoord {
    open spec fn obeys_from_spec() -> bool {
        true
    }

    open spec fn from_spec(g: GlobalCoord) -> Self {
        chunk_from_global(g)
    }
}

} // verus!
