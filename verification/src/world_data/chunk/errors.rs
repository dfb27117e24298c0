//! The error of chunk-level lookup in the world.

use crate::coordinates::chunk::{chunk_coord_text, ChunkCoord};
use vstd::prelude::*;
use vstd::string::StringExecFns;

verus! {

/// Returned by the world's voxel operations when the addressed chunk is
/// absent; carries the coordinate of the missing chunk.
#[derive(PartialEq, Eq, Structural, Debug, Clone, Copy)]
pub struct ChunkNotFoundError(pub ChunkCoord);

impl ChunkNotFoundError {
    /// Renders the error as `"Chunk at <coordinate> doesn't exist!"`.
    pub fn to_string(&self) -> (s: String)
        ensures
            s@ == "Chunk at "@ + chunk_coord_text(self.0) + " doesn't exist!"@,
    {
        let mut s = "Chunk at ".to_owned();
        let position = self.0.to_string();
        s.append(position.as_str());
        s.append(" doesn't exist!");
        s
    }
}

} // verus!
