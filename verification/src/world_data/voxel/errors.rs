//! Errors of voxel-level access inside a chunk.

use crate::coordinates::local::{local_coord_text, LocalCoord};
use vstd::prelude::*;
use vstd::string::StringExecFns;

verus! {

/// Returned by a chunk's voxel read when the local coordinate cannot be
/// mapped into the chunk's array.
#[derive(PartialEq, Eq, Structural, Debug, Clone, Copy)]
pub struct VoxelNotFoundError(pub LocalCoord);

impl VoxelNotFoundError {
    /// Renders the error as `"Voxel at <coordinate> doesn't exist!"`.
    pub fn to_string(&self) -> (s: String)
        ensures
            s@ == "Voxel at "@ + local_coord_text(self.0) + " doesn't exist!"@,
    {
        let mut s = "Voxel at ".to_owned();
        let position = self.0.to_string();
        s.append(position.as_str());
        s.append(" doesn't exist!");
        s
    }
}

/// Returned by a chunk's voxel write when the local coordinate cannot be
/// mapped into the chunk's array.
#[derive(PartialEq, Eq, Structural, Debug, Clone, Copy)]
pub struct WrappedPositionOutOfBoundsError(pub LocalCoord);

impl WrappedPositionOutOfBoundsError {
    /// Renders the error as `"Local coordinate <coordinate> is out of bounds!
    /// Are you using a 32-bit system?"`.
    pub fn to_string(&self) -> (s: String)
        ensures
            s@ == "Local coordinate "@ + local_coord_text(self.0)
                + " is out of bounds! Are you using a 32-bit system?"@,
    {
        let mut s = "Local coordinate ".to_owned();
        let position = self.0.to_string();
        s.append(position.as_str());
        s.append(" is out of bounds! Are you using a 32-bit system?");
        s
    }
}

} // verus!
