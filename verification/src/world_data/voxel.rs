//! The per-cell stored datum.

use vstd::prelude::*;

pub mod errors;

pub use errors::{VoxelNotFoundError, WrappedPositionOutOfBoundsError};

verus! {

/// A single-byte voxel type identifier; `0` stands for empty air.
#[derive(PartialEq, Eq, Structural, Debug, Clone, Copy)]
pub struct Voxel(pub u8);

impl Voxel {
    /// The voxel with the given type identifier.
    pub fn new(voxel_type: u8) -> (r: Self)
        ensures
            r == Voxel(voxel_type),
    {
        Voxel(voxel_type)
    }
}

impl Default for Voxel {
    /// The empty voxel.
    fn default() -> (r: Self)
        ensures
            r == Voxel(0),
    {
        Voxel(0)
    }
}

} // verus!
