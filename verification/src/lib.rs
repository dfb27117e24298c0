//! Sparse voxel storage for an unbounded three-dimensional world.
//!
//! The world is split into cubic chunks of `CHUNK_SIZE` cells per edge. A
//! global (world-scale) coordinate is resolved into the coordinate of the
//! chunk that holds it and the cell's local coordinate inside that chunk.
//! Chunks are stored sparsely in a concurrency-safe map, and each chunk owns
//! a dense, fully initialized array of voxels.

pub mod coordinates;
pub mod text;
pub mod world_data;

pub use coordinates::chunk::{ChunkCoord, ChunkCoordType};
pub use coordinates::global::{GlobalCoord, GlobalCoordType};
pub use coordinates::local::{LocalCoord, LocalCoordType};
pub use coordinates::CHUNK_SIZE;
pub use world_data::chunk::errors::ChunkNotFoundError;
pub use world_data::chunk::Chunk;
pub use world_data::voxel::errors::{VoxelNotFoundError, WrappedPositionOutOfBoundsError};
pub use world_data::voxel::Voxel;
pub use world_data::{World, WorldError};
