//! The world: a concurrency-safe sparse mapping from chunk coordinates to
//! chunks, with voxel-level access by global coordinate.
//!
//! The map is a `dashmap` sharded concurrent hash map, held behind trusted
//! wrappers; `region_map` names its contents, a map from key triples to the
//! contents of the chunk stored there, and every wrapper's contract speaks
//! over that name. Chunks are never created implicitly: value access to an
//! absent chunk fails with a chunk-not-found error.

use crate::coordinates::chunk::{chunk_from_global, ChunkCoord};
use crate::coordinates::global::GlobalCoord;
use crate::coordinates::local::{lemma_local_from_global_in_bounds, local_from_global, LocalCoord};
use crate::world_data::chunk::errors::ChunkNotFoundError;
use crate::world_data::chunk::{
    chunk_view_wf, empty_chunk_view, in_chunk_bounds, lemma_insert_preserves_chunk_wf, local_key,
    Chunk,
};
use crate::world_data::voxel::errors::{VoxelNotFoundError, WrappedPositionOutOfBoundsError};
use crate::world_data::voxel::Voxel;
use vstd::prelude::*;

pub mod chunk;
pub mod voxel;

verus! {

/// The concurrent map holding the world's chunks, keyed by the component
/// triple of a chunk coordinate.
pub type ChunkMap = dashmap::DashMap<(i32, i32, i32), Chunk>;

/// The spec-level key of a chunk coordinate in the world's map.
pub open spec fn chunk_key(c: ChunkCoord) -> (int, int, int) {
    (c.x as int, c.y as int, c.z as int)
}

/// The spec-level key of a stored key triple.
pub open spec fn raw_key(k: (i32, i32, i32)) -> (int, int, int) {
    (k.0 as int, k.1 as int, k.2 as int)
}

#[verifier::external_type_specification]
#[verifier::external_body]
#[verifier::reject_recursive_types(K)]
#[verifier::reject_recursive_types(V)]
#[verifier::reject_recursive_types(S)]
pub struct ExDashMap<K, V, S>(dashmap::DashMap<K, V, S>);

/// The contents of the world's chunk map: which chunk contents each key
/// triple maps to.
pub uninterp spec fn region_map(m: ChunkMap) -> Map<(int, int, int), Map<(int, int, int), Voxel>>;

/// The contents of a world that holds no chunks at all.
pub open spec fn empty_world_view() -> Map<(int, int, int), Map<(int, int, int), Voxel>> {
    Map::empty()
}

/// Relies on dashmap's `DashMap::new`: an empty map.
#[verifier::external_body]
fn map_new() -> (m: ChunkMap)
    ensures
        region_map(m) == empty_world_view(),
{
    dashmap::DashMap::new()
}

/// Relies on dashmap's `DashMap::get`, which hands back a read guard on the
/// entry for an equal key when one is present; the entry's chunk is copied
/// out with the verified `Chunk::snapshot`.
#[verifier::external_body]
fn map_get(m: &ChunkMap, k: &(i32, i32, i32)) -> (r: Option<Chunk>)
    ensures
        ({
            let kk = raw_key(*k);
            match r {
                Some(c) => region_map(*m).contains_key(kk) && c@ == region_map(*m)[kk],
                None => !region_map(*m).contains_key(kk),
            }
        }),
{
    m.get(k).map(|entry| entry.snapshot())
}

/// Relies on dashmap's `DashMap::insert`: the value is stored under the key,
/// replacing any previous entry for an equal key.
#[verifier::external_body]
fn map_insert(m: &mut ChunkMap, k: (i32, i32, i32), v: Chunk)
    ensures
        region_map(*final(m)) == region_map(*old(m)).insert(raw_key(k), v@),
{
    let _ = m.insert(k, v);
}

/// Relies on dashmap's `DashMap::remove`: takes the entry for an equal key
/// out of the map and hands its value back, when one is present.
#[verifier::external_body]
fn map_remove(m: &mut ChunkMap, k: &(i32, i32, i32)) -> (r: Option<Chunk>)
    ensures
        ({
            let kk = raw_key(*k);
            match r {
                Some(c) => region_map(*old(m)).contains_key(kk) && c@ == region_map(*old(m))[kk]
                    && region_map(*final(m)) == region_map(*old(m)).remove(kk),
                None => !region_map(*old(m)).contains_key(kk) && region_map(*final(m))
                    == region_map(*old(m)),
            }
        }),
{
    m.remove(k).map(|entry| entry.1)
}

/// An error of the world's voxel operations.
#[derive(PartialEq, Eq, Structural, Debug, Clone, Copy)]
pub enum WorldError {
    /// The addressed chunk is absent from the world.
    ChunkNotFound(ChunkNotFoundError),
    /// The chunk is present but the voxel read could not map the local
    /// coordinate into its array.
    VoxelNotFound(VoxelNotFoundError),
    /// The chunk is present but the voxel write could not map the local
    /// coordinate into its array.
    PositionOutOfBounds(WrappedPositionOutOfBoundsError),
}

/// The sparse, concurrency-safe mapping from chunk coordinates to chunks.
pub struct World {
    data: ChunkMap,
}

impl View for World {
    type V = Map<(int, int, int), Map<(int, int, int), Voxel>>;

    closed spec fn view(&self) -> Map<(int, int, int), Map<(int, int, int), Voxel>> {
        region_map(self.data)
    }
}

/// A world that holds no chunks has no chunk for any global coordinate, so
/// both voxel lookup and voxel overwrite on a freshly constructed world fail
/// with a chunk-not-found error, whatever the coordinate; neither ever
/// creates a chunk.
pub proof fn lemma_empty_world_has_no_chunks(g: GlobalCoord)
    ensures
        !empty_world_view().contains_key(chunk_key(chunk_from_global(g))),
{
}

impl World {
    /// Cells per chunk edge.
    pub const CHUNK_SIZE: u8 = crate::coordinates::CHUNK_SIZE;

    /// Every chunk installed in the world covers exactly the `CHUNK_SIZE³`
    /// index cube.
    pub open spec fn wf(&self) -> bool {
        forall|k: (int, int, int)| #[trigger]
            self@.contains_key(k) ==> chunk_view_wf(self@[k])
    }

    /// An empty world with no chunks.
    pub fn new() -> (w: World)
        ensures
            w@ == empty_world_view(),
            w.wf(),
    {
        World { data: map_new() }
    }

    /// The voxel at the given global coordinate. Fails with a
    /// chunk-not-found error, carrying the chunk coordinate, when the chunk
    /// holding the coordinate is absent; never creates a chunk.
    pub fn get_voxel(&self, global_position: &GlobalCoord) -> (r: Result<Voxel, WorldError>)
        requires
            self.wf(),
        ensures
            ({
                let ck = chunk_key(chunk_from_global(*global_position));
                let lk = local_key(local_from_global(*global_position));
                match r {
                    Ok(v) => self@.contains_key(ck) && self@[ck].contains_key(lk) && v
                        == self@[ck][lk],
                    Err(e) => match e {
                        WorldError::ChunkNotFound(inner) => !self@.contains_key(ck) && inner.0
                            == chunk_from_global(*global_position),
                        _ => false,
                    },
                }
            }),
    {
        let chunk_position = ChunkCoord::from(*global_position);
        let local_position = LocalCoord::from(*global_position);
        proof {
            lemma_local_from_global_in_bounds(*global_position);
        }
        let key = (chunk_position.x, chunk_position.y, chunk_position.z);
        match map_get(&self.data, &key) {
            Some(chunk) => {
                proof {
                    let ck = chunk_key(chunk_from_global(*global_position));
                    let lk = local_key(local_from_global(*global_position));
                    assert(self@.contains_key(ck));
                    assert(chunk_view_wf(self@[ck]));
                    assert(in_chunk_bounds(lk));
                    assert(chunk@.contains_key(lk));
                }
                match chunk.get_voxel(&local_position) {
                    Ok(voxel) => Ok(voxel),
                    Err(error) => Err(WorldError::VoxelNotFound(error)),
                }
            },
            None => Err(WorldError::ChunkNotFound(ChunkNotFoundError(chunk_position))),
        }
    }

    /// Overwrites the voxel at the given global coordinate. Fails with a
    /// chunk-not-found error, carrying the chunk coordinate and leaving the
    /// world unchanged, when the chunk holding the coordinate is absent;
    /// never creates a chunk.
    pub fn set_voxel(&mut self, global_position: &GlobalCoord, voxel: Voxel) -> (r: Result<
        (),
        WorldError,
    >)
        requires
            old(self).wf(),
        ensures
            final(self).wf(),
            ({
                let ck = chunk_key(chunk_from_global(*global_position));
                let lk = local_key(local_from_global(*global_position));
                match r {
                    Ok(_) => old(self)@.contains_key(ck) && final(self)@ == old(self)@.insert(
                        ck,
                        old(self)@[ck].insert(lk, voxel),
                    ),
                    Err(e) => match e {
                        WorldError::ChunkNotFound(inner) => !old(self)@.contains_key(ck)
                            && final(self)@ == old(self)@ && inner.0 == chunk_from_global(
                            *global_position,
                        ),
                        _ => false,
                    },
                }
            }),
    {
        let chunk_position = ChunkCoord::from(*global_position);
        let local_position = LocalCoord::from(*global_position);
        proof {
            lemma_local_from_global_in_bounds(*global_position);
        }
        let key = (chunk_position.x, chunk_position.y, chunk_position.z);
        match map_remove(&mut self.data, &key) {
            Some(mut chunk) => {
                proof {
                    let ck = chunk_key(chunk_from_global(*global_position));
                    let lk = local_key(local_from_global(*global_position));
                    assert(old(self)@.contains_key(ck));
                    assert(chunk_view_wf(old(self)@[ck]));
                    assert(in_chunk_bounds(lk));
                    assert(chunk@.contains_key(lk));
                }
                let result = chunk.set_voxel(&local_position, voxel);
                map_insert(&mut self.data, key, chunk);
                proof {
                    let ck = chunk_key(chunk_from_global(*global_position));
                    let lk = local_key(local_from_global(*global_position));
                    lemma_insert_preserves_chunk_wf(old(self)@[ck], lk, voxel);
                    assert(self@ =~= old(self)@.insert(ck, old(self)@[ck].insert(lk, voxel)));
                    assert forall|k: (int, int, int)| self@.contains_key(k) implies chunk_view_wf(
                        self@[k],
                    ) by {
                        if k == ck {
                            assert(chunk_view_wf(old(self)@[ck].insert(lk, voxel)));
                        } else {
                            assert(old(self)@.contains_key(k));
                        }
                    }
                }
                match result {
                    Ok(_) => Ok(()),
                    Err(error) => Err(WorldError::PositionOutOfBounds(error)),
                }
            },
            None => {
                proof {
                    assert(self@ =~= old(self)@);
                    assert(self.wf());
                }
                Err(WorldError::ChunkNotFound(ChunkNotFoundError(chunk_position)))
            },
        }
    }

    /// Builds a new fully empty chunk and installs it at the given
    /// coordinate, overwriting any chunk already installed there.
    pub fn create_chunk(&mut self, chunk_position: &ChunkCoord)
        requires
            old(self).wf(),
        ensures
            final(self)@ == old(self)@.insert(chunk_key(*chunk_position), empty_chunk_view()),
            final(self).wf(),
    {
        let new_chunk = Chunk::new();
        self.set_chunk(chunk_position, new_chunk);
    }

    /// Installs the given chunk at the given coordinate, overwriting any
    /// chunk already installed there.
    pub fn set_chunk(&mut self, chunk_position: &ChunkCoord, chunk: Chunk)
        requires
            old(self).wf(),
            chunk.wf(),
        ensures
            final(self)@ == old(self)@.insert(chunk_key(*chunk_position), chunk@),
            final(self).wf(),
    {
        map_insert(&mut self.data, (chunk_position.x, chunk_position.y, chunk_position.z), chunk);
        proof {
            assert forall|k: (int, int, int)| self@.contains_key(k) implies chunk_view_wf(
                self@[k],
            ) by {
                if k != chunk_key(*chunk_position) {
                    assert(old(self)@.contains_key(k));
                }
            }
        }
    }
}

impl Default for World {
    /// An empty world with no chunks.
    fn default() -> (w: Self)
        ensures
            w@ == empty_world_view(),
            w.wf(),
    {
        World::new()
    }
}

} // verus!
