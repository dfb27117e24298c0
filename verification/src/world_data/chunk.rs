//! A chunk: dense, bounds-checked storage for exactly `CHUNK_SIZE³` voxels.
//!
//! The storage itself is an `ndarray` three-dimensional array. Its type
//! cannot be declared to the verifier (ndarray bounds the array's definition
//! by its own storage trait), so the array is held opaquely in `VoxelGrid`;
//! `grid_cells` and `grid_dim` name its contents and shape, and the trusted
//! wrappers below state what each ndarray call does over those names.

use crate::coordinates::local::LocalCoord;
use crate::coordinates::CHUNK_SIZE;
use crate::world_data::voxel::errors::{VoxelNotFoundError, WrappedPositionOutOfBoundsError};
use crate::world_data::voxel::Voxel;
use vstd::prelude::*;

pub mod errors;

verus! {

/// The index triple a local coordinate addresses in a chunk's array.
pub open spec fn local_key(p: LocalCoord) -> (int, int, int) {
    (p.x as int, p.y as int, p.z as int)
}

/// Whether an index triple lies inside a chunk's `CHUNK_SIZE³` cube.
pub open spec fn in_chunk_bounds(p: (int, int, int)) -> bool {
    &&& 0 <= p.0 < CHUNK_SIZE as int
    &&& 0 <= p.1 < CHUNK_SIZE as int
    &&& 0 <= p.2 < CHUNK_SIZE as int
}

/// The contents of a grid in which every cell of an `n × n × n` cube holds
/// the same voxel.
pub open spec fn filled_view(n: int, fill: Voxel) -> Map<(int, int, int), Voxel> {
    Map::new(
        |p: (int, int, int)| 0 <= p.0 < n && 0 <= p.1 < n && 0 <= p.2 < n,
        |p: (int, int, int)| fill,
    )
}

/// The contents of a freshly created chunk: every in-bounds cell holds the
/// empty voxel.
pub open spec fn empty_chunk_view() -> Map<(int, int, int), Voxel> {
    Map::new(|p: (int, int, int)| in_chunk_bounds(p), |p: (int, int, int)| Voxel(0))
}

/// Whether a chunk's contents cover exactly the `CHUNK_SIZE³` index cube.
pub open spec fn chunk_view_wf(m: Map<(int, int, int), Voxel>) -> bool {
    forall|p: (int, int, int)| #[trigger] m.contains_key(p) <==> in_chunk_bounds(p)
}

/// Overwriting an in-bounds cell keeps the contents covering exactly the
/// `CHUNK_SIZE³` index cube.
pub proof fn lemma_insert_preserves_chunk_wf(
    m: Map<(int, int, int), Voxel>,
    p: (int, int, int),
    v: Voxel,
)
    requires
        chunk_view_wf(m),
        in_chunk_bounds(p),
    ensures
        chunk_view_wf(m.insert(p, v)),
{
}

/// Dense `ndarray` storage for a chunk's voxels, held opaquely.
#[verifier::external_body]
#[derive(Debug)]
pub struct VoxelGrid {
    data: ndarray::Array3<Voxel>,
}

/// The contents of a grid: which voxel each index triple holds.
pub uninterp spec fn grid_cells(g: VoxelGrid) -> Map<(int, int, int), Voxel>;

/// The shape of a grid: its extent along each of the three axes.
pub uninterp spec fn grid_dim(g: VoxelGrid) -> (int, int, int);

/// Relies on ndarray's `Array3::from_elem`: a dense `n × n × n` array with
/// every cell holding the given element.
#[verifier::external_body]
fn grid_new(n: usize, fill: Voxel) -> (g: VoxelGrid)
    ensures
        grid_cells(g) == filled_view(n as int, fill),
        grid_dim(g) == (n as int, n as int, n as int),
{
    VoxelGrid { data: ndarray::Array3::from_elem(ndarray::Ix3(n, n, n), fill) }
}

/// Relies on ndarray's `ArrayBase::get`: the element at the index when it is
/// within bounds, `None` otherwise.
#[verifier::external_body]
fn grid_get(g: &VoxelGrid, x: usize, y: usize, z: usize) -> (r: Option<Voxel>)
    ensures
        ({
            let p = (x as int, y as int, z as int);
            match r {
                Some(v) => grid_cells(*g).contains_key(p) && v == grid_cells(*g)[p],
                None => !grid_cells(*g).contains_key(p),
            }
        }),
{
    g.data.get(ndarray::Ix3(x, y, z)).copied()
}

/// Relies on ndarray's `ArrayBase::get_mut`: a mutable reference to the
/// element at the index when it is within bounds; storing through it replaces
/// exactly that element.
#[verifier::external_body]
fn grid_put(g: &mut VoxelGrid, x: usize, y: usize, z: usize, v: Voxel) -> (hit: bool)
    ensures
        hit == grid_cells(*old(g)).contains_key((x as int, y as int, z as int)),
        grid_cells(*final(g)) == if hit {
            grid_cells(*old(g)).insert((x as int, y as int, z as int), v)
        } else {
            grid_cells(*old(g))
        },
        grid_dim(*final(g)) == grid_dim(*old(g)),
{
    match g.data.get_mut(ndarray::Ix3(x, y, z)) {
        Some(cell) => {
            *cell = v;
            true
        },
        None => false,
    }
}

/// Relies on ndarray's `Clone` for `Array3`: the clone has the same shape and
/// the same elements.
#[verifier::external_body]
fn grid_clone(g: &VoxelGrid) -> (r: VoxelGrid)
    ensures
        grid_cells(r) == grid_cells(*g),
        grid_dim(r) == grid_dim(*g),
{
    VoxelGrid { data: g.data.clone() }
}

/// Relies on ndarray's `PartialEq` for `Array3`: two arrays are equal exactly
/// when their shapes match and every element matches.
#[verifier::external_body]
fn grid_eq(a: &VoxelGrid, b: &VoxelGrid) -> (r: bool)
    ensures
        r == (grid_dim(*a) == grid_dim(*b) && grid_cells(*a) == grid_cells(*b)),
{
    a.data == b.data
}

impl PartialEq for VoxelGrid {
    fn eq(&self, other: &VoxelGrid) -> (r: bool) {
        grid_eq(self, other)
    }
}

impl vstd::std_specs::cmp::PartialEqSpecImpl for VoxelGrid {
    open spec fn obeys_eq_spec() -> bool {
        true
    }

    open spec fn eq_spec(&self, other: &VoxelGrid) -> bool {
        grid_dim(*self) == grid_dim(*other) && grid_cells(*self) == grid_cells(*other)
    }
}

/// A dense cube of `CHUNK_SIZE³` voxels, fully initialized at creation.
#[derive(PartialEq, Debug)]
pub struct Chunk {
    pub data: VoxelGrid,
}

impl View for Chunk {
    type V = Map<(int, int, int), Voxel>;

    open spec fn view(&self) -> Map<(int, int, int), Voxel> {
        grid_cells(self.data)
    }
}

impl Chunk {
    /// The chunk's contents cover exactly the `CHUNK_SIZE³` index cube.
    pub open spec fn wf(&self) -> bool {
        chunk_view_wf(self@)
    }

    /// A chunk with every cell holding the given voxel.
    pub fn filled(fill: Voxel) -> (c: Chunk)
        ensures
            c@ == filled_view(CHUNK_SIZE as int, fill),
            c.wf(),
    {
        let data = grid_new(CHUNK_SIZE as usize, fill);
        Chunk { data }
    }

    /// A chunk with every cell set to the empty voxel.
    pub fn new() -> (c: Chunk)
        ensures
            c@ == empty_chunk_view(),
            c.wf(),
    {
        let c = Chunk::filled(Voxel::default());
        proof {
            assert(c@ =~= empty_chunk_view());
        }
        c
    }

    /// The voxel stored at the given local coordinate; fails with a
    /// voxel-not-found error when the coordinate cannot be mapped into the
    /// array.
    pub fn get_voxel(&self, local_position: &LocalCoord) -> (r: Result<Voxel, VoxelNotFoundError>)
        ensures
            match r {
                Ok(v) => self@.contains_key(local_key(*local_position)) && v == self@[local_key(
                    *local_position,
                )],
                Err(e) => !self@.contains_key(local_key(*local_position)) && e.0
                    == *local_position,
            },
    {
        let LocalCoord { x, y, z } = *local_position;
        match grid_get(&self.data, x as usize, y as usize, z as usize) {
            Some(voxel) => Ok(voxel),
            None => Err(VoxelNotFoundError(*local_position)),
        }
    }

    /// Overwrites the voxel at the given local coordinate; fails with a
    /// position-out-of-bounds error, leaving the chunk unchanged, when the
    /// coordinate cannot be mapped into the array.
    pub fn set_voxel(&mut self, local_position: &LocalCoord, voxel: Voxel) -> (r: Result<
        (),
        WrappedPositionOutOfBoundsError,
    >)
        ensures
            match r {
                Ok(_) => old(self)@.contains_key(local_key(*local_position)) && final(self)@
                    == old(self)@.insert(local_key(*local_position), voxel),
                Err(e) => !old(self)@.contains_key(local_key(*local_position)) && final(self)@
                    == old(self)@ && e.0 == *local_position,
            },
    {
        let LocalCoord { x, y, z } = *local_position;
        if grid_put(&mut self.data, x as usize, y as usize, z as usize, voxel) {
            Ok(())
        } else {
            Err(WrappedPositionOutOfBoundsError(*local_position))
        }
    }

    /// An independent chunk with the same contents.
    pub fn snapshot(&self) -> (c: Chunk)
        ensures
            c@ == self@,
    {
        Chunk { data: grid_clone(&self.data) }
    }
}

} // verus!
