use voxel_world::{
    Chunk, ChunkCoord, ChunkNotFoundError, GlobalCoord, LocalCoord, Voxel, VoxelNotFoundError,
    World, WorldError, WrappedPositionOutOfBoundsError,
};

#[test]
fn chunk_size_is_32() {
    assert_eq!(voxel_world::CHUNK_SIZE, 32);
    assert_eq!(World::CHUNK_SIZE, 32);
}

#[test]
fn new_cube() {
    let result = Voxel::new(7);
    let expected = Voxel(7);
    assert_eq!(result, expected);
}

#[test]
fn default_voxel_is_empty() {
    assert_eq!(Voxel::default(), Voxel(0));
}

#[test]
fn new_chunk() {
    let result = Chunk::new();
    let expected = Chunk::filled(Voxel::default());
    assert_eq!(result, expected);
}

#[test]
fn chunk_equality_detects_difference() {
    let mut changed = Chunk::new();
    changed
        .set_voxel(&LocalCoord::new(0, 0, 0), Voxel::new(1))
        .unwrap();
    assert_ne!(changed, Chunk::new());
}

#[test]
fn chunk_set_then_get() {
    let mut chunk = Chunk::new();
    let position = LocalCoord::new(1, 5, 3);
    assert_eq!(chunk.get_voxel(&position).unwrap(), Voxel(0));
    chunk.set_voxel(&position, Voxel::new(9)).unwrap();
    assert_eq!(chunk.get_voxel(&position).unwrap(), Voxel(9));
}

#[test]
fn chunk_get_out_of_bounds() {
    let chunk = Chunk::new();
    let position = LocalCoord::new(40, 0, 0);
    assert_eq!(chunk.get_voxel(&position), Err(VoxelNotFoundError(position)));
}

#[test]
fn chunk_set_out_of_bounds() {
    let mut chunk = Chunk::new();
    let position = LocalCoord::new(0, 32, 0);
    assert_eq!(
        chunk.set_voxel(&position, Voxel::new(1)),
        Err(WrappedPositionOutOfBoundsError(position))
    );
    assert_eq!(chunk, Chunk::new());
}

#[test]
fn chunk_snapshot_is_independent() {
    let mut chunk = Chunk::new();
    let copy = chunk.snapshot();
    chunk
        .set_voxel(&LocalCoord::new(2, 2, 2), Voxel::new(5))
        .unwrap();
    assert_eq!(copy, Chunk::new());
    assert_ne!(copy, chunk);
}

#[test]
fn get_voxel_empty_world() {
    let world = World::new();
    let position = GlobalCoord::new(17, -40, 3);
    let expected_chunk = ChunkCoord::new(0, -2, 0);
    assert_eq!(
        world.get_voxel(&position),
        Err(WorldError::ChunkNotFound(ChunkNotFoundError(expected_chunk)))
    );
}

#[test]
fn set_voxel_empty_world() {
    let mut world = World::new();
    let position = GlobalCoord::new(17, -40, 3);
    let expected_chunk = ChunkCoord::new(0, -2, 0);
    assert_eq!(
        world.set_voxel(&position, Voxel::new(1)),
        Err(WorldError::ChunkNotFound(ChunkNotFoundError(expected_chunk)))
    );
    assert_eq!(
        world.get_voxel(&position),
        Err(WorldError::ChunkNotFound(ChunkNotFoundError(expected_chunk)))
    );
}

#[test]
fn get_existing_voxel() {
    let mut world = World::new();
    let position: ChunkCoord = GlobalCoord::new(0, 0, 0).into();
    world.create_chunk(&position);
    let position = GlobalCoord::new(1, 5, 3);
    let voxel_exists = world.get_voxel(&position).is_ok();
    assert!(voxel_exists);
}

#[test]
fn set_then_get_voxel() {
    let mut world = World::new();
    let position: ChunkCoord = GlobalCoord::new(0, 0, 0).into();
    world.create_chunk(&position);
    let position = GlobalCoord::new(1, 5, 3);
    world.set_voxel(&position, Voxel::new(0)).unwrap();
    let voxel_exists = world.get_voxel(&position).is_ok();
    assert!(voxel_exists);
}

#[test]
fn created_chunk_holds_default_voxels() {
    let mut world = World::new();
    let region: ChunkCoord = GlobalCoord::new(0, 0, 0).into();
    world.create_chunk(&region);
    assert_eq!(world.get_voxel(&GlobalCoord::new(1, 5, 3)).unwrap(), Voxel(0));
}

#[test]
fn set_voxel_value_round_trip() {
    let mut world = World::new();
    let region: ChunkCoord = GlobalCoord::new(0, 0, 0).into();
    world.create_chunk(&region);
    let position = GlobalCoord::new(1, 5, 3);
    world.set_voxel(&position, Voxel::new(7)).unwrap();
    assert_eq!(world.get_voxel(&position).unwrap(), Voxel(7));
    assert_eq!(world.get_voxel(&GlobalCoord::new(1, 5, 4)).unwrap(), Voxel(0));
}

#[test]
fn negative_coordinates_round_trip() {
    let mut world = World::new();
    let region: ChunkCoord = GlobalCoord::new(-1, -1, -1).into();
    assert_eq!(region, ChunkCoord::new(-1, -1, -1));
    world.create_chunk(&region);
    let position = GlobalCoord::new(-1, -1, -1);
    world.set_voxel(&position, Voxel::new(3)).unwrap();
    assert_eq!(world.get_voxel(&position).unwrap(), Voxel(3));
    assert_eq!(world.get_voxel(&GlobalCoord::new(-32, -32, -32)).unwrap(), Voxel(0));
}

#[test]
fn create_chunk_overwrites_existing_chunk() {
    let mut world = World::new();
    let region = ChunkCoord::new(0, 0, 0);
    world.create_chunk(&region);
    let position = GlobalCoord::new(1, 5, 3);
    world.set_voxel(&position, Voxel::new(7)).unwrap();
    world.create_chunk(&region);
    assert_eq!(world.get_voxel(&position).unwrap(), Voxel(0));
}

#[test]
fn set_chunk_installs_given_chunk() {
    let mut world = World::new();
    let mut chunk = Chunk::new();
    chunk
        .set_voxel(&LocalCoord::new(1, 5, 3), Voxel::new(7))
        .unwrap();
    world.set_chunk(&ChunkCoord::new(0, 0, 0), chunk);
    assert_eq!(world.get_voxel(&GlobalCoord::new(1, 5, 3)).unwrap(), Voxel(7));
}

#[test]
fn default_world_is_empty() {
    let world = World::default();
    let position = GlobalCoord::new(0, 0, 0);
    assert!(world.get_voxel(&position).is_err());
}
