use voxel_world::{
    ChunkCoord, ChunkCoordType, GlobalCoord, GlobalCoordType, LocalCoord, LocalCoordType,
};

#[test]
fn chunk_min_pos() {
    let expected = ChunkCoord {
        x: ChunkCoordType::MIN,
        y: ChunkCoordType::MIN,
        z: ChunkCoordType::MIN,
    };
    assert_eq!(expected, ChunkCoord::min());
    assert_eq!(expected.x, ChunkCoordType::MIN);
    assert_eq!(expected.y, ChunkCoordType::MIN);
    assert_eq!(expected.z, ChunkCoordType::MIN);
}

#[test]
fn chunk_max_pos() {
    let expected = ChunkCoord {
        x: ChunkCoordType::MAX,
        y: ChunkCoordType::MAX,
        z: ChunkCoordType::MAX,
    };
    assert_eq!(expected, ChunkCoord::max());
    assert_eq!(expected.x, ChunkCoordType::MAX);
    assert_eq!(expected.y, ChunkCoordType::MAX);
    assert_eq!(expected.z, ChunkCoordType::MAX);
}

#[test]
fn global_min_pos() {
    let expected = GlobalCoord {
        x: GlobalCoordType::MIN,
        y: GlobalCoordType::MIN,
        z: GlobalCoordType::MIN,
    };
    assert_eq!(expected, GlobalCoord::min());
    assert_eq!(expected.x, GlobalCoordType::MIN);
    assert_eq!(expected.y, GlobalCoordType::MIN);
    assert_eq!(expected.z, GlobalCoordType::MIN);
}

#[test]
fn global_max_pos() {
    let expected = GlobalCoord {
        x: GlobalCoordType::MAX,
        y: GlobalCoordType::MAX,
        z: GlobalCoordType::MAX,
    };
    assert_eq!(expected, GlobalCoord::max());
    assert_eq!(expected.x, GlobalCoordType::MAX);
    assert_eq!(expected.y, GlobalCoordType::MAX);
    assert_eq!(expected.z, GlobalCoordType::MAX);
}

#[test]
fn local_min_pos() {
    let expected = LocalCoord {
        x: LocalCoordType::MIN,
        y: LocalCoordType::MIN,
        z: LocalCoordType::MIN,
    };
    assert_eq!(expected, LocalCoord::min());
    assert_eq!(expected.x, LocalCoordType::MIN);
    assert_eq!(expected.y, LocalCoordType::MIN);
    assert_eq!(expected.z, LocalCoordType::MIN);
}

#[test]
fn local_max_pos() {
    let expected = LocalCoord {
        x: LocalCoordType::MAX,
        y: LocalCoordType::MAX,
        z: LocalCoordType::MAX,
    };
    assert_eq!(expected, LocalCoord::max());
    assert_eq!(expected.x, LocalCoordType::MAX);
    assert_eq!(expected.y, LocalCoordType::MAX);
    assert_eq!(expected.z, LocalCoordType::MAX);
}

#[test]
fn chunk_new_position() {
    let result = ChunkCoord::new(1, -2, 3);
    let expected = ChunkCoord { x: 1, y: -2, z: 3 };
    assert_eq!(result, expected);
}

#[test]
fn global_new_position() {
    let result = GlobalCoord::new(-7, 0, GlobalCoordType::MAX);
    let expected = GlobalCoord {
        x: -7,
        y: 0,
        z: GlobalCoordType::MAX,
    };
    assert_eq!(result, expected);
}

#[test]
fn local_new_position() {
    let result = LocalCoord::new(0, 17, 31);
    let expected = LocalCoord { x: 0, y: 17, z: 31 };
    assert_eq!(result, expected);
}

#[test]
fn chunk_from_global_origin() {
    let chunk: ChunkCoord = GlobalCoord::new(0, 31, 32).into();
    assert_eq!(chunk, ChunkCoord::new(0, 0, 1));
}

#[test]
fn chunk_from_global_negative_floors() {
    let chunk: ChunkCoord = GlobalCoord::new(-1, -32, -33).into();
    assert_eq!(chunk, ChunkCoord::new(-1, -1, -2));
}

#[test]
fn local_from_global_wraps() {
    let local: LocalCoord = GlobalCoord::new(0, 31, 33).into();
    assert_eq!(local, LocalCoord::new(0, 31, 1));
}

#[test]
fn local_from_global_negative_wraps() {
    let local: LocalCoord = GlobalCoord::new(-1, -32, -33).into();
    assert_eq!(local, LocalCoord::new(31, 0, 31));
}

#[test]
fn wrapped_position_within_chunk_bounds() {
    let samples = [
        GlobalCoord::new(0, 0, 0),
        GlobalCoord::new(1, 5, 3),
        GlobalCoord::new(-1, -32, -33),
        GlobalCoord::min(),
        GlobalCoord::max(),
    ];
    for global_position in samples {
        let local_position = LocalCoord::from(global_position);
        assert!(local_position.x < voxel_world::CHUNK_SIZE);
        assert!(local_position.y < voxel_world::CHUNK_SIZE);
        assert!(local_position.z < voxel_world::CHUNK_SIZE);
    }
}

#[test]
fn coordinate_roundtrip_per_axis() {
    let samples = [
        GlobalCoord::new(0, 1, 31),
        GlobalCoord::new(32, -1, -32),
        GlobalCoord::new(-33, 100, -100),
        GlobalCoord::min(),
        GlobalCoord::max(),
    ];
    let size = i64::from(voxel_world::CHUNK_SIZE);
    for global_position in samples {
        let chunk = ChunkCoord::from(global_position);
        let local = LocalCoord::from(global_position);
        assert_eq!(
            i64::from(chunk.x) * size + i64::from(local.x),
            i64::from(global_position.x)
        );
        assert_eq!(
            i64::from(chunk.y) * size + i64::from(local.y),
            i64::from(global_position.y)
        );
        assert_eq!(
            i64::from(chunk.z) * size + i64::from(local.z),
            i64::from(global_position.z)
        );
    }
}
