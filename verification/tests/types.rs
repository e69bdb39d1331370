use minecone::block::BlockFace;
use minecone::types::{
    floor_div_i32, floor_div_i64, floor_mod_i32, floor_mod_i64, truncated_div_i32, Axis, BlockPos, ChunkPos, Position,
    VecExt, CHUNK_SIZE, POSITION_UNITS,
};

#[test]
fn chunk_size_is_32() {
    assert_eq!(CHUNK_SIZE, 32);
    assert_eq!(POSITION_UNITS, 65536);
}

#[test]
fn floor_division_rounds_down() {
    assert_eq!(floor_div_i32(0, 32), 0);
    assert_eq!(floor_div_i32(31, 32), 0);
    assert_eq!(floor_div_i32(32, 32), 1);
    assert_eq!(floor_div_i32(-1, 32), -1);
    assert_eq!(floor_div_i32(-32, 32), -1);
    assert_eq!(floor_div_i32(-33, 32), -2);
    assert_eq!(floor_div_i32(i32::MIN, 32), -67108864);
    assert_eq!(floor_div_i32(i32::MAX, 32), 67108863);
    assert_eq!(floor_div_i64(-1, 65536), -1);
    assert_eq!(floor_div_i64(65535, 65536), 0);
    assert_eq!(floor_div_i64(i64::MIN, 65536), -140737488355328);
}

#[test]
fn floor_remainder_is_never_negative() {
    assert_eq!(floor_mod_i32(0, 32), 0);
    assert_eq!(floor_mod_i32(33, 32), 1);
    assert_eq!(floor_mod_i32(-1, 32), 31);
    assert_eq!(floor_mod_i32(-32, 32), 0);
    assert_eq!(floor_mod_i32(-33, 32), 31);
    assert_eq!(floor_mod_i32(i32::MIN, 32), 0);
    assert_eq!(floor_mod_i64(-1, 65536), 65535);
    assert_eq!(floor_mod_i64(-65536, 65536), 0);
}

#[test]
fn chunk_to_block_and_back_is_the_same_chunk() {
    for &c in &[
        ChunkPos::new(0, 0, 0),
        ChunkPos::new(1, 2, 3),
        ChunkPos::new(-1, -2, -3),
        ChunkPos::new(-67108864, 67108863, -5),
    ] {
        let block = c.as_block_pos();
        assert_eq!(block, BlockPos::new(c.x * 32, c.y * 32, c.z * 32));
        assert_eq!(ChunkPos::from(block), c);
        assert_eq!(block.as_chunk_pos(), c);
        assert_eq!(block.as_chunk_local(), BlockPos::new(0, 0, 0));
    }
}

#[test]
fn chunk_of_negative_blocks() {
    assert_eq!(ChunkPos::from(BlockPos::new(-1, -32, -33)), ChunkPos::new(-1, -1, -2));
    assert_eq!(ChunkPos::from(BlockPos::new(31, 32, 63)), ChunkPos::new(0, 1, 1));
    assert_eq!(ChunkPos::from(BlockPos::new(i32::MIN, i32::MAX, 0)), ChunkPos::new(-67108864, 67108863, 0));
}

#[test]
fn chunk_local_lies_in_the_chunk_and_rebuilds_the_block() {
    for &p in &[
        BlockPos::new(0, 0, 0),
        BlockPos::new(31, 32, 33),
        BlockPos::new(-1, -32, -33),
        BlockPos::new(i32::MIN, i32::MAX, -1000),
        BlockPos::new(288, 5, -7),
    ] {
        let (chunk, local) = p.as_chunk_block_pos();
        assert!(local.is_chunk_local());
        assert_eq!(local, p.as_chunk_local());
        assert_eq!(chunk, p.as_chunk_pos());
        assert_eq!(chunk.as_block_pos() + local, p);
    }
    assert_eq!(BlockPos::new(-1, -32, -33).as_chunk_local(), BlockPos::new(31, 0, 31));
}

#[test]
fn is_chunk_local_at_the_edges() {
    assert!(BlockPos::new(0, 0, 0).is_chunk_local());
    assert!(BlockPos::new(31, 31, 31).is_chunk_local());
    assert!(!BlockPos::new(32, 0, 0).is_chunk_local());
    assert!(!BlockPos::new(0, -1, 0).is_chunk_local());
    assert!(!BlockPos::new(0, 0, 32).is_chunk_local());
}

#[test]
fn as_indicies_needs_coordinates_that_are_not_negative() {
    assert_eq!(BlockPos::new(1, 2, 3).as_indicies(), Some((1, 2, 3)));
    assert_eq!(BlockPos::new(0, 0, 0).as_indicies(), Some((0, 0, 0)));
    assert_eq!(BlockPos::new(-1, 2, 3).as_indicies(), None);
    assert_eq!(BlockPos::new(1, -2, 3).as_indicies(), None);
    assert_eq!(BlockPos::new(1, 2, -3).as_indicies(), None);
}

#[test]
fn face_component_picks_the_axis_of_the_face() {
    let p = BlockPos::new(1, 2, 3);
    assert_eq!(p.get_face_component(BlockFace::XPos), 1);
    assert_eq!(p.get_face_component(BlockFace::XNeg), 1);
    assert_eq!(p.get_face_component(BlockFace::YPos), 2);
    assert_eq!(p.get_face_component(BlockFace::YNeg), 2);
    assert_eq!(p.get_face_component(BlockFace::ZPos), 3);
    assert_eq!(p.get_face_component(BlockFace::ZNeg), 3);
}

#[test]
fn positions_floor_to_blocks_and_chunks() {
    let half = POSITION_UNITS / 2;
    assert_eq!(Position::new(half, half, half).as_block_pos(), BlockPos::new(0, 0, 0));
    assert_eq!(Position::new(-1, 0, POSITION_UNITS).as_block_pos(), BlockPos::new(-1, 0, 1));
    assert_eq!(Position::new(-POSITION_UNITS, -POSITION_UNITS - 1, 0).as_block_pos(), BlockPos::new(-1, -2, 0));
    assert_eq!(Position::new(32 * POSITION_UNITS, -1, 0).as_chunk_pos(), ChunkPos::new(1, -1, 0));
    assert_eq!(Position::new(i64::MAX, i64::MIN, 0).as_block_pos(), BlockPos::new(i32::MAX, i32::MIN, 0));
    assert_eq!(BlockPos::from(Position::new(3 * POSITION_UNITS + 7, 0, 0)), BlockPos::new(3, 0, 0));
    assert_eq!(ChunkPos::from(Position::new(0, 0, -1)), ChunkPos::new(0, 0, -1));
}

#[test]
fn blocks_and_chunks_as_positions() {
    assert_eq!(BlockPos::new(1, -2, 3).as_position(), Position::new(65536, -131072, 196608));
    assert_eq!(ChunkPos::new(1, -1, 0).as_position(), Position::new(32 * 65536, -32 * 65536, 0));
    assert_eq!(
        BlockPos::new(i32::MIN, i32::MAX, 0).as_position(),
        Position::new(i32::MIN as i64 * 65536, i32::MAX as i64 * 65536, 0)
    );
}

#[test]
fn vector_arithmetic() {
    assert_eq!(ChunkPos::new(1, 2, 3) + ChunkPos::new(10, 20, 30), ChunkPos::new(11, 22, 33));
    assert_eq!(ChunkPos::new(1, 2, 3) - ChunkPos::new(10, 20, 30), ChunkPos::new(-9, -18, -27));
    assert_eq!(ChunkPos::new(1, -2, 3) * 4, ChunkPos::new(4, -8, 12));
    assert_eq!(2 * ChunkPos::new(10, 5, 10), ChunkPos::new(20, 10, 20));
    assert_eq!(BlockPos::new(1, 2, 3) + BlockPos::new(1, 1, 1), BlockPos::new(2, 3, 4));
    assert_eq!(BlockPos::new(1, 2, 3) - BlockPos::new(1, 1, 1), BlockPos::new(0, 1, 2));
    assert_eq!(BlockPos::new(1, 2, 3) * -1, BlockPos::new(-1, -2, -3));
    assert_eq!(3 * BlockPos::new(1, 2, 3), BlockPos::new(3, 6, 9));
    assert_eq!(Position::new(1, 2, 3) + Position::new(4, 5, 6), Position::new(5, 7, 9));
    assert_eq!(Position::new(1, 2, 3) - Position::new(4, 5, 6), Position::new(-3, -3, -3));
    assert_eq!(ChunkPos::splat(8), ChunkPos::new(8, 8, 8));
}

#[test]
fn only_methods_keep_the_named_coordinates() {
    let c = ChunkPos::new(1, 2, 3);
    assert_eq!(c.xonly(), ChunkPos::new(1, 0, 0));
    assert_eq!(c.yonly(), ChunkPos::new(0, 2, 0));
    assert_eq!(c.zonly(), ChunkPos::new(0, 0, 3));
    assert_eq!(c.xyonly(), ChunkPos::new(1, 2, 0));
    assert_eq!(c.yzonly(), ChunkPos::new(0, 2, 3));
    assert_eq!(c.xzonly(), ChunkPos::new(1, 0, 3));
    assert_eq!(c.axis_only(Axis::Y), ChunkPos::new(0, 2, 0));
    assert_eq!(c.all_but_axis(Axis::Y), ChunkPos::new(1, 0, 3));
    let b = BlockPos::new(4, 5, 6);
    assert_eq!(b.xonly(), BlockPos::new(4, 0, 0));
    assert_eq!(b.yzonly(), BlockPos::new(0, 5, 6));
    assert_eq!(b.axis_only(Axis::Z), BlockPos::new(0, 0, 6));
    assert_eq!(b.all_but_axis(Axis::X), BlockPos::new(0, 5, 6));
    let p = Position::new(7, 8, 9);
    assert_eq!(p.zonly(), Position::new(0, 0, 9));
    assert_eq!(p.xyonly(), Position::new(7, 8, 0));
    assert_eq!(p.axis_only(Axis::X), Position::new(7, 0, 0));
    assert_eq!(p.all_but_axis(Axis::Z), Position::new(7, 8, 0));
}

#[test]
fn axes_and_components() {
    assert_eq!(Axis::X.index(), 0);
    assert_eq!(Axis::Y.index(), 1);
    assert_eq!(Axis::Z.index(), 2);
    assert_eq!(ChunkPos::axis(Axis::X), ChunkPos::new(1, 0, 0));
    assert_eq!(ChunkPos::axis(Axis::Z), ChunkPos::new(0, 0, 1));
    assert_eq!(ChunkPos::new(1, 2, 3).component(Axis::Y), 2);
    assert_eq!(ChunkPos::new(1, 2, 3).with_component(Axis::Y, 9), ChunkPos::new(1, 9, 3));
    assert_eq!(BlockPos::new(1, 2, 3).component(Axis::Z), 3);
    assert_eq!(Position::new(1, 2, 3).with_component(Axis::X, -1), Position::new(-1, 2, 3));
    assert_eq!(ChunkPos::new(1, -2, 3).key(), (1, -2, 3));
    assert_eq!(ChunkPos::from_key((1, -2, 3)), ChunkPos::new(1, -2, 3));
}

#[test]
fn division_rounds_toward_zero() {
    assert_eq!(truncated_div_i32(7, 2), 3);
    assert_eq!(truncated_div_i32(-7, 2), -3);
    assert_eq!(truncated_div_i32(7, -2), -3);
    assert_eq!(truncated_div_i32(-7, -2), 3);
    assert_eq!(truncated_div_i32(i32::MIN, 1), i32::MIN);
    assert_eq!(truncated_div_i32(i32::MIN, 2), -1073741824);
    assert_eq!(truncated_div_i32(i32::MAX, -1), -i32::MAX);
    assert_eq!(ChunkPos::new(7, -7, 0) / 2, ChunkPos::new(3, -3, 0));
    assert_eq!(BlockPos::new(-9, 9, 1) / -3, BlockPos::new(3, -3, 0));
}

#[test]
fn map_changes_each_coordinate() {
    assert_eq!(ChunkPos::new(1, -2, 3).map(|c| c * 2), ChunkPos::new(2, -4, 6));
    assert_eq!(BlockPos::new(1, -2, 3).map(|c| -c), BlockPos::new(-1, 2, -3));
    assert_eq!(Position::new(1, -2, 3).map(|c| c + 10), Position::new(11, 8, 13));
    assert_eq!(<ChunkPos as VecExt<i32>>::axis(Axis::Y), ChunkPos::new(0, 1, 0));
    assert_eq!(<BlockPos as VecExt<i32>>::axis(Axis::Z), BlockPos::new(0, 0, 1));
    assert_eq!(<Position as VecExt<i64>>::axis(Axis::X), Position::new(POSITION_UNITS, 0, 0));
}
