use minecone::block::{
    num_textures, Air, Block, BlockFace, BlockFaceMesh, BlockTrait, BlockType, BlockVertex, Dirt, Grass,
    OcclusionCorners, RockyDirt, Stone, TestBlock,
};
use minecone::types::{Axis, BlockPos, Position};

const U: i64 = 65536;

#[test]
fn faces_come_in_index_order() {
    let mut faces = BlockFace::iter();
    let mut seen = Vec::new();
    while let Some(face) = faces.next() {
        seen.push(face);
    }
    assert_eq!(
        seen,
        vec![BlockFace::XPos, BlockFace::XNeg, BlockFace::YPos, BlockFace::YNeg, BlockFace::ZPos, BlockFace::ZNeg]
    );
    assert_eq!(faces.next(), None);
    assert_eq!(faces.next(), None);
    for (i, face) in seen.iter().enumerate() {
        assert_eq!(face.index(), i);
        assert_eq!(usize::from(*face), i);
    }
}

#[test]
fn faces_from_axes() {
    assert_eq!(BlockFace::from_axis(Axis::X, true), BlockFace::XPos);
    assert_eq!(BlockFace::from_axis(Axis::X, false), BlockFace::XNeg);
    assert_eq!(BlockFace::from_axis(Axis::Y, true), BlockFace::YPos);
    assert_eq!(BlockFace::from_axis(Axis::Y, false), BlockFace::YNeg);
    assert_eq!(BlockFace::from_axis(Axis::Z, true), BlockFace::ZPos);
    assert_eq!(BlockFace::from_axis(Axis::Z, false), BlockFace::ZNeg);
    assert_eq!(BlockFace::ZNeg.axis(), Axis::Z);
}

#[test]
fn face_offsets_and_signs() {
    assert_eq!(BlockFace::XPos.block_pos_offset(), BlockPos::new(1, 0, 0));
    assert_eq!(BlockFace::XNeg.block_pos_offset(), BlockPos::new(-1, 0, 0));
    assert_eq!(BlockFace::YPos.block_pos_offset(), BlockPos::new(0, 1, 0));
    assert_eq!(BlockFace::YNeg.block_pos_offset(), BlockPos::new(0, -1, 0));
    assert_eq!(BlockFace::ZPos.block_pos_offset(), BlockPos::new(0, 0, 1));
    assert_eq!(BlockFace::ZNeg.block_pos_offset(), BlockPos::new(0, 0, -1));
    assert!(BlockFace::XPos.is_positive_face());
    assert!(BlockFace::YPos.is_positive_face());
    assert!(!BlockFace::ZNeg.is_positive_face());
    assert!(BlockFace::ZNeg.is_negative_face());
    assert!(!BlockFace::ZPos.is_negative_face());
}

#[test]
fn occlusion_corners_by_name() {
    let corners = OcclusionCorners { tl: 1, tr: 2, bl: 3, br: 0 };
    assert_eq!(corners.pos_corner(), 2);
    assert_eq!(corners.neg_corner(), 3);
    assert_eq!(corners.xpos_yneg_corner(), 0);
    assert_eq!(corners.xneg_ypos_corner(), 1);
}

#[test]
fn vertices_are_shaded_by_occlusion_level() {
    let position = Position::new(U, 2 * U, 3 * U);
    let normal = BlockPos::new(0, 1, 0);
    let shades = [100u8, 80, 60, 40];
    for level in 0..4u8 {
        let vertex = BlockVertex::new(position, normal, 3, level);
        assert_eq!(vertex.position, position);
        assert_eq!(vertex.normal, normal);
        assert_eq!(vertex.texture_index, 3);
        assert_eq!(vertex.color, [shades[level as usize]; 3]);
    }
}

#[test]
fn quad_from_corners_on_the_top_face() {
    let occlusion = OcclusionCorners { tl: 0, tr: 1, bl: 2, br: 3 };
    let quad = BlockFaceMesh::from_corners(BlockFace::YPos, 2, BlockPos::new(0, 0, 3), BlockPos::new(2, 0, 0), occlusion);
    let normal = BlockPos::new(0, 1, 0);
    // top left: the block's corner plus (0, 1, 1); bottom right: plus (1, 1, 0)
    assert_eq!(quad.0[0], BlockVertex::new(Position::new(0, U, 4 * U), normal, 2, 0));
    assert_eq!(quad.0[1], BlockVertex::new(Position::new(0, U, 0), normal, 2, 2));
    assert_eq!(quad.0[2], BlockVertex::new(Position::new(3 * U, U, 0), normal, 2, 3));
    assert_eq!(quad.0[3], BlockVertex::new(Position::new(3 * U, U, 4 * U), normal, 2, 1));
}

#[test]
fn quads_from_cube_corners_lie_on_their_face() {
    let neg = BlockPos::new(1, 2, 3);
    let pos = BlockPos::new(1, 2, 5);
    let occlusion = OcclusionCorners { tl: 0, tr: 1, bl: 2, br: 3 };
    for (face, axis, plane) in [
        (BlockFace::XPos, Axis::X, 2 * U),
        (BlockFace::XNeg, Axis::X, U),
        (BlockFace::YPos, Axis::Y, 3 * U),
        (BlockFace::YNeg, Axis::Y, 2 * U),
        (BlockFace::ZPos, Axis::Z, 6 * U),
        (BlockFace::ZNeg, Axis::Z, 3 * U),
    ] {
        let quad = BlockFaceMesh::from_cube_corners(face, 1, neg, pos, occlusion);
        for vertex in quad.0.iter() {
            assert_eq!(vertex.position.component(axis), plane);
            assert_eq!(vertex.normal, face.block_pos_offset());
            assert_eq!(vertex.texture_index, 1);
        }
    }
}

#[test]
fn quad_from_cube_corners_on_the_positive_x_face() {
    let occlusion = OcclusionCorners { tl: 0, tr: 1, bl: 2, br: 3 };
    let quad = BlockFaceMesh::from_cube_corners(BlockFace::XPos, 4, BlockPos::new(0, 0, 0), BlockPos::new(0, 0, 2), occlusion);
    let normal = BlockPos::new(1, 0, 0);
    // seen from +x: top left is the corner with large y and small z
    assert_eq!(quad.0[0], BlockVertex::new(Position::new(U, U, 0), normal, 4, 3));
    assert_eq!(quad.0[1], BlockVertex::new(Position::new(U, 0, 0), normal, 4, 2));
    assert_eq!(quad.0[2], BlockVertex::new(Position::new(U, 0, 3 * U), normal, 4, 0));
    assert_eq!(quad.0[3], BlockVertex::new(Position::new(U, U, 3 * U), normal, 4, 1));
}

#[test]
fn quad_indices_make_two_triangles() {
    assert_eq!(BlockFaceMesh::indicies(), [0, 2, 1, 2, 0, 3]);
}

#[test]
fn block_names_and_translucency() {
    assert_eq!(Air::new().name(), "air");
    assert_eq!(TestBlock::new().name(), "test block");
    assert_eq!(Dirt::new().name(), "dirt");
    assert_eq!(Grass::new().name(), "grass");
    assert_eq!(Stone::new().name(), "stone");
    assert_eq!(RockyDirt::new().name(), "rocky dirt");
    assert!(Air::new().is_translucent());
    assert!(TestBlock::new().is_translucent());
    assert!(!Dirt::new().is_translucent());
    assert!(!Grass::new().is_translucent());
    assert!(!Stone::new().is_translucent());
    assert!(!RockyDirt::new().is_translucent());
    let block: Block = Stone::new().into();
    assert_eq!(block.name(), "stone");
    assert!(!block.is_translucent());
    assert!(Block::from(Air::new()).is_translucent());
}

#[test]
fn texture_indices_follow_the_textured_kinds() {
    assert_eq!(num_textures(), 5);
    assert_eq!(Block::from(TestBlock::new()).texture_index(), Some(0));
    assert_eq!(Block::from(Dirt::new()).texture_index(), Some(1));
    assert_eq!(Block::from(Grass::new()).texture_index(), Some(2));
    assert_eq!(Block::from(Stone::new()).texture_index(), Some(3));
    assert_eq!(Block::from(RockyDirt::new()).texture_index(), Some(4));
    assert_eq!(Block::from(Air::new()).texture_index(), None);
}

#[test]
fn block_types_and_air() {
    assert!(Block::from(Air::new()).is_air());
    assert!(!Block::from(Dirt::new()).is_air());
    assert_eq!(Block::from(Air::new()).block_type(), BlockType::Air);
    assert_eq!(Block::from(Grass::new()).block_type(), BlockType::Grass);
    assert_eq!(BlockType::Air.index(), 5);
    assert_eq!(BlockType::TestBlock.index(), 0);
}
