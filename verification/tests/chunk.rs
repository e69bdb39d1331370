use dashmap::DashMap;
use minecone::block::{Air, Block, BlockFace, BlockFaceMesh, BlockVertex, Dirt, OcclusionCorners, Stone};
use minecone::chunk::{vertex_occlusion_level, Chunk, LoadedChunk, VisitedBlockMap};
use minecone::chunk_map::ChunkMap;
use minecone::types::{BlockPos, ChunkPos, Position};
use rustc_hash::FxBuildHasher;

const U: i64 = 65536;

fn air() -> Block {
    Block::from(Air::new())
}

fn stone() -> Block {
    Block::from(Stone::new())
}

fn no_neighbors() -> ChunkMap {
    DashMap::with_hasher(FxBuildHasher)
}

/// A chunk at `position` whose lowest layer is stone, with air above.
fn slab(position: ChunkPos) -> Chunk {
    let lowest = position.y * 32;
    Chunk::new(position, move |block: BlockPos| if block.y == lowest { stone() } else { air() })
}

#[test]
fn new_chunk_asks_for_each_block_by_its_global_position() {
    let chunk = Chunk::new(ChunkPos::new(1, -1, 2), |block: BlockPos| {
        if block == BlockPos::new(32 + 3, -32 + 4, 64 + 5) {
            stone()
        } else {
            air()
        }
    });
    assert_eq!(chunk.chunk_position, ChunkPos::new(1, -1, 2));
    assert_eq!(chunk.block_position, BlockPos::new(32, -32, 64));
    assert_eq!(chunk.position, Position::new(32 * U, -32 * U, 64 * U));
    assert_eq!(chunk.get_block(BlockPos::new(3, 4, 5)), stone());
    assert_eq!(chunk.get_block(BlockPos::new(5, 4, 3)), air());
    assert_eq!(chunk.get_block(BlockPos::new(0, 0, 0)), air());
    assert_eq!(chunk.get_chunk_mesh(), Some(Vec::new()));
}

#[test]
fn set_block_changes_one_block() {
    let mut chunk = slab(ChunkPos::new(0, 0, 0));
    chunk.set_block(BlockPos::new(1, 2, 3), Block::from(Dirt::new()));
    assert_eq!(chunk.get_block(BlockPos::new(1, 2, 3)), Block::from(Dirt::new()));
    assert_eq!(chunk.get_block(BlockPos::new(1, 2, 4)), air());
    assert_eq!(chunk.get_block(BlockPos::new(1, 0, 3)), stone());
}

#[test]
fn get_block_mut_gives_the_place_of_a_block() {
    let mut chunk = slab(ChunkPos::new(0, 0, 0));
    assert_eq!(*chunk.get_block_mut(BlockPos::new(1, 0, 3)), stone());
    *chunk.get_block_mut(BlockPos::new(1, 0, 3)) = air();
    assert_eq!(chunk.get_block(BlockPos::new(1, 0, 3)), air());
    assert_eq!(chunk.get_block(BlockPos::new(1, 0, 4)), stone());
}

#[test]
fn with_block_looks_into_neighbors() {
    let chunk = slab(ChunkPos::new(0, 0, 0));
    let neighbors = no_neighbors();
    assert_eq!(chunk.with_block(&neighbors, BlockPos::new(4, 0, 4)), Some(stone()));
    assert_eq!(chunk.with_block(&neighbors, BlockPos::new(32, 0, 4)), None);
    assert_eq!(chunk.with_block(&neighbors, BlockPos::new(4, -1, 4)), None);
    neighbors.insert((1, 0, 0), LoadedChunk::new(slab(ChunkPos::new(1, 0, 0))));
    assert_eq!(chunk.with_block(&neighbors, BlockPos::new(32, 0, 4)), Some(stone()));
    assert_eq!(chunk.with_block(&neighbors, BlockPos::new(63, 1, 4)), Some(air()));
    assert_eq!(chunk.with_block(&neighbors, BlockPos::new(64, 0, 4)), None);
    assert_eq!(chunk.with_block(&neighbors, BlockPos::new(-1, 0, 4)), None);
}

#[test]
fn load_count_goes_up_and_down() {
    let mut loaded = LoadedChunk::new(slab(ChunkPos::new(0, 0, 0)));
    assert_eq!(loaded.get_load_count(), 0);
    loaded.inc_load_count();
    loaded.inc_load_count();
    assert_eq!(loaded.get_load_count(), 2);
    assert_eq!(loaded.dec_load_count(), 1);
    assert_eq!(loaded.dec_load_count(), 0);
    assert_eq!(loaded.get_load_count(), 0);
}

#[test]
fn diagonal_occluders_score_three() {
    assert_eq!(vertex_occlusion_level(true, false, false, true), 3);
    assert_eq!(vertex_occlusion_level(false, true, true, false), 3);
}

#[test]
fn occlusion_level_counts_occluders() {
    assert_eq!(vertex_occlusion_level(false, false, false, false), 0);
    assert_eq!(vertex_occlusion_level(true, false, false, false), 1);
    assert_eq!(vertex_occlusion_level(false, false, false, true), 1);
    assert_eq!(vertex_occlusion_level(true, true, false, false), 2);
    assert_eq!(vertex_occlusion_level(true, false, true, false), 2);
    assert_eq!(vertex_occlusion_level(false, true, false, true), 2);
    assert_eq!(vertex_occlusion_level(true, true, true, false), 3);
    assert_eq!(vertex_occlusion_level(true, true, true, true), 3);
}

#[test]
fn flat_slab_gets_one_quad_for_each_row_of_its_top() {
    let mut chunk = slab(ChunkPos::new(0, 0, 0));
    let neighbors = no_neighbors();
    let mut visit_map = VisitedBlockMap::new();
    chunk.mesh_update_inner(BlockFace::YPos, 0, &mut visit_map, &neighbors);
    let quads = &chunk.chunk_mesh[BlockFace::YPos.index()][0];
    assert_eq!(quads.len(), 32);
    let normal = BlockPos::new(0, 1, 0);
    for (row, quad) in quads.iter().enumerate() {
        let x = row as i64;
        // each quad covers its row from edge to edge
        assert_eq!(quad.0[0], BlockVertex::new(Position::new(x * U, U, 32 * U), normal, 3, 0));
        assert_eq!(quad.0[1], BlockVertex::new(Position::new(x * U, U, 0), normal, 3, 0));
        assert_eq!(quad.0[2], BlockVertex::new(Position::new((x + 1) * U, U, 0), normal, 3, 0));
        assert_eq!(quad.0[3], BlockVertex::new(Position::new((x + 1) * U, U, 32 * U), normal, 3, 0));
        assert_eq!(
            *quad,
            BlockFaceMesh::from_cube_corners(
                BlockFace::YPos,
                3,
                BlockPos::new(row as i32, 0, 0),
                BlockPos::new(row as i32, 0, 31),
                OcclusionCorners { tl: 0, tr: 0, bl: 0, br: 0 },
            )
        );
    }
    assert_eq!(visit_map.face, BlockFace::YPos);
    assert_eq!(visit_map.coord3, 0);
    // all cells are marked but those that start a run
    for row in 0..32 {
        assert!(!visit_map.visited_blocks[row][0]);
        for cell in 1..32 {
            assert!(visit_map.visited_blocks[row][cell]);
        }
    }
    for x in 0..33 {
        for y in 0..33 {
            assert_eq!(visit_map.vertex_occlusion[x][y], 0);
        }
    }
}

#[test]
fn quads_are_placed_by_the_global_position_of_the_chunk() {
    let mut chunk = slab(ChunkPos::new(2, -1, 0));
    let neighbors = no_neighbors();
    let mut visit_map = VisitedBlockMap::new();
    chunk.mesh_update_inner(BlockFace::YPos, 0, &mut visit_map, &neighbors);
    let quads = &chunk.chunk_mesh[BlockFace::YPos.index()][0];
    assert_eq!(quads.len(), 32);
    assert_eq!(quads[0].0[1].position, Position::new(64 * U, -31 * U, 0));
    assert_eq!(quads[31].0[3].position, Position::new(96 * U, -31 * U, 32 * U));
}

#[test]
fn hidden_and_unknown_faces_get_no_quads() {
    let mut chunk = slab(ChunkPos::new(0, 0, 0));
    let neighbors = no_neighbors();
    let mut visit_map = VisitedBlockMap::new();
    // air has no faces
    chunk.mesh_update_inner(BlockFace::YPos, 5, &mut visit_map, &neighbors);
    assert_eq!(chunk.chunk_mesh[BlockFace::YPos.index()][5].len(), 0);
    // the chunk below is not loaded
    chunk.mesh_update_inner(BlockFace::YNeg, 0, &mut visit_map, &neighbors);
    assert_eq!(chunk.chunk_mesh[BlockFace::YNeg.index()][0].len(), 0);
    // stone next to stone
    chunk.mesh_update_inner(BlockFace::XPos, 3, &mut visit_map, &neighbors);
    assert_eq!(chunk.chunk_mesh[BlockFace::XPos.index()][3].len(), 0);
    // the chunk beside is not loaded
    chunk.mesh_update_inner(BlockFace::XPos, 31, &mut visit_map, &neighbors);
    assert_eq!(chunk.chunk_mesh[BlockFace::XPos.index()][31].len(), 0);
}

#[test]
fn faces_toward_a_loaded_neighbor_are_drawn() {
    let mut chunk = slab(ChunkPos::new(0, 0, 0));
    let neighbors = no_neighbors();
    neighbors.insert(
        (1, 0, 0),
        LoadedChunk::new(Chunk::new(ChunkPos::new(1, 0, 0), |_block: BlockPos| air())),
    );
    let mut visit_map = VisitedBlockMap::new();
    chunk.mesh_update_inner(BlockFace::XPos, 31, &mut visit_map, &neighbors);
    let quads = &chunk.chunk_mesh[BlockFace::XPos.index()][31];
    // only the row of the stone layer has faces, and they merge into one quad
    assert_eq!(quads.len(), 1);
    assert_eq!(
        quads[0],
        BlockFaceMesh::from_cube_corners(
            BlockFace::XPos,
            3,
            BlockPos::new(31, 0, 0),
            BlockPos::new(31, 0, 31),
            OcclusionCorners { tl: 0, tr: 0, bl: 0, br: 0 },
        )
    );
}

#[test]
fn rebuilding_an_unchanged_slice_gives_the_same_quads() {
    let mut chunk = slab(ChunkPos::new(0, 0, 0));
    chunk.set_block(BlockPos::new(5, 1, 5), stone());
    chunk.set_block(BlockPos::new(9, 0, 9), Block::from(Dirt::new()));
    let neighbors = no_neighbors();
    let mut visit_map = VisitedBlockMap::new();
    chunk.mesh_update_inner(BlockFace::YPos, 0, &mut visit_map, &neighbors);
    let first = chunk.chunk_mesh[BlockFace::YPos.index()][0].clone();
    chunk.mesh_update_inner(BlockFace::XNeg, 7, &mut visit_map, &neighbors);
    chunk.mesh_update_inner(BlockFace::YPos, 0, &mut visit_map, &neighbors);
    let second = chunk.chunk_mesh[BlockFace::YPos.index()][0].clone();
    assert!(!first.is_empty());
    assert_eq!(first, second);
}

#[test]
fn a_block_on_the_slab_shades_and_splits_the_rows_around_it() {
    let mut chunk = slab(ChunkPos::new(0, 0, 0));
    chunk.set_block(BlockPos::new(5, 1, 5), stone());
    let neighbors = no_neighbors();
    let mut visit_map = VisitedBlockMap::new();
    chunk.mesh_update_inner(BlockFace::YPos, 0, &mut visit_map, &neighbors);
    let quads = &chunk.chunk_mesh[BlockFace::YPos.index()][0];
    // 29 rows of one quad, 5 quads in each row beside the block, 4 in its own
    assert_eq!(quads.len(), 29 + 5 + 4 + 5);
    // rows 0 to 3 are not touched
    for row in 0..4 {
        assert_eq!(quads[row].0[2].position, Position::new((row as i64 + 1) * U, U, 0));
        assert_eq!(quads[row].0[0].position, Position::new(row as i64 * U, U, 32 * U));
    }
    // row 4 starts with a run of four cells, then single cells beside the block
    assert_eq!(
        quads[4],
        BlockFaceMesh::from_cube_corners(
            BlockFace::YPos,
            3,
            BlockPos::new(4, 0, 0),
            BlockPos::new(4, 0, 3),
            OcclusionCorners { tl: 0, tr: 0, bl: 0, br: 0 },
        )
    );
    assert_eq!(
        quads[5],
        BlockFaceMesh::from_cube_corners(
            BlockFace::YPos,
            3,
            BlockPos::new(4, 0, 4),
            BlockPos::new(4, 0, 4),
            OcclusionCorners { tl: 0, tr: 1, bl: 0, br: 0 },
        )
    );
    assert_eq!(
        quads[6],
        BlockFaceMesh::from_cube_corners(
            BlockFace::YPos,
            3,
            BlockPos::new(4, 0, 5),
            BlockPos::new(4, 0, 5),
            OcclusionCorners { tl: 0, tr: 1, bl: 0, br: 1 },
        )
    );
    // the vertex levels that the mesher recorded around the block
    assert_eq!(visit_map.vertex_occlusion[5][5], 1);
    assert_eq!(visit_map.vertex_occlusion[6][6], 1);
    assert_eq!(visit_map.vertex_occlusion[5][6], 1);
    assert_eq!(visit_map.vertex_occlusion[6][5], 1);
    assert_eq!(visit_map.vertex_occlusion[4][4], 0);
    assert_eq!(visit_map.vertex_occlusion[7][7], 0);
}

#[test]
fn cells_of_different_kinds_do_not_merge() {
    let mut chunk = slab(ChunkPos::new(0, 0, 0));
    chunk.set_block(BlockPos::new(2, 0, 10), Block::from(Dirt::new()));
    let neighbors = no_neighbors();
    let mut visit_map = VisitedBlockMap::new();
    chunk.mesh_update_inner(BlockFace::YPos, 0, &mut visit_map, &neighbors);
    let quads = &chunk.chunk_mesh[BlockFace::YPos.index()][0];
    assert_eq!(quads.len(), 34);
    let flat = OcclusionCorners { tl: 0, tr: 0, bl: 0, br: 0 };
    assert_eq!(
        quads[2],
        BlockFaceMesh::from_cube_corners(BlockFace::YPos, 3, BlockPos::new(2, 0, 0), BlockPos::new(2, 0, 9), flat)
    );
    assert_eq!(
        quads[3],
        BlockFaceMesh::from_cube_corners(BlockFace::YPos, 1, BlockPos::new(2, 0, 10), BlockPos::new(2, 0, 10), flat)
    );
    assert_eq!(
        quads[4],
        BlockFaceMesh::from_cube_corners(BlockFace::YPos, 3, BlockPos::new(2, 0, 11), BlockPos::new(2, 0, 31), flat)
    );
}

#[test]
fn whole_chunk_mesh_is_the_slices_in_order() {
    let mut chunk = slab(ChunkPos::new(0, 0, 0));
    let neighbors = no_neighbors();
    chunk.chunk_mesh_update(&neighbors);
    // without neighbors only the top of the slab is drawn
    let mesh = chunk.get_chunk_mesh().unwrap();
    assert_eq!(mesh.len(), 32);
    assert_eq!(mesh, chunk.chunk_mesh[BlockFace::YPos.index()][0]);
    for face in 0..6 {
        for index in 0..32 {
            if face != BlockFace::YPos.index() || index != 0 {
                assert!(chunk.chunk_mesh[face][index].is_empty());
            }
        }
    }
}

#[test]
fn visited_block_map_names_cells_by_face() {
    let mut map = VisitedBlockMap::new();
    assert_eq!(map.face, BlockFace::XPos);
    assert_eq!(map.coord3, 0);
    map.set_face_coord(BlockFace::YNeg, 7);
    assert_eq!(map.get_block_pos(2, 3), BlockPos::new(2, 7, 3));
    assert_eq!(map.get_index(BlockPos::new(2, 7, 3)), (2, 3));
    assert_eq!(map.get_block_pos_offset(BlockPos::new(2, 7, 3), 1, 4), BlockPos::new(3, 7, 7));
    map.set_face_coord(BlockFace::XPos, 1);
    assert_eq!(map.get_block_pos(2, 3), BlockPos::new(1, 2, 3));
    map.set_face_coord(BlockFace::ZNeg, 9);
    assert_eq!(map.get_block_pos(2, 3), BlockPos::new(2, 3, 9));
    assert!(!map.is_visited(BlockPos::new(2, 3, 9)));
    map.set_visited(BlockPos::new(2, 3, 9), true);
    assert!(map.is_visited(BlockPos::new(2, 3, 9)));
    assert!(!map.is_visited(BlockPos::new(3, 2, 9)));
    map.set_occlusion_level(2, 3, 2);
    map.set_occlusion_level(3, 4, 1);
    assert_eq!(
        map.get_occlusion_data(BlockPos::new(2, 3, 9)),
        OcclusionCorners { tl: 0, tr: 1, bl: 2, br: 0 }
    );
    assert!(!map.occlusion_level_matches(BlockPos::new(2, 3, 9), BlockPos::new(10, 10, 9)));
    assert!(map.occlusion_level_matches(BlockPos::new(11, 10, 9), BlockPos::new(10, 10, 9)));
}
