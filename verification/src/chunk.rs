//! A chunk of the world: a cube of blocks with the quads that draw it.

use array_init::array_init;
use vstd::prelude::*;

use crate::block::{Block, BlockFace, BlockFaceMesh, BlockTrait, OcclusionCorners};
use crate::chunk_map::{chunk_map_view, chunk_map_with, ChunkKey, ChunkMap};
use crate::slice::{
    cell_corners, cell_joins, cell_kind, cell_visible, face_visible, lemma_block_lookup_same_blocks,
    lemma_cell_corners_valid, lemma_visible_face_textured, occluded, occlusion_level, quad_matches, quads_match,
    row_quads, rows_quads, run_end, run_quad, run_starts, slice_block_pos, vertex_occlusion, BlockLookup, Quad,
};
use crate::types::{BlockPos, ChunkPos, Position};

verus! {

/// The blocks of a chunk, indexed by their chunk-local x, y and z.
pub type BlockArray = Box<[[[Block; 32]; 32]; 32]>;

/// The quads of a chunk: for each face and each slice along the face's
/// axis, the quads that draw that slice.
pub type MeshArray = Box<[[Vec<BlockFaceMesh>; 32]; 6]>;

/// Calls `array_init::array_init` once for each axis. It is taken to call
/// the initialiser with each index of the array and to store what the
/// initialiser returns at that index, so that the block at `[x][y][z]` is a
/// result of `f(x, y, z)`.
#[verifier::external_body]
fn block_array_from_fn<F: Fn(usize, usize, usize) -> Block>(f: F) -> (blocks: BlockArray)
    requires
        forall|x: usize, y: usize, z: usize| valid_indices(x, y, z) ==> f.requires((x, y, z)),
    ensures
        forall|x: usize, y: usize, z: usize|
            valid_indices(x, y, z) ==> f.ensures((x, y, z), #[trigger] blocks[x as int][y as int][z as int]),
{
    Box::new(array_init(|x| array_init(|y| array_init(|z| f(x, y, z)))))
}

/// Calls `array_init::array_init` for the faces and for the slices of each
/// face, with an initialiser that makes an empty list.
#[verifier::external_body]
fn empty_mesh_array() -> (mesh: MeshArray)
    ensures
        forall|face: int, index: int|
            0 <= face < 6 && 0 <= index < 32 ==> (#[trigger] mesh[face][index])@ == Seq::<BlockFaceMesh>::empty(),
{
    Box::new(array_init(|_| array_init(|_| Vec::new())))
}

/// Whether `[x][y][z]` is a place in a chunk's block array.
pub open spec fn valid_indices(x: usize, y: usize, z: usize) -> bool {
    x < 32 && y < 32 && z < 32
}

/// Global coordinates of the block at `[x][y][z]` of the chunk at `position`.
pub open spec fn spec_global_block_pos(position: ChunkPos, x: int, y: int, z: int) -> BlockPos {
    BlockPos {
        x: (position.x * 32 + x) as i32,
        y: (position.y * 32 + y) as i32,
        z: (position.z * 32 + z) as i32,
    }
}

/// Global coordinates of the block at `[x][y][z]` of the chunk at `position`.
fn global_block_pos(position: ChunkPos, x: usize, y: usize, z: usize) -> (block: BlockPos)
    requires
        position.in_block_range(),
        valid_indices(x, y, z),
    ensures
        block == spec_global_block_pos(position, x as int, y as int, z as int),
{
    let local = BlockPos::new(x as i32, y as i32, z as i32);
    local + position.as_block_pos()
}

/// A cube of `CHUNK_SIZE` blocks on each side, with its cached quads.
pub struct Chunk {
    /// Position of the corner with the smallest coordinates.
    pub position: Position,
    /// Coordinates of the chunk, in chunks.
    pub chunk_position: ChunkPos,
    /// Block coordinates of the block with the smallest coordinates.
    pub block_position: BlockPos,
    pub blocks: BlockArray,
    pub chunk_mesh: MeshArray,
}

impl Chunk {
    /// The three positions of the chunk agree, and its block coordinates fit
    /// in `i32`.
    pub open spec fn wf(&self) -> bool {
        &&& self.chunk_position.in_block_range()
        &&& self.block_position == self.chunk_position.spec_as_block_pos()
        &&& self.position == self.chunk_position.spec_as_position()
    }

    /// The block at a chunk-local position.
    pub open spec fn spec_get_block(&self, block: BlockPos) -> Block {
        self.blocks[block.x as int][block.y as int][block.z as int]
    }

    /// The quads of slice `index` of the face with index `face`.
    pub open spec fn slice(&self, face: int, index: int) -> Seq<BlockFaceMesh> {
        self.chunk_mesh[face][index]@
    }

    /// Makes the chunk at `position` and asks `block_fn` for each of its
    /// blocks, by the block's global coordinates. No quads are built yet.
    pub fn new<F: Fn(BlockPos) -> Block>(position: ChunkPos, block_fn: F) -> (chunk: Chunk)
        requires
            position.in_block_range(),
            forall|block: BlockPos| #[trigger] block_fn.requires((block,)),
        ensures
            chunk.wf(),
            chunk.chunk_position == position,
            forall|block: BlockPos|
                block.spec_is_chunk_local() ==> block_fn.ensures(
                    (spec_global_block_pos(position, block.x as int, block.y as int, block.z as int),),
                    #[trigger] chunk.spec_get_block(block),
                ),
            forall|face: int, index: int|
                0 <= face < 6 && 0 <= index < 32 ==> #[trigger] chunk.slice(face, index) == Seq::<
                    BlockFaceMesh,
                >::empty(),
    {
        let block_position = position.as_block_pos();
        let block_source = &block_fn;
        let block_at_indices = |x: usize, y: usize, z: usize| -> (block: Block)
            requires
                valid_indices(x, y, z),
            ensures
                block_source.ensures((spec_global_block_pos(position, x as int, y as int, z as int),), block),
            {
                block_source(global_block_pos(position, x, y, z))
            };
        let blocks = block_array_from_fn(block_at_indices);
        let chunk = Chunk {
            position: position.as_position(),
            chunk_position: position,
            block_position,
            blocks,
            chunk_mesh: empty_mesh_array(),
        };
        assert forall|block: BlockPos| block.spec_is_chunk_local() implies block_fn.ensures(
            (spec_global_block_pos(position, block.x as int, block.y as int, block.z as int),),
            #[trigger] chunk.spec_get_block(block),
        ) by {
            let x = block.x as usize;
            let y = block.y as usize;
            let z = block.z as usize;
            assert(chunk.spec_get_block(block) == blocks[x as int][y as int][z as int]);
        }
        chunk
    }

    /// The block at a chunk-local position.
    #[inline]
    pub fn get_block(&self, block: BlockPos) -> (found: Block)
        requires
            block.spec_is_chunk_local(),
        ensures
            found == self.spec_get_block(block),
    {
        self.blocks[block.x as usize][block.y as usize][block.z as usize]
    }

    /// The place of the block at a chunk-local position, to change it.
    #[inline]
    pub fn get_block_mut(&mut self, block: BlockPos) -> (place: &mut Block)
        requires
            block.spec_is_chunk_local(),
        ensures
            *place == old(self).spec_get_block(block),
            final(self).spec_get_block(block) == *final(place),
            forall|other: BlockPos|
                other.spec_is_chunk_local() && other != block ==> #[trigger] final(self).spec_get_block(other)
                    == old(self).spec_get_block(other),
            final(self).position == old(self).position,
            final(self).chunk_position == old(self).chunk_position,
            final(self).block_position == old(self).block_position,
            final(self).chunk_mesh == old(self).chunk_mesh,
    {
        &mut self.blocks[block.x as usize][block.y as usize][block.z as usize]
    }

    /// Puts `block` at a chunk-local position. The cached quads are left as
    /// they are, and no longer reflect the blocks until they are rebuilt.
    #[inline]
    pub fn set_block(&mut self, block_pos: BlockPos, block: Block)
        requires
            block_pos.spec_is_chunk_local(),
        ensures
            final(self).spec_get_block(block_pos) == block,
            forall|other: BlockPos|
                other.spec_is_chunk_local() && other != block_pos ==> #[trigger] final(self).spec_get_block(other)
                    == old(self).spec_get_block(other),
            final(self).position == old(self).position,
            final(self).chunk_position == old(self).chunk_position,
            final(self).block_position == old(self).block_position,
            final(self).chunk_mesh == old(self).chunk_mesh,
    {
        self.blocks[block_pos.x as usize][block_pos.y as usize][block_pos.z as usize] = block;
    }
}

/// A chunk in the store, with the number of load requests that hold it there.
pub struct LoadedChunk {
    pub chunk: Chunk,
    pub load_count: u64,
}

impl LoadedChunk {
    /// Wraps a chunk that no load request holds yet.
    pub fn new(chunk: Chunk) -> (loaded: LoadedChunk)
        ensures
            loaded.chunk == chunk,
            loaded.load_count == 0,
    {
        LoadedChunk { chunk, load_count: 0 }
    }

    /// Counts one more load request.
    pub fn inc_load_count(&mut self)
        requires
            old(self).load_count < u64::MAX,
        ensures
            final(self).load_count == old(self).load_count + 1,
            final(self).chunk == old(self).chunk,
    {
        self.load_count = self.load_count + 1;
    }

    /// Counts one load request less, and returns how many are left.
    pub fn dec_load_count(&mut self) -> (left: u64)
        requires
            old(self).load_count >= 1,
        ensures
            left == old(self).load_count - 1,
            final(self).load_count == left,
            final(self).chunk == old(self).chunk,
    {
        self.load_count = self.load_count - 1;
        self.load_count
    }

    pub fn get_load_count(&self) -> (count: u64)
        ensures
            count == self.load_count,
    {
        self.load_count
    }
}

/// Scratch space of the greedy mesher for one slice: which cells need no
/// quad of their own any more, and the occlusion level of every vertex.
pub struct VisitedBlockMap {
    /// For each cell of the slice, whether it is hidden or already covered.
    pub visited_blocks: Box<[[bool; 32]; 32]>,
    /// For each vertex of the slice, its occlusion level.
    pub vertex_occlusion: Box<[[u8; 33]; 33]>,
    /// The face whose slice is being meshed.
    pub face: BlockFace,
    /// Coordinate of the slice along the axis of the face.
    pub coord3: i32,
}

/// The two coordinates of `position` in the plane of a slice of `face`.
pub open spec fn slice_index(face: BlockFace, position: BlockPos) -> (int, int) {
    match face {
        BlockFace::XPos | BlockFace::XNeg => (position.y as int, position.z as int),
        BlockFace::YPos | BlockFace::YNeg => (position.x as int, position.z as int),
        BlockFace::ZPos | BlockFace::ZNeg => (position.x as int, position.y as int),
    }
}

impl VisitedBlockMap {
    /// A map with no cell visited and no vertex occluded, set to slice 0 of
    /// the positive x face.
    pub fn new() -> (map: VisitedBlockMap)
        ensures
            map.face == BlockFace::XPos,
            map.coord3 == 0,
            forall|u: int, v: int| 0 <= u < 32 && 0 <= v < 32 ==> !(#[trigger] map.visited_blocks[u][v]),
            forall|x: int, y: int| 0 <= x < 33 && 0 <= y < 33 ==> #[trigger] map.vertex_occlusion[x][y] == 0,
    {
        VisitedBlockMap {
            visited_blocks: Box::new([[false; 32]; 32]),
            vertex_occlusion: Box::new([[0; 33]; 33]),
            face: BlockFace::XPos,
            coord3: 0,
        }
    }

    /// The cell of the slice that holds `position`, whose coordinates in
    /// the plane of the slice must not be negative.
    pub fn get_index(&self, position: BlockPos) -> (index: (usize, usize))
        requires
            slice_index(self.face, position).0 >= 0,
            slice_index(self.face, position).1 >= 0,
        ensures
            index.0 == slice_index(self.face, position).0,
            index.1 == slice_index(self.face, position).1,
    {
        let (x, y) = match self.face {
            BlockFace::XPos | BlockFace::XNeg => (position.y, position.z),
            BlockFace::YPos | BlockFace::YNeg => (position.x, position.z),
            BlockFace::ZPos | BlockFace::ZNeg => (position.x, position.y),
        };
        (x as usize, y as usize)
    }

    /// Chunk-local position of cell `(x, y)` of the slice.
    pub fn get_block_pos(&self, x: i32, y: i32) -> (position: BlockPos)
        ensures
            position == slice_block_pos(self.face, self.coord3 as int, x as int, y as int),
            slice_index(self.face, position) == (x as int, y as int),
    {
        match self.face {
            BlockFace::XPos | BlockFace::XNeg => BlockPos::new(self.coord3, x, y),
            BlockFace::YPos | BlockFace::YNeg => BlockPos::new(x, self.coord3, y),
            BlockFace::ZPos | BlockFace::ZNeg => BlockPos::new(x, y, self.coord3),
        }
    }

    /// Chunk-local position of the cell that lies `x_offset` and `y_offset`
    /// cells away from the cell of `block`, in the slice.
    pub fn get_block_pos_offset(&self, block: BlockPos, x_offset: i32, y_offset: i32) -> (position: BlockPos)
        requires
            i32::MIN <= slice_index(self.face, block).0 + x_offset <= i32::MAX,
            i32::MIN <= slice_index(self.face, block).1 + y_offset <= i32::MAX,
        ensures
            position == slice_block_pos(
                self.face,
                self.coord3 as int,
                slice_index(self.face, block).0 + x_offset,
                slice_index(self.face, block).1 + y_offset,
            ),
    {
        match self.face {
            BlockFace::XPos | BlockFace::XNeg => BlockPos::new(self.coord3, block.y + x_offset, block.z + y_offset),
            BlockFace::YPos | BlockFace::YNeg => BlockPos::new(block.x + x_offset, self.coord3, block.z + y_offset),
            BlockFace::ZPos | BlockFace::ZNeg => BlockPos::new(block.x + x_offset, block.y + y_offset, self.coord3),
        }
    }

    /// Whether `position` names a cell of the slice.
    pub open spec fn in_slice(&self, position: BlockPos) -> bool {
        &&& 0 <= slice_index(self.face, position).0 < 32
        &&& 0 <= slice_index(self.face, position).1 < 32
    }

    pub fn is_visited(&self, position: BlockPos) -> (visited: bool)
        requires
            self.in_slice(position),
        ensures
            visited == self.visited_blocks[slice_index(self.face, position).0][slice_index(
                self.face,
                position,
            ).1],
    {
        let (x, y) = self.get_index(position);
        self.visited_blocks[x][y]
    }

    pub fn set_visited(&mut self, position: BlockPos, visited: bool)
        requires
            old(self).in_slice(position),
        ensures
            final(self).face == old(self).face,
            final(self).coord3 == old(self).coord3,
            final(self).vertex_occlusion == old(self).vertex_occlusion,
            final(self).visited_blocks[slice_index(old(self).face, position).0][slice_index(
                old(self).face,
                position,
            ).1] == visited,
            forall|u: int, v: int|
                0 <= u < 32 && 0 <= v < 32 && (u, v) != slice_index(old(self).face, position) ==> (
                #[trigger] final(self).visited_blocks[u][v]) == old(self).visited_blocks[u][v],
    {
        let (x, y) = self.get_index(position);
        self.visited_blocks[x][y] = visited;
    }

    /// Records the occlusion level of the vertex at `(x, y)` of the slice.
    pub fn set_occlusion_level(&mut self, x: i32, y: i32, occlusion_level: u8)
        requires
            0 <= x < 33,
            0 <= y < 33,
        ensures
            final(self).face == old(self).face,
            final(self).coord3 == old(self).coord3,
            final(self).visited_blocks == old(self).visited_blocks,
            final(self).vertex_occlusion[x as int][y as int] == occlusion_level,
            forall|a: int, b: int|
                0 <= a < 33 && 0 <= b < 33 && (a != x || b != y) ==> (#[trigger] final(self).vertex_occlusion[a][b])
                    == old(self).vertex_occlusion[a][b],
    {
        let x: usize = x as usize;
        let y: usize = y as usize;
        self.vertex_occlusion[x][y] = occlusion_level;
    }

    /// Occlusion levels recorded for the four corners of cell `(u, v)`.
    pub open spec fn spec_occlusion_data(&self, u: int, v: int) -> OcclusionCorners {
        OcclusionCorners {
            tl: self.vertex_occlusion[u][v + 1],
            tr: self.vertex_occlusion[u + 1][v + 1],
            bl: self.vertex_occlusion[u][v],
            br: self.vertex_occlusion[u + 1][v],
        }
    }

    /// Whether the cells of `block1` and `block2` have the same occlusion
    /// levels at all four corners.
    pub fn occlusion_level_matches(&self, block1: BlockPos, block2: BlockPos) -> (matches: bool)
        requires
            self.in_slice(block1),
            self.in_slice(block2),
        ensures
            matches == (self.spec_occlusion_data(
                slice_index(self.face, block1).0,
                slice_index(self.face, block1).1,
            ) == self.spec_occlusion_data(slice_index(self.face, block2).0, slice_index(self.face, block2).1)),
    {
        let (x1, y1) = self.get_index(block1);
        let (x2, y2) = self.get_index(block2);
        self.vertex_occlusion[x1][y1] == self.vertex_occlusion[x2][y2] && self.vertex_occlusion[x1 + 1][y1]
            == self.vertex_occlusion[x2 + 1][y2] && self.vertex_occlusion[x1][y1 + 1]
            == self.vertex_occlusion[x2][y2 + 1] && self.vertex_occlusion[x1 + 1][y1 + 1]
            == self.vertex_occlusion[x2 + 1][y2 + 1]
    }

    /// Occlusion levels recorded for the four corners of the cell of `block`.
    pub fn get_occlusion_data(&self, block: BlockPos) -> (data: OcclusionCorners)
        requires
            self.in_slice(block),
        ensures
            data == self.spec_occlusion_data(slice_index(self.face, block).0, slice_index(self.face, block).1),
    {
        let (x, y) = self.get_index(block);
        OcclusionCorners {
            tl: self.vertex_occlusion[x][y + 1],
            tr: self.vertex_occlusion[x + 1][y + 1],
            bl: self.vertex_occlusion[x][y],
            br: self.vertex_occlusion[x + 1][y],
        }
    }

    /// Turns the map to the slice at `coord3` along the axis of `face`.
    /// What it holds of cells and vertices stays, and is stale.
    pub fn set_face_coord(&mut self, face: BlockFace, coord3: i32)
        ensures
            final(self).face == face,
            final(self).coord3 == coord3,
            final(self).visited_blocks == old(self).visited_blocks,
            final(self).vertex_occlusion == old(self).vertex_occlusion,
    {
        self.face = face;
        self.coord3 = coord3;
    }
}

/// Occlusion level of a vertex, from whether each of the four cells around
/// it is occluded. Two occluded cells that touch only at the vertex give
/// level 3, whatever the other two are.
pub fn vertex_occlusion_level(tl: bool, tr: bool, bl: bool, br: bool) -> (level: u8)
    ensures
        level == occlusion_level(tl, tr, bl, br),
        level <= 3,
        (tl && br && !tr && !bl) || (tr && bl && !tl && !br) ==> level == 3,
{
    let tl_occludes: u8 = if tl { 1 } else { 0 };
    let tr_occludes: u8 = if tr { 1 } else { 0 };
    let bl_occludes: u8 = if bl { 1 } else { 0 };
    let br_occludes: u8 = if br { 1 } else { 0 };

    let mut occlusion_level: u8 = tl_occludes + tr_occludes + bl_occludes + br_occludes;
    // a vertex in a corner formed by only 2 blocks is as dark as one with 3
    if (tl_occludes == 1 && br_occludes == 1) || (tr_occludes == 1 && bl_occludes == 1) {
        occlusion_level = 3;
    }
    occlusion_level
}

/// Whether `visit_map` holds the occlusion level of every vertex of the
/// slice that it is set to.
pub open spec fn occlusion_recorded(lookup: BlockLookup, visit_map: VisitedBlockMap) -> bool {
    forall|x: int, y: int|
        0 <= x < 33 && 0 <= y < 33 ==> #[trigger] visit_map.vertex_occlusion[x][y] == vertex_occlusion(
            lookup,
            visit_map.face,
            visit_map.coord3 as int,
            x,
            y,
        )
}

/// Whether, in row `u` of the slice that `visit_map` is set to, the cells
/// from `from` on are marked as visited exactly where they are not drawn.
pub open spec fn row_marked(lookup: BlockLookup, visit_map: VisitedBlockMap, u: int, from: int) -> bool {
    forall|v: int|
        from <= v < 32 ==> #[trigger] visit_map.visited_blocks[u][v] == !cell_visible(
            lookup,
            visit_map.face,
            visit_map.coord3 as int,
            u,
            v,
        )
}

/// Whether, in row `u` of the slice that `visit_map` is set to, all cells
/// are marked as visited but those at which the mesher starts a run: the
/// state of a row that the mesher is done with.
pub open spec fn row_finished(lookup: BlockLookup, visit_map: VisitedBlockMap, u: int) -> bool {
    forall|v: int|
        0 <= v < 32 ==> #[trigger] visit_map.visited_blocks[u][v] == !run_starts(
            lookup,
            visit_map.face,
            visit_map.coord3 as int,
            u,
            0,
        ).contains(v)
}

impl Chunk {
    /// The block at `block`, a position relative to this chunk's corner.
    /// It may lie in another chunk, which is then looked up in `neighbors`;
    /// `None` where that chunk is not loaded.
    #[inline]
    pub fn with_block(&self, neighbors: &ChunkMap, block: BlockPos) -> (found: Option<Block>)
        requires
            self.chunk_position.in_block_range(),
        ensures
            found == self.spec_with_block(chunk_map_view(*neighbors), block),
            found == self.block_lookup(chunk_map_view(*neighbors))(block),
    {
        if block.is_chunk_local() {
            Some(self.get_block(block))
        } else {
            let chunk_position = block.as_chunk_pos() + self.chunk_position;
            let local = block.as_chunk_local();
            let read_block = |loaded: &LoadedChunk| -> (read: Block)
                ensures
                    read == loaded.chunk.spec_get_block(local),
                {
                    loaded.chunk.get_block(local)
                };
            chunk_map_with(neighbors, chunk_position.key(), read_block)
        }
    }

    /// Whether the block that touches `face` of the block at `block` is
    /// known and not translucent.
    fn is_occluded_by(&self, neighbors: &ChunkMap, face: BlockFace, block: BlockPos) -> (hidden: bool)
        requires
            self.chunk_position.in_block_range(),
            -1 <= block.x <= 32,
            -1 <= block.y <= 32,
            -1 <= block.z <= 32,
        ensures
            hidden == occluded(self.block_lookup(chunk_map_view(*neighbors)), face, block),
    {
        proof {
            reveal(occluded);
        }
        match self.with_block(neighbors, block + face.block_pos_offset()) {
            Some(facing) => !facing.is_translucent(),
            None => false,
        }
    }

    /// Whether `face` of this chunk's own block at `block` is drawn.
    fn is_face_visible(&self, neighbors: &ChunkMap, face: BlockFace, block: BlockPos) -> (visible: bool)
        requires
            self.chunk_position.in_block_range(),
            block.spec_is_chunk_local(),
        ensures
            visible == face_visible(self.block_lookup(chunk_map_view(*neighbors)), face, block),
    {
        proof {
            reveal(face_visible);
        }
        if self.get_block(block).is_air() {
            false
        } else {
            match self.with_block(neighbors, block + face.block_pos_offset()) {
                Some(facing) => facing.is_translucent(),
                // there is no adjacent chunk: do not draw this face
                None => false,
            }
        }
    }

    /// Marks as visited every cell of the slice that gets no quad: the
    /// cells of air, those whose face is covered, and those whose facing
    /// block is in a chunk that is not loaded.
    fn mark_hidden_cells(&self, visit_map: &mut VisitedBlockMap, neighbors: &ChunkMap)
        requires
            self.chunk_position.in_block_range(),
            0 <= old(visit_map).coord3 < 32,
        ensures
            final(visit_map).face == old(visit_map).face,
            final(visit_map).coord3 == old(visit_map).coord3,
            final(visit_map).vertex_occlusion == old(visit_map).vertex_occlusion,
            forall|u: int|
                0 <= u < 32 ==> #[trigger] row_marked(
                    self.block_lookup(chunk_map_view(*neighbors)),
                    *final(visit_map),
                    u,
                    0,
                ),
    {
        let ghost lookup = self.block_lookup(chunk_map_view(*neighbors));
        let face = visit_map.face;
        let mut x: i32 = 0;
        while x < 32
            invariant
                0 <= x <= 32,
                self.chunk_position.in_block_range(),
                lookup == self.block_lookup(chunk_map_view(*neighbors)),
                visit_map.face == face,
                face == old(visit_map).face,
                visit_map.coord3 == old(visit_map).coord3,
                0 <= visit_map.coord3 < 32,
                visit_map.vertex_occlusion == old(visit_map).vertex_occlusion,
                forall|u: int| 0 <= u < x ==> #[trigger] row_marked(lookup, *visit_map, u, 0),
            decreases 32 - x,
        {
            let mut y: i32 = 0;
            while y < 32
                invariant
                    0 <= x < 32,
                    0 <= y <= 32,
                    self.chunk_position.in_block_range(),
                    lookup == self.block_lookup(chunk_map_view(*neighbors)),
                    visit_map.face == face,
                    face == old(visit_map).face,
                    visit_map.coord3 == old(visit_map).coord3,
                    0 <= visit_map.coord3 < 32,
                    visit_map.vertex_occlusion == old(visit_map).vertex_occlusion,
                    forall|u: int| 0 <= u < x ==> #[trigger] row_marked(lookup, *visit_map, u, 0),
                    forall|v: int|
                        0 <= v < y ==> #[trigger] visit_map.visited_blocks[x as int][v] == !cell_visible(
                            lookup,
                            face,
                            visit_map.coord3 as int,
                            x as int,
                            v,
                        ),
                decreases 32 - y,
            {
                let block_pos = visit_map.get_block_pos(x, y);
                let ghost before = *visit_map;
                let visible = self.is_face_visible(neighbors, face, block_pos);
                visit_map.set_visited(block_pos, !visible);
                proof {
                    assert forall|u: int| 0 <= u < x implies #[trigger] row_marked(lookup, *visit_map, u, 0) by {
                        assert(row_marked(lookup, before, u, 0));
                        assert forall|v: int| 0 <= v < 32 implies #[trigger] visit_map.visited_blocks[u][v]
                            == !cell_visible(lookup, face, visit_map.coord3 as int, u, v) by {
                            assert(visit_map.visited_blocks[u][v] == before.visited_blocks[u][v]);
                        }
                    }
                    assert forall|v: int| 0 <= v < y + 1 implies #[trigger] visit_map.visited_blocks[x as int][v]
                        == !cell_visible(lookup, face, visit_map.coord3 as int, x as int, v) by {
                        if v < y {
                            assert(visit_map.visited_blocks[x as int][v] == before.visited_blocks[x as int][v]);
                        }
                    }
                }
                y += 1;
            }
            x += 1;
        }
    }

    /// Records the occlusion level of every vertex of the slice.
    fn record_vertex_occlusion(&self, visit_map: &mut VisitedBlockMap, neighbors: &ChunkMap)
        requires
            self.chunk_position.in_block_range(),
            0 <= old(visit_map).coord3 < 32,
        ensures
            final(visit_map).face == old(visit_map).face,
            final(visit_map).coord3 == old(visit_map).coord3,
            final(visit_map).visited_blocks == old(visit_map).visited_blocks,
            occlusion_recorded(self.block_lookup(chunk_map_view(*neighbors)), *final(visit_map)),
    {
        let ghost lookup = self.block_lookup(chunk_map_view(*neighbors));
        let face = visit_map.face;
        let mut x: i32 = 0;
        while x < 33
            invariant
                0 <= x <= 33,
                self.chunk_position.in_block_range(),
                lookup == self.block_lookup(chunk_map_view(*neighbors)),
                visit_map.face == face,
                face == old(visit_map).face,
                visit_map.coord3 == old(visit_map).coord3,
                0 <= visit_map.coord3 < 32,
                visit_map.visited_blocks == old(visit_map).visited_blocks,
                forall|a: int, b: int|
                    0 <= a < x && 0 <= b < 33 ==> #[trigger] visit_map.vertex_occlusion[a][b] == vertex_occlusion(
                        lookup,
                        face,
                        visit_map.coord3 as int,
                        a,
                        b,
                    ),
            decreases 33 - x,
        {
            let mut y: i32 = 0;
            while y < 33
                invariant
                    0 <= x < 33,
                    0 <= y <= 33,
                    self.chunk_position.in_block_range(),
                    lookup == self.block_lookup(chunk_map_view(*neighbors)),
                    visit_map.face == face,
                    face == old(visit_map).face,
                    visit_map.coord3 == old(visit_map).coord3,
                    0 <= visit_map.coord3 < 32,
                    visit_map.visited_blocks == old(visit_map).visited_blocks,
                    forall|a: int, b: int|
                        0 <= a < x && 0 <= b < 33 ==> #[trigger] visit_map.vertex_occlusion[a][b]
                            == vertex_occlusion(lookup, face, visit_map.coord3 as int, a, b),
                    forall|b: int|
                        0 <= b < y ==> #[trigger] visit_map.vertex_occlusion[x as int][b] == vertex_occlusion(
                            lookup,
                            face,
                            visit_map.coord3 as int,
                            x as int,
                            b,
                        ),
                decreases 33 - y,
            {
                let tl_occludes = self.is_occluded_by(neighbors, face, visit_map.get_block_pos(x - 1, y - 1));
                let tr_occludes = self.is_occluded_by(neighbors, face, visit_map.get_block_pos(x, y - 1));
                let bl_occludes = self.is_occluded_by(neighbors, face, visit_map.get_block_pos(x - 1, y));
                let br_occludes = self.is_occluded_by(neighbors, face, visit_map.get_block_pos(x, y));

                let occlusion_level = vertex_occlusion_level(tl_occludes, tr_occludes, bl_occludes, br_occludes);
                proof {
                    reveal(vertex_occlusion);
                }
                visit_map.set_occlusion_level(x, y, occlusion_level);
                y += 1;
            }
            x += 1;
        }
    }

    /// Cuts row `x` of the slice into runs and appends the quad of each to
    /// `quads`.
    fn mesh_row(
        &self,
        x: i32,
        visit_map: &mut VisitedBlockMap,
        quads: &mut Vec<BlockFaceMesh>,
        Ghost(lookup): Ghost<BlockLookup>,
        Ghost(done): Ghost<Seq<Quad>>,
    )
        requires
            self.wf(),
            forall|block: BlockPos|
                block.spec_is_chunk_local() ==> #[trigger] lookup(block) == Some(self.spec_get_block(block)),
            0 <= x < 32,
            0 <= old(visit_map).coord3 < 32,
            occlusion_recorded(lookup, *old(visit_map)),
            row_marked(lookup, *old(visit_map), x as int, 0),
            quads_match(old(quads)@, done),
        ensures
            final(visit_map).face == old(visit_map).face,
            final(visit_map).coord3 == old(visit_map).coord3,
            final(visit_map).vertex_occlusion == old(visit_map).vertex_occlusion,
            forall|u: int, v: int|
                0 <= u < 32 && 0 <= v < 32 && u != x ==> (#[trigger] final(visit_map).visited_blocks[u][v]) == old(
                    visit_map,
                ).visited_blocks[u][v],
            quads_match(
                final(quads)@,
                done + row_quads(
                    lookup,
                    self.block_position,
                    old(visit_map).face,
                    old(visit_map).coord3 as int,
                    x as int,
                    0,
                ),
            ),
            row_finished(lookup, *final(visit_map), x as int),
    {
        let face = visit_map.face;
        let ghost origin = self.block_position;
        let ghost coord3 = visit_map.coord3 as int;
        let ghost row = row_quads(lookup, origin, face, coord3, x as int, 0);
        let ghost starts = run_starts(lookup, face, coord3, x as int, 0);
        let ghost mut covered: Seq<Quad> = Seq::empty();
        let ghost mut seen: Set<int> = Set::empty();
        assert(done + covered =~= done);
        assert(covered + row =~= row);
        assert(seen.union(starts) =~= starts);

        let mut y: i32 = 0;
        while y < 32
            invariant
                self.wf(),
                origin == self.block_position,
                forall|block: BlockPos|
                    block.spec_is_chunk_local() ==> #[trigger] lookup(block) == Some(self.spec_get_block(block)),
                0 <= x < 32,
                0 <= y <= 32,
                visit_map.face == face,
                face == old(visit_map).face,
                visit_map.coord3 == coord3,
                coord3 == old(visit_map).coord3,
                0 <= coord3 < 32,
                visit_map.vertex_occlusion == old(visit_map).vertex_occlusion,
                occlusion_recorded(lookup, *visit_map),
                row_marked(lookup, *visit_map, x as int, y as int),
                forall|u: int, v: int|
                    0 <= u < 32 && 0 <= v < 32 && u != x ==> (#[trigger] visit_map.visited_blocks[u][v]) == old(
                        visit_map,
                    ).visited_blocks[u][v],
                quads_match(quads@, done + covered),
                covered + row_quads(lookup, origin, face, coord3, x as int, y as int) == row,
                row == row_quads(lookup, origin, face, coord3, x as int, 0),
                starts == run_starts(lookup, face, coord3, x as int, 0),
                seen.union(run_starts(lookup, face, coord3, x as int, y as int)) == starts,
                forall|w: int| seen.contains(w) ==> 0 <= w < y,
                forall|w: int| 0 <= w < y ==> #[trigger] visit_map.visited_blocks[x as int][w] == !seen.contains(w),
            decreases 32 - y,
        {
            let block_pos = visit_map.get_block_pos(x, y);
            if visit_map.is_visited(block_pos) {
                y += 1;
                continue ;
            }
            let ghost at_start = *visit_map;
            let block = self.get_block(block_pos);
            let block_type = block.block_type();
            assert(lookup(block_pos) == Some(block));

            // length of the run along the row
            let mut width: i32 = 1;
            loop
                invariant
                    self.wf(),
                    forall|block: BlockPos|
                        block.spec_is_chunk_local() ==> #[trigger] lookup(block) == Some(self.spec_get_block(block)),
                    0 <= x < 32,
                    0 <= y < 32,
                    1 <= width <= 32 - y,
                    block_pos == slice_block_pos(face, coord3, x as int, y as int),
                    cell_kind(lookup, face, coord3, x as int, y as int) == Some(block_type),
                    visit_map.face == face,
                    visit_map.coord3 == coord3,
                    0 <= coord3 < 32,
                    visit_map.vertex_occlusion == old(visit_map).vertex_occlusion,
                    occlusion_recorded(lookup, *visit_map),
                    row_marked(lookup, *visit_map, x as int, y + width),
                    forall|u: int, v: int|
                        0 <= u < 32 && 0 <= v < 32 && u != x ==> (#[trigger] visit_map.visited_blocks[u][v]) == old(
                            visit_map,
                        ).visited_blocks[u][v],
                    forall|w: int|
                        0 <= w <= y ==> #[trigger] visit_map.visited_blocks[x as int][w]
                            == at_start.visited_blocks[x as int][w],
                    forall|w: int| y < w < y + width ==> #[trigger] visit_map.visited_blocks[x as int][w],
                    run_end(lookup, face, coord3, x as int, y as int, y + 1) == run_end(
                        lookup,
                        face,
                        coord3,
                        x as int,
                        y as int,
                        y + width,
                    ),
                ensures
                    1 <= width <= 32 - y,
                    visit_map.face == face,
                    visit_map.coord3 == coord3,
                    visit_map.vertex_occlusion == old(visit_map).vertex_occlusion,
                    forall|w: int|
                        0 <= w <= y ==> #[trigger] visit_map.visited_blocks[x as int][w]
                            == at_start.visited_blocks[x as int][w],
                    forall|w: int| y < w < y + width ==> #[trigger] visit_map.visited_blocks[x as int][w],
                    row_marked(lookup, *visit_map, x as int, y + width),
                    forall|u: int, v: int|
                        0 <= u < 32 && 0 <= v < 32 && u != x ==> (#[trigger] visit_map.visited_blocks[u][v]) == old(
                            visit_map,
                        ).visited_blocks[u][v],
                    run_end(lookup, face, coord3, x as int, y as int, y + 1) == y + width,
                decreases 32 - width,
            {
                let current_block_pos = visit_map.get_block_pos_offset(block_pos, 0, width);
                // the next cell may lie outside the chunk
                if !current_block_pos.is_chunk_local() {
                    break ;
                }
                let ghost before = *visit_map;
                proof {
                    assert(cell_corners(lookup, face, coord3, x as int, y + width) == visit_map.spec_occlusion_data(
                        x as int,
                        y + width,
                    ));
                    assert(cell_corners(lookup, face, coord3, x as int, y as int) == visit_map.spec_occlusion_data(
                        x as int,
                        y as int,
                    ));
                    assert(lookup(current_block_pos) == Some(self.spec_get_block(current_block_pos)));
                }
                if !visit_map.is_visited(current_block_pos) && self.get_block(current_block_pos).block_type()
                    == block_type && visit_map.occlusion_level_matches(block_pos, current_block_pos) {
                    visit_map.set_visited(current_block_pos, true);
                    proof {
                        assert(cell_joins(lookup, face, coord3, x as int, y as int, y + width));
                        assert forall|v: int| y + width + 1 <= v < 32 implies #[trigger] visit_map.visited_blocks[x as int][v]
                            == !cell_visible(lookup, face, coord3, x as int, v) by {
                            assert(visit_map.visited_blocks[x as int][v] == before.visited_blocks[x as int][v]);
                        }
                        assert forall|w: int| 0 <= w <= y implies #[trigger] visit_map.visited_blocks[x as int][w]
                            == at_start.visited_blocks[x as int][w] by {
                            assert(visit_map.visited_blocks[x as int][w] == before.visited_blocks[x as int][w]);
                        }
                        assert forall|w: int| y < w < y + width + 1 implies #[trigger] visit_map.visited_blocks[x as int][w] by {
                            if w < y + width {
                                assert(visit_map.visited_blocks[x as int][w] == before.visited_blocks[x as int][w]);
                            }
                        }
                    }
                    width += 1;
                } else {
                    // a cell of another kind or shading starts a run of its own
                    proof {
                        assert(!cell_joins(lookup, face, coord3, x as int, y as int, y + width));
                    }
                    break ;
                }
            }

            let ghost quad = run_quad(lookup, origin, face, coord3, x as int, y as int, y + width - 1);
            let last_block_pos = visit_map.get_block_pos_offset(block_pos, 0, width - 1);
            proof {
                assert(cell_visible(lookup, face, coord3, x as int, y as int));
                assert(cell_corners(lookup, face, coord3, x as int, y as int) == visit_map.spec_occlusion_data(
                    x as int,
                    y as int,
                ));
                lemma_cell_corners_valid(lookup, face, coord3, x as int, y as int);
                lemma_visible_face_textured(lookup, face, block_pos);
            }
            let block_face_mesh = BlockFaceMesh::from_cube_corners(
                face,
                block.texture_index().unwrap(),
                block_pos + self.block_position,
                last_block_pos + self.block_position,
                visit_map.get_occlusion_data(block_pos),
            );
            proof {
                assert(quad_matches(block_face_mesh, quad));
                let rest = row_quads(lookup, origin, face, coord3, x as int, y + width);
                assert(row_quads(lookup, origin, face, coord3, x as int, y as int) == seq![quad] + rest);
                assert((covered.push(quad)) + rest =~= covered + (seq![quad] + rest));
                assert(done + covered.push(quad) =~= (done + covered).push(quad));
                covered = covered.push(quad);

                let later = run_starts(lookup, face, coord3, x as int, y + width);
                assert(run_starts(lookup, face, coord3, x as int, y as int) == later.insert(y as int));
                assert(seen.insert(y as int).union(later) =~= seen.union(later.insert(y as int)));
                assert forall|w: int| 0 <= w < y + width implies #[trigger] visit_map.visited_blocks[x as int][w]
                    == !seen.insert(y as int).contains(w) by {
                    if w < y {
                        assert(visit_map.visited_blocks[x as int][w] == at_start.visited_blocks[x as int][w]);
                    } else if w == y {
                        assert(visit_map.visited_blocks[x as int][w] == at_start.visited_blocks[x as int][w]);
                    }
                }
                seen = seen.insert(y as int);
            }
            quads.push(block_face_mesh);

            y += width;
        }
        proof {
            assert(covered + Seq::<Quad>::empty() =~= covered);
            assert(seen.union(Set::<int>::empty()) =~= seen);
        }
    }

    /// Whether the cached quads of the slice at `index` along the axis of
    /// `face` are those that the mesher builds from the blocks as they are.
    pub open spec fn slice_current(&self, neighbors: Map<ChunkKey, LoadedChunk>, face: BlockFace, index: int) -> bool {
        quads_match(self.slice(face.spec_index() as int, index), self.slice_quads(neighbors, face, index))
    }

    /// Rebuilds the quads of one slice of the chunk: the layer of blocks at
    /// `index` along the axis of `face`, seen from the side of `face`.
    ///
    /// A block gets a quad where it is not air and the block that touches
    /// its face is known and translucent. Each row of the slice is cut into
    /// the longest runs of such blocks that have one kind and the same
    /// occlusion levels at their corners, and each run is drawn by one quad.
    /// `visit_map` is scratch space, handed in so that it is allocated once.
    pub fn mesh_update_inner(
        &mut self,
        face: BlockFace,
        index: usize,
        visit_map: &mut VisitedBlockMap,
        neighbors: &ChunkMap,
    )
        requires
            old(self).wf(),
            index < 32,
        ensures
            final(self).wf(),
            final(self).same_blocks(*old(self)),
            final(self).slice_current(chunk_map_view(*neighbors), face, index as int),
            forall|f: int, i: int|
                0 <= f < 6 && 0 <= i < 32 && (f != face.spec_index() || i != index) ==> (
                #[trigger] final(self).chunk_mesh[f][i]) == old(self).chunk_mesh[f][i],
            final(visit_map).face == face,
            final(visit_map).coord3 == index,
            occlusion_recorded(final(self).block_lookup(chunk_map_view(*neighbors)), *final(visit_map)),
            forall|u: int|
                0 <= u < 32 ==> #[trigger] row_finished(
                    final(self).block_lookup(chunk_map_view(*neighbors)),
                    *final(visit_map),
                    u,
                ),
    {
        let ghost view = chunk_map_view(*neighbors);
        let ghost lookup = self.block_lookup(view);
        let ghost origin = self.block_position;
        visit_map.set_face_coord(face, index as i32);

        // discard all faces that are not visible, and all faces of air
        self.mark_hidden_cells(visit_map, neighbors);
        let ghost marked = *visit_map;
        // get the occlusion levels of all vertices
        self.record_vertex_occlusion(visit_map, neighbors);

        let mut quads: Vec<BlockFaceMesh> = Vec::new();
        let ghost mut covered: Seq<Quad> = Seq::empty();
        let ghost total = self.slice_quads(view, face, index as int);
        proof {
            assert(covered + total =~= total);
            assert forall|u: int| 0 <= u < 32 implies #[trigger] row_marked(lookup, *visit_map, u, 0) by {
                assert(row_marked(lookup, marked, u, 0));
            }
        }

        let mut x: i32 = 0;
        while x < 32
            invariant
                0 <= x <= 32,
                index < 32,
                self.wf(),
                *self == *old(self),
                lookup == self.block_lookup(view),
                origin == self.block_position,
                visit_map.face == face,
                visit_map.coord3 == index,
                occlusion_recorded(lookup, *visit_map),
                forall|u: int| x <= u < 32 ==> #[trigger] row_marked(lookup, *visit_map, u, 0),
                forall|u: int| 0 <= u < x ==> #[trigger] row_finished(lookup, *visit_map, u),
                quads_match(quads@, covered),
                covered + rows_quads(lookup, origin, face, index as int, x as int) == total,
            decreases 32 - x,
        {
            let ghost before = *visit_map;
            let ghost row = row_quads(lookup, origin, face, index as int, x as int, 0);
            let ghost rest = rows_quads(lookup, origin, face, index as int, x + 1);
            assert(row_marked(lookup, *visit_map, x as int, 0));
            self.mesh_row(x, visit_map, &mut quads, Ghost(lookup), Ghost(covered));
            proof {
                assert((covered + row) + rest =~= covered + (row + rest));
                assert forall|u: int| x + 1 <= u < 32 implies #[trigger] row_marked(lookup, *visit_map, u, 0) by {
                    assert(row_marked(lookup, before, u, 0));
                    assert forall|v: int| 0 <= v < 32 implies #[trigger] visit_map.visited_blocks[u][v]
                        == !cell_visible(lookup, face, index as int, u, v) by {
                        assert(visit_map.visited_blocks[u][v] == before.visited_blocks[u][v]);
                    }
                }
                assert forall|u: int| 0 <= u < x + 1 implies #[trigger] row_finished(lookup, *visit_map, u) by {
                    if u < x {
                        assert(row_finished(lookup, before, u));
                        assert forall|v: int| 0 <= v < 32 implies #[trigger] visit_map.visited_blocks[u][v]
                            == !run_starts(lookup, face, index as int, u, 0).contains(v) by {
                            assert(visit_map.visited_blocks[u][v] == before.visited_blocks[u][v]);
                        }
                    }
                }
                covered = covered + row;
            }
            x += 1;
        }
        proof {
            assert(covered + Seq::<Quad>::empty() =~= covered);
        }
        self.chunk_mesh[face.index()][index] = quads;
        proof {
            lemma_block_lookup_same_blocks(*old(self), *self, view);
        }
    }

    /// Rebuilds the quads of every slice of the chunk.
    pub fn chunk_mesh_update(&mut self, neighbors: &ChunkMap)
        requires
            old(self).wf(),
        ensures
            final(self).wf(),
            final(self).same_blocks(*old(self)),
            forall|face: BlockFace, index: int|
                0 <= index < 32 ==> #[trigger] final(self).slice_current(chunk_map_view(*neighbors), face, index),
    {
        let ghost view = chunk_map_view(*neighbors);
        let mut visit_map = VisitedBlockMap::new();
        let mut faces = BlockFace::iter();
        loop
            invariant
                self.wf(),
                self.same_blocks(*old(self)),
                view == chunk_map_view(*neighbors),
                forall|face: BlockFace, index: int|
                    0 <= index < 32 && (faces.0.is_none() || face.spec_index() < faces.0.unwrap().spec_index())
                        ==> #[trigger] self.slice_current(view, face, index),
            ensures
                self.wf(),
                self.same_blocks(*old(self)),
                forall|face: BlockFace, index: int| 0 <= index < 32 ==> #[trigger] self.slice_current(view, face, index),
            decreases faces.remaining().len(),
        {
            let face = match faces.next() {
                Some(face) => face,
                None => {
                    break ;
                },
            };
            let mut i: usize = 0;
            while i < 32
                invariant
                    0 <= i <= 32,
                    self.wf(),
                    self.same_blocks(*old(self)),
                    view == chunk_map_view(*neighbors),
                    forall|other: BlockFace, index: int|
                        0 <= index < 32 && other.spec_index() < face.spec_index() ==> #[trigger] self.slice_current(
                            view,
                            other,
                            index,
                        ),
                    forall|index: int| 0 <= index < i ==> #[trigger] self.slice_current(view, face, index),
                decreases 32 - i,
            {
                let ghost before = *self;
                self.mesh_update_inner(face, i, &mut visit_map, neighbors);
                proof {
                    lemma_block_lookup_same_blocks(before, *self, view);
                    assert forall|other: BlockFace, index: int|
                        0 <= index < 32 && (other.spec_index() < face.spec_index() || (other == face && index
                            < i)) implies #[trigger] self.slice_current(view, other, index) by {
                        assert(before.slice_current(view, other, index));
                        assert(self.chunk_mesh[other.spec_index() as int][index]
                            == before.chunk_mesh[other.spec_index() as int][index]);
                    }
                }
                i += 1;
            }
            proof {
                assert forall|other: BlockFace, index: int|
                    0 <= index < 32 && (faces.0.is_none() || other.spec_index()
                        < faces.0.unwrap().spec_index()) implies #[trigger] self.slice_current(view, other, index) by {
                    if other != face {
                        assert(other.spec_index() < face.spec_index());
                    }
                }
            }
        }
    }

    /// The cached quads of the first `count` slices, counted face by face.
    pub open spec fn mesh_prefix(&self, count: int) -> Seq<BlockFaceMesh>
        decreases count,
    {
        if count <= 0 {
            Seq::empty()
        } else {
            self.mesh_prefix(count - 1) + self.slice((count - 1) / 32, (count - 1) % 32)
        }
    }

    /// All cached quads of the chunk: those of each face in turn, and for
    /// each face those of each slice in turn.
    pub open spec fn spec_chunk_mesh(&self) -> Seq<BlockFaceMesh> {
        self.mesh_prefix(192)
    }

    /// All cached quads of the chunk, in the order of faces and slices.
    /// A chunk that is held by value or by reference is never in the middle
    /// of a rebuild, so the result is always `Some`.
    pub fn get_chunk_mesh(&self) -> (mesh: Option<Vec<BlockFaceMesh>>)
        ensures
            mesh.is_some(),
            mesh.unwrap()@ == self.spec_chunk_mesh(),
    {
        let mut out: Vec<BlockFaceMesh> = Vec::new();
        let mut face: usize = 0;
        while face < 6
            invariant
                0 <= face <= 6,
                out@ == self.mesh_prefix(face * 32),
            decreases 6 - face,
        {
            let mut index: usize = 0;
            while index < 32
                invariant
                    0 <= face < 6,
                    0 <= index <= 32,
                    out@ == self.mesh_prefix(face * 32 + index),
                decreases 32 - index,
            {
                let ghost start = out@;
                let mut k: usize = 0;
                while k < self.chunk_mesh[face][index].len()
                    invariant
                        0 <= face < 6,
                        0 <= index < 32,
                        0 <= k <= self.chunk_mesh[face as int][index as int]@.len(),
                        out@ == start + self.chunk_mesh[face as int][index as int]@.subrange(0, k as int),
                    decreases self.chunk_mesh[face as int][index as int]@.len() - k,
                {
                    out.push(self.chunk_mesh[face][index][k]);
                    proof {
                        let quads = self.chunk_mesh[face as int][index as int]@;
                        assert(quads.subrange(0, k + 1) =~= quads.subrange(0, k as int).push(quads[k as int]));
                        assert(out@ =~= start + quads.subrange(0, k + 1));
                    }
                    k += 1;
                }
                proof {
                    let quads = self.chunk_mesh[face as int][index as int]@;
                    assert(quads.subrange(0, quads.len() as int) =~= quads);
                    let count = face * 32 + index + 1;
                    assert((count - 1) / 32 == face && (count - 1) % 32 == index);
                }
                index += 1;
            }
            face += 1;
        }
        Some(out)
    }
}

} // verus!
