//! What the greedy mesher builds for one slice of a chunk, stated over the
//! blocks of the chunk and of its neighbours.
//!
//! The blocks are given by a lookup: a function from a position relative to
//! the chunk's corner to the block there, or to `None` where the position
//! lies in a chunk that is not loaded.
//!
//! A slice is the layer of blocks of a chunk at one coordinate along the
//! axis of a face. Its cells are named by their two coordinates in the
//! plane of the slice, `u` and `v`, which are the two chunk-local
//! coordinates left when the face's axis is taken out, in x, y, z order.

use vstd::prelude::*;

use crate::block::{Block, BlockFace, BlockFaceMesh, BlockTrait, BlockType, OcclusionCorners, TextureIndex};
use crate::chunk::{Chunk, LoadedChunk};
use crate::chunk_map::ChunkKey;
use crate::types::BlockPos;

verus! {

/// The area of blocks that one quad covers on a face.
pub struct Quad {
    pub face: BlockFace,
    pub texture_index: TextureIndex,
    /// Global coordinates of the covered block with the smallest coordinates.
    pub neg_corner: BlockPos,
    /// Global coordinates of the covered block with the largest coordinates.
    pub pos_corner: BlockPos,
    /// Occlusion levels at the corners, named by the slice's own axes.
    pub occlusion: OcclusionCorners,
}

/// Whether `mesh` is the quad that draws `quad`.
pub open spec fn quad_matches(mesh: BlockFaceMesh, quad: Quad) -> bool {
    mesh.is_from_cube_corners(quad.face, quad.texture_index, quad.neg_corner, quad.pos_corner, quad.occlusion)
}

/// Whether `meshes` are the quads that draw `quads`, one for one and in order.
pub open spec fn quads_match(meshes: Seq<BlockFaceMesh>, quads: Seq<Quad>) -> bool {
    &&& meshes.len() == quads.len()
    &&& forall|k: int| 0 <= k < quads.len() ==> quad_matches(#[trigger] meshes[k], quads[k])
}

/// Chunk-local position of cell `(u, v)` of the slice at `coord3` along the
/// axis of `face`.
pub open spec fn slice_block_pos(face: BlockFace, coord3: int, u: int, v: int) -> BlockPos {
    match face {
        BlockFace::XPos | BlockFace::XNeg => BlockPos { x: coord3 as i32, y: u as i32, z: v as i32 },
        BlockFace::YPos | BlockFace::YNeg => BlockPos { x: u as i32, y: coord3 as i32, z: v as i32 },
        BlockFace::ZPos | BlockFace::ZNeg => BlockPos { x: u as i32, y: v as i32, z: coord3 as i32 },
    }
}

/// Position of the block that touches `face` of the block at `block`.
pub open spec fn facing_pos(face: BlockFace, block: BlockPos) -> BlockPos {
    BlockPos {
        x: (block.x + face.spec_block_pos_offset().x) as i32,
        y: (block.y + face.spec_block_pos_offset().y) as i32,
        z: (block.z + face.spec_block_pos_offset().z) as i32,
    }
}

/// Occlusion level of a vertex, from whether each of the four cells around
/// it is occluded: the number of occluded cells, but 3 wherever two cells
/// that touch only at the vertex are both occluded.
pub open spec fn occlusion_level(tl: bool, tr: bool, bl: bool, br: bool) -> u8 {
    if (tl && br) || (tr && bl) {
        3
    } else {
        ((if tl { 1int } else { 0 }) + (if tr { 1int } else { 0 }) + (if bl { 1int } else { 0 }) + (if br {
            1int
        } else {
            0
        })) as u8
    }
}

/// The blocks in and around a chunk, by their position relative to the
/// chunk's corner; `None` where the chunk that holds a position is not loaded.
pub type BlockLookup = spec_fn(BlockPos) -> Option<Block>;

/// Global position of the block at chunk-local position `local` of the
/// chunk whose corner block is `origin`.
pub open spec fn global_pos(origin: BlockPos, local: BlockPos) -> BlockPos {
    BlockPos { x: (origin.x + local.x) as i32, y: (origin.y + local.y) as i32, z: (origin.z + local.z) as i32 }
}

/// Whether the block that touches `face` of the block at `block` is known
/// and hides what is behind it.
#[verifier::opaque]
pub open spec fn occluded(lookup: BlockLookup, face: BlockFace, block: BlockPos) -> bool {
    match lookup(facing_pos(face, block)) {
        Some(facing) => !facing.spec_is_translucent(),
        None => false,
    }
}

/// Whether `face` of the block at `block` is drawn: the block is known and
/// not air, and the block that touches the face is known and translucent.
#[verifier::opaque]
pub open spec fn face_visible(lookup: BlockLookup, face: BlockFace, block: BlockPos) -> bool {
    &&& match lookup(block) {
        Some(own) => !own.spec_is_air(),
        None => false,
    }
    &&& match lookup(facing_pos(face, block)) {
        Some(facing) => facing.spec_is_translucent(),
        None => false,
    }
}

/// Whether cell `(u, v)` of a slice is drawn.
pub open spec fn cell_visible(lookup: BlockLookup, face: BlockFace, coord3: int, u: int, v: int) -> bool {
    face_visible(lookup, face, slice_block_pos(face, coord3, u, v))
}

/// Occlusion level of the vertex of a slice at `(x, y)`: the corner with
/// the smallest coordinates of cell `(x, y)`.
#[verifier::opaque]
pub open spec fn vertex_occlusion(lookup: BlockLookup, face: BlockFace, coord3: int, x: int, y: int) -> u8 {
    occlusion_level(
        occluded(lookup, face, slice_block_pos(face, coord3, x - 1, y - 1)),
        occluded(lookup, face, slice_block_pos(face, coord3, x, y - 1)),
        occluded(lookup, face, slice_block_pos(face, coord3, x - 1, y)),
        occluded(lookup, face, slice_block_pos(face, coord3, x, y)),
    )
}

/// Occlusion levels at the four corners of cell `(u, v)`.
pub open spec fn cell_corners(lookup: BlockLookup, face: BlockFace, coord3: int, u: int, v: int) -> OcclusionCorners {
    OcclusionCorners {
        tl: vertex_occlusion(lookup, face, coord3, u, v + 1),
        tr: vertex_occlusion(lookup, face, coord3, u + 1, v + 1),
        bl: vertex_occlusion(lookup, face, coord3, u, v),
        br: vertex_occlusion(lookup, face, coord3, u + 1, v),
    }
}

/// Kind of the block in cell `(u, v)`, where the block is known.
pub open spec fn cell_kind(lookup: BlockLookup, face: BlockFace, coord3: int, u: int, v: int) -> Option<BlockType> {
    match lookup(slice_block_pos(face, coord3, u, v)) {
        Some(block) => Some(block.spec_block_type()),
        None => None,
    }
}

/// Whether cell `(u, v)` can join a run that starts at cell `(u, start)`:
/// it is drawn, and has the kind and the four corner levels of the first
/// cell.
pub open spec fn cell_joins(lookup: BlockLookup, face: BlockFace, coord3: int, u: int, start: int, v: int) -> bool {
    &&& cell_visible(lookup, face, coord3, u, v)
    &&& cell_kind(lookup, face, coord3, u, v) == cell_kind(lookup, face, coord3, u, start)
    &&& cell_corners(lookup, face, coord3, u, v) == cell_corners(lookup, face, coord3, u, start)
}

/// Where the run that starts at cell `(u, start)` ends, given that it
/// reaches up to `v`: the first `v` or later that is outside the chunk or
/// holds a cell that cannot join.
pub open spec fn run_end(lookup: BlockLookup, face: BlockFace, coord3: int, u: int, start: int, v: int) -> int
    decreases 32 - v,
{
    if v < 32 && cell_joins(lookup, face, coord3, u, start, v) {
        run_end(lookup, face, coord3, u, start, v + 1)
    } else {
        v
    }
}

/// The end of a run lies after the cells that it has reached, and inside
/// the chunk's edge.
pub proof fn lemma_run_end_bounds(lookup: BlockLookup, face: BlockFace, coord3: int, u: int, start: int, v: int)
    requires
        v <= 32,
    ensures
        v <= run_end(lookup, face, coord3, u, start, v) <= 32,
    decreases 32 - v,
{
    if v < 32 && cell_joins(lookup, face, coord3, u, start, v) {
        lemma_run_end_bounds(lookup, face, coord3, u, start, v + 1);
    }
}

/// The area covered by the run of cells `(u, start)` to `(u, last)` of the
/// chunk whose corner block is `origin`.
pub open spec fn run_quad(
    lookup: BlockLookup,
    origin: BlockPos,
    face: BlockFace,
    coord3: int,
    u: int,
    start: int,
    last: int,
) -> Quad {
    Quad {
        face,
        texture_index: match cell_kind(lookup, face, coord3, u, start) {
            Some(kind) => kind.spec_index() as i32,
            None => 0,
        },
        neg_corner: global_pos(origin, slice_block_pos(face, coord3, u, start)),
        pos_corner: global_pos(origin, slice_block_pos(face, coord3, u, last)),
        occlusion: cell_corners(lookup, face, coord3, u, start),
    }
}

/// The areas that the mesher covers with quads in row `u` of a slice, from
/// cell `(u, v)` on: each drawn cell that no run has taken starts a run,
/// which takes the cells after it for as long as they can join.
pub open spec fn row_quads(lookup: BlockLookup, origin: BlockPos, face: BlockFace, coord3: int, u: int, v: int) -> Seq<
    Quad,
>
    decreases 32 - v,
    via row_quads_decreases
{
    if v >= 32 || v < 0 {
        Seq::empty()
    } else if !cell_visible(lookup, face, coord3, u, v) {
        row_quads(lookup, origin, face, coord3, u, v + 1)
    } else {
        let end = run_end(lookup, face, coord3, u, v, v + 1);
        seq![run_quad(lookup, origin, face, coord3, u, v, end - 1)] + row_quads(
            lookup,
            origin,
            face,
            coord3,
            u,
            end,
        )
    }
}

#[via_fn]
proof fn row_quads_decreases(lookup: BlockLookup, origin: BlockPos, face: BlockFace, coord3: int, u: int, v: int) {
    if 0 <= v < 32 {
        lemma_run_end_bounds(lookup, face, coord3, u, v, v + 1);
    }
}

/// The cells of row `u` of a slice, from cell `(u, v)` on, at which the
/// mesher starts a run.
pub open spec fn run_starts(lookup: BlockLookup, face: BlockFace, coord3: int, u: int, v: int) -> Set<int>
    decreases 32 - v,
    via run_starts_decreases
{
    if v >= 32 || v < 0 {
        Set::empty()
    } else if !cell_visible(lookup, face, coord3, u, v) {
        run_starts(lookup, face, coord3, u, v + 1)
    } else {
        run_starts(lookup, face, coord3, u, run_end(lookup, face, coord3, u, v, v + 1)).insert(v)
    }
}

#[via_fn]
proof fn run_starts_decreases(lookup: BlockLookup, face: BlockFace, coord3: int, u: int, v: int) {
    if 0 <= v < 32 {
        lemma_run_end_bounds(lookup, face, coord3, u, v, v + 1);
    }
}

/// The areas that the mesher covers with quads in rows `u` and later.
pub open spec fn rows_quads(lookup: BlockLookup, origin: BlockPos, face: BlockFace, coord3: int, u: int) -> Seq<Quad>
    decreases 32 - u,
{
    if u >= 32 || u < 0 {
        Seq::empty()
    } else {
        row_quads(lookup, origin, face, coord3, u, 0) + rows_quads(lookup, origin, face, coord3, u + 1)
    }
}

/// The areas that the mesher covers with quads in the slice at `coord3`
/// along the axis of `face`: row by row, each row cut into the longest runs
/// of drawn cells of one kind and one shading.
pub open spec fn slice_quads(lookup: BlockLookup, origin: BlockPos, face: BlockFace, coord3: int) -> Seq<Quad> {
    rows_quads(lookup, origin, face, coord3, 0)
}

/// Every vertex has one of the four occlusion levels.
pub proof fn lemma_vertex_occlusion_valid(lookup: BlockLookup, face: BlockFace, coord3: int, x: int, y: int)
    ensures
        vertex_occlusion(lookup, face, coord3, x, y) <= 3,
{
    reveal(vertex_occlusion);
}

/// The corner levels of every cell are valid occlusion levels.
pub proof fn lemma_cell_corners_valid(lookup: BlockLookup, face: BlockFace, coord3: int, u: int, v: int)
    ensures
        cell_corners(lookup, face, coord3, u, v).valid(),
{
    lemma_vertex_occlusion_valid(lookup, face, coord3, u, v);
    lemma_vertex_occlusion_valid(lookup, face, coord3, u + 1, v);
    lemma_vertex_occlusion_valid(lookup, face, coord3, u, v + 1);
    lemma_vertex_occlusion_valid(lookup, face, coord3, u + 1, v + 1);
}

/// A block with a drawn face is known and not air, so it has a texture:
/// the one at the index of its kind.
pub proof fn lemma_visible_face_textured(lookup: BlockLookup, face: BlockFace, block: BlockPos)
    requires
        face_visible(lookup, face, block),
    ensures
        lookup(block).is_some(),
        !lookup(block).unwrap().spec_is_air(),
        lookup(block).unwrap().spec_texture_index() == Some(
            lookup(block).unwrap().spec_block_type().spec_index() as i32,
        ),
{
    reveal(face_visible);
}

/// A vertex at which two occluded cells meet only diagonally, while the
/// other two cells around it are not occluded, has occlusion level 3.
pub proof fn lemma_diagonal_occlusion_is_three(tl: bool, tr: bool, bl: bool, br: bool)
    requires
        (tl && br && !tr && !bl) || (tr && bl && !tl && !br),
    ensures
        occlusion_level(tl, tr, bl, br) == 3,
{
}

/// Two lists of quads that draw the same areas are equal, quad for quad and
/// vertex for vertex.
pub proof fn lemma_quads_match_unique(first: Seq<BlockFaceMesh>, second: Seq<BlockFaceMesh>, quads: Seq<Quad>)
    requires
        quads_match(first, quads),
        quads_match(second, quads),
    ensures
        first == second,
{
    assert forall|k: int| 0 <= k < first.len() implies first[k] == second[k] by {
        assert(quad_matches(first[k], quads[k]));
        assert(quad_matches(second[k], quads[k]));
        assert forall|i: int| 0 <= i < 4 implies first[k].0[i] == second[k].0[i] by {
            assert(first[k].0[i].color@ =~= second[k].0[i].color@);
            assert(first[k].0[i].color =~= second[k].0[i].color);
        }
        assert(first[k].0 =~= second[k].0);
    }
    assert(first =~= second);
}

/// Rebuilding a slice whose blocks have not changed gives the same quads
/// again: two chunks that hold the same blocks at the same place, among the
/// same neighbours, have the same list of quads, of the same vertices,
/// wherever the quads of both are current.
pub proof fn lemma_rebuild_is_idempotent(
    first: Chunk,
    second: Chunk,
    neighbors: Map<ChunkKey, LoadedChunk>,
    face: BlockFace,
    index: int,
)
    requires
        first.same_blocks(second),
        first.slice_current(neighbors, face, index),
        second.slice_current(neighbors, face, index),
    ensures
        first.slice(face.spec_index() as int, index) == second.slice(face.spec_index() as int, index),
{
    lemma_block_lookup_same_blocks(first, second, neighbors);
    lemma_quads_match_unique(
        first.slice(face.spec_index() as int, index),
        second.slice(face.spec_index() as int, index),
        first.slice_quads(neighbors, face, index),
    );
}

/// A run in a row whose cells can all join the first cell reaches the edge
/// of the chunk.
pub proof fn lemma_run_reaches_edge(lookup: BlockLookup, face: BlockFace, coord3: int, u: int, v: int)
    requires
        0 <= v <= 32,
        forall|w: int| 0 <= w < 32 ==> cell_joins(lookup, face, coord3, u, 0, w),
    ensures
        run_end(lookup, face, coord3, u, 0, v) == 32,
    decreases 32 - v,
{
    if v < 32 {
        lemma_run_reaches_edge(lookup, face, coord3, u, v + 1);
    }
}

/// A row of drawn cells that all have one kind and one shading gets
/// exactly one quad, which covers the row from edge to edge. The mesher
/// merges along the row only, so a slice of 32 such rows gets 32 quads.
pub proof fn lemma_uniform_row_is_one_quad(
    lookup: BlockLookup,
    origin: BlockPos,
    face: BlockFace,
    coord3: int,
    u: int,
)
    requires
        forall|w: int| 0 <= w < 32 ==> cell_joins(lookup, face, coord3, u, 0, w),
    ensures
        row_quads(lookup, origin, face, coord3, u, 0) == seq![run_quad(lookup, origin, face, coord3, u, 0, 31)],
{
    assert(cell_joins(lookup, face, coord3, u, 0, 0));
    lemma_run_reaches_edge(lookup, face, coord3, u, 1);
    assert(row_quads(lookup, origin, face, coord3, u, 32) == Seq::<Quad>::empty());
    assert(row_quads(lookup, origin, face, coord3, u, 0) =~= seq![run_quad(lookup, origin, face, coord3, u, 0, 31)]);
}

/// The quads of the rows from `u` on of a slice in which every cell is
/// drawn, and all cells of a row have one kind and one shading: one quad
/// for each row, from edge to edge.
pub proof fn lemma_uniform_rows(lookup: BlockLookup, origin: BlockPos, face: BlockFace, coord3: int, u: int)
    requires
        0 <= u <= 32,
        forall|row: int, w: int| 0 <= row < 32 && 0 <= w < 32 ==> cell_joins(lookup, face, coord3, row, 0, w),
    ensures
        rows_quads(lookup, origin, face, coord3, u).len() == 32 - u,
        forall|row: int|
            u <= row < 32 ==> #[trigger] rows_quads(lookup, origin, face, coord3, u)[row - u] == run_quad(
                lookup,
                origin,
                face,
                coord3,
                row,
                0,
                31,
            ),
    decreases 32 - u,
{
    if u < 32 {
        lemma_uniform_row_is_one_quad(lookup, origin, face, coord3, u);
        lemma_uniform_rows(lookup, origin, face, coord3, u + 1);
        let rest = rows_quads(lookup, origin, face, coord3, u + 1);
        let all = rows_quads(lookup, origin, face, coord3, u);
        assert(all =~= seq![run_quad(lookup, origin, face, coord3, u, 0, 31)] + rest);
        assert forall|row: int| u <= row < 32 implies #[trigger] all[row - u] == run_quad(
            lookup,
            origin,
            face,
            coord3,
            row,
            0,
            31,
        ) by {
            if row > u {
                assert(all[row - u] == rest[row - (u + 1)]);
            }
        }
    }
}

/// A slice in which every cell is drawn, and all cells of a row have one
/// kind and one shading, gets exactly 32 quads: the mesher merges along
/// the rows only, so each row gets one quad, which covers it from edge to
/// edge.
pub proof fn lemma_uniform_slice_is_one_quad_for_each_row(
    lookup: BlockLookup,
    origin: BlockPos,
    face: BlockFace,
    coord3: int,
)
    requires
        forall|row: int, w: int| 0 <= row < 32 && 0 <= w < 32 ==> cell_joins(lookup, face, coord3, row, 0, w),
    ensures
        slice_quads(lookup, origin, face, coord3).len() == 32,
        forall|row: int|
            0 <= row < 32 ==> #[trigger] slice_quads(lookup, origin, face, coord3)[row] == run_quad(
                lookup,
                origin,
                face,
                coord3,
                row,
                0,
                31,
            ),
{
    lemma_uniform_rows(lookup, origin, face, coord3, 0);
    assert forall|row: int| 0 <= row < 32 implies #[trigger] slice_quads(lookup, origin, face, coord3)[row]
        == run_quad(lookup, origin, face, coord3, row, 0, 31) by {
        assert(rows_quads(lookup, origin, face, coord3, 0)[row - 0] == run_quad(
            lookup,
            origin,
            face,
            coord3,
            row,
            0,
            31,
        ));
    }
}

impl Chunk {
    /// Key of the chunk that holds the block at `block`, a position
    /// relative to this chunk's corner.
    pub open spec fn neighbor_key(&self, block: BlockPos) -> ChunkKey {
        (
            (self.chunk_position.x + block.spec_as_chunk_pos().x) as i32,
            (self.chunk_position.y + block.spec_as_chunk_pos().y) as i32,
            (self.chunk_position.z + block.spec_as_chunk_pos().z) as i32,
        )
    }

    /// The block at `block`, a position relative to this chunk's corner:
    /// one of this chunk's own blocks, or a block of the neighbour that
    /// holds the position, or `None` where that neighbour is not loaded.
    pub open spec fn spec_with_block(&self, neighbors: Map<ChunkKey, LoadedChunk>, block: BlockPos) -> Option<
        Block,
    > {
        if block.spec_is_chunk_local() {
            Some(self.spec_get_block(block))
        } else if neighbors.contains_key(self.neighbor_key(block)) {
            Some(neighbors[self.neighbor_key(block)].chunk.spec_get_block(block.spec_as_chunk_local()))
        } else {
            None
        }
    }

    /// The blocks in and around this chunk, where `neighbors` are the
    /// loaded chunks.
    pub open spec fn block_lookup(&self, neighbors: Map<ChunkKey, LoadedChunk>) -> BlockLookup {
        |block: BlockPos| self.spec_with_block(neighbors, block)
    }

    /// The areas that the mesher covers with quads in the slice of this
    /// chunk at `index` along the axis of `face`.
    pub open spec fn slice_quads(&self, neighbors: Map<ChunkKey, LoadedChunk>, face: BlockFace, index: int) -> Seq<
        Quad,
    > {
        slice_quads(self.block_lookup(neighbors), self.block_position, face, index)
    }

    /// Whether `other` holds the same blocks at the same place as this
    /// chunk. The cached quads may differ.
    pub open spec fn same_blocks(&self, other: Chunk) -> bool {
        &&& self.position == other.position
        &&& self.chunk_position == other.chunk_position
        &&& self.block_position == other.block_position
        &&& self.blocks == other.blocks
    }
}

/// Two chunks with the same blocks at the same place see the same blocks
/// in and around them, and so get the same quads.
pub proof fn lemma_block_lookup_same_blocks(a: Chunk, b: Chunk, neighbors: Map<ChunkKey, LoadedChunk>)
    requires
        a.same_blocks(b),
    ensures
        a.block_lookup(neighbors) == b.block_lookup(neighbors),
        forall|face: BlockFace, index: int| #[trigger]
            a.slice_quads(neighbors, face, index) == b.slice_quads(neighbors, face, index),
{
    assert(a.block_lookup(neighbors) =~= b.block_lookup(neighbors));
}

} // verus!
