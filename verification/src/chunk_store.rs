//! What is done to the store of loaded chunks: generating and unloading
//! chunks, and rebuilding their quads.

use vstd::prelude::*;

use crate::block::{Block, BlockFace, BlockFaceMesh};
use crate::chunk::{Chunk, LoadedChunk, VisitedBlockMap};
use crate::chunk_box::{
    box_positions, chunk_box, in_box, lemma_box_positions_contains, lemma_box_positions_no_duplicates,
};
use crate::chunk_map::{chunk_map_insert, chunk_map_remove, chunk_map_view, chunk_map_with, ChunkKey, ChunkMap};
use crate::slice::lemma_block_lookup_same_blocks;
use crate::types::{BlockPos, ChunkPos};

verus! {

/// Every stored chunk is well formed, is stored under its own position,
/// and is held by at least one load.
pub open spec fn chunks_wf(chunks: Map<ChunkKey, LoadedChunk>) -> bool {
    forall|key: ChunkKey| #[trigger]
        chunks.contains_key(key) ==> {
            &&& chunks[key].chunk.wf()
            &&& chunks[key].chunk.chunk_position.spec_key() == key
            &&& chunks[key].load_count >= 1
        }
}

/// Whether two stores hold the same chunks with the same blocks and the
/// same load counts. Their cached quads may differ.
pub open spec fn same_blocks_map(a: Map<ChunkKey, LoadedChunk>, b: Map<ChunkKey, LoadedChunk>) -> bool {
    &&& forall|key: ChunkKey| a.contains_key(key) == b.contains_key(key)
    &&& forall|key: ChunkKey| #[trigger]
        a.contains_key(key) ==> a[key].chunk.same_blocks(b[key].chunk) && a[key].load_count == b[key].load_count
}

/// The block at a global position in a store, or `None` where the chunk
/// that holds the position is not loaded.
pub open spec fn block_at(chunks: Map<ChunkKey, LoadedChunk>, block: BlockPos) -> Option<Block> {
    if chunks.contains_key(block.spec_as_chunk_pos().spec_key()) {
        Some(chunks[block.spec_as_chunk_pos().spec_key()].chunk.spec_get_block(block.spec_as_chunk_local()))
    } else {
        None
    }
}

/// Whether the chunk stored under `key` is loaded and the cached quads of
/// its slice at `index` along the axis of `face` are those that the mesher
/// builds from the blocks of the store as they are.
pub open spec fn slice_current_in(chunks: Map<ChunkKey, LoadedChunk>, key: ChunkKey, face: BlockFace, index: int) -> bool {
    chunks.contains_key(key) && chunks[key].chunk.slice_current(chunks, face, index)
}

/// Whether the cached quads of a slice are the same list in two stores.
pub open spec fn same_slice(
    a: Map<ChunkKey, LoadedChunk>,
    b: Map<ChunkKey, LoadedChunk>,
    key: ChunkKey,
    face: int,
    index: int,
) -> bool {
    a[key].chunk.chunk_mesh[face][index] == b[key].chunk.chunk_mesh[face][index]
}

/// A position outside a chunk lies in another chunk: looking it up never
/// leads back to the chunk itself.
pub proof fn lemma_neighbor_key_differs(chunk: Chunk, block: BlockPos)
    requires
        chunk.chunk_position.in_block_range(),
        !block.spec_is_chunk_local(),
    ensures
        chunk.neighbor_key(block) != chunk.chunk_position.spec_key(),
{
}

/// The blocks that a chunk sees around it depend only on the other chunks
/// of the store, and on those only through their blocks.
pub proof fn lemma_block_lookup_same_neighbors(chunk: Chunk, a: Map<ChunkKey, LoadedChunk>, b: Map<ChunkKey, LoadedChunk>)
    requires
        chunk.chunk_position.in_block_range(),
        forall|key: ChunkKey|
            key != chunk.chunk_position.spec_key() ==> (a.contains_key(key) == b.contains_key(key)),
        forall|key: ChunkKey|
            key != chunk.chunk_position.spec_key() && #[trigger] a.contains_key(key) ==> a[key].chunk.blocks
                == b[key].chunk.blocks,
    ensures
        chunk.block_lookup(a) == chunk.block_lookup(b),
{
    assert forall|block: BlockPos| chunk.spec_with_block(a, block) == chunk.spec_with_block(b, block) by {
        if !block.spec_is_chunk_local() {
            lemma_neighbor_key_differs(chunk, block);
            let key = chunk.neighbor_key(block);
            assert(a.contains_key(key) == b.contains_key(key));
        }
    }
    assert(chunk.block_lookup(a) =~= chunk.block_lookup(b));
}

/// A slice whose quads are current stays current when the store changes
/// only in the cached quads of other slices.
pub proof fn lemma_slice_current_preserved(
    a: Map<ChunkKey, LoadedChunk>,
    b: Map<ChunkKey, LoadedChunk>,
    key: ChunkKey,
    face: BlockFace,
    index: int,
)
    requires
        chunks_wf(a),
        same_blocks_map(a, b),
        slice_current_in(a, key, face, index),
        same_slice(a, b, key, face.spec_index() as int, index),
    ensures
        slice_current_in(b, key, face, index),
{
    assert(a.contains_key(key));
    assert(b.contains_key(key));
    lemma_block_lookup_same_blocks(a[key].chunk, b[key].chunk, a);
    lemma_block_lookup_same_neighbors(b[key].chunk, a, b);
}

/// Well-formed chunks stay well formed where only cached quads change.
pub proof fn lemma_chunks_wf_same_blocks(a: Map<ChunkKey, LoadedChunk>, b: Map<ChunkKey, LoadedChunk>)
    requires
        chunks_wf(a),
        same_blocks_map(a, b),
    ensures
        chunks_wf(b),
{
    assert forall|key: ChunkKey| #[trigger] b.contains_key(key) implies {
        &&& b[key].chunk.wf()
        &&& b[key].chunk.chunk_position.spec_key() == key
        &&& b[key].load_count >= 1
    } by {
        assert(a.contains_key(key));
    }
}

/// Rebuilds the quads of one slice of the chunk at `chunk_pos`, if that
/// chunk is loaded, and tells whether it is.
pub fn rebuild_slice(
    chunks: &mut ChunkMap,
    chunk_pos: ChunkPos,
    face: BlockFace,
    index: usize,
    visit_map: &mut VisitedBlockMap,
) -> (rebuilt: bool)
    requires
        chunks_wf(chunk_map_view(*old(chunks))),
        index < 32,
    ensures
        chunks_wf(chunk_map_view(*final(chunks))),
        same_blocks_map(chunk_map_view(*old(chunks)), chunk_map_view(*final(chunks))),
        rebuilt == chunk_map_view(*old(chunks)).contains_key(chunk_pos.spec_key()),
        rebuilt ==> slice_current_in(chunk_map_view(*final(chunks)), chunk_pos.spec_key(), face, index as int),
        forall|key: ChunkKey, f: int, i: int|
            chunk_map_view(*old(chunks)).contains_key(key) && 0 <= f < 6 && 0 <= i < 32 && (key
                != chunk_pos.spec_key() || f != face.spec_index() || i != index) ==> #[trigger] same_slice(
                chunk_map_view(*old(chunks)),
                chunk_map_view(*final(chunks)),
                key,
                f,
                i,
            ),
{
    let ghost before = chunk_map_view(*chunks);
    let key = chunk_pos.key();
    match chunk_map_remove(chunks, key) {
        Some(mut loaded) => {
            let ghost others = chunk_map_view(*chunks);
            let ghost old_chunk = loaded.chunk;
            assert(before.contains_key(key));
            loaded.chunk.mesh_update_inner(face, index, visit_map, chunks);
            let _ = chunk_map_insert(chunks, key, loaded);
            proof {
                let after = chunk_map_view(*chunks);
                assert(after =~= before.insert(key, loaded));
                lemma_block_lookup_same_neighbors(loaded.chunk, others, after);
                assert forall|other: ChunkKey| #[trigger] before.contains_key(other) implies before[other].chunk.same_blocks(
                    after[other].chunk,
                ) && before[other].load_count == after[other].load_count by {}
                lemma_chunks_wf_same_blocks(before, after);
            }
            true
        },
        None => {
            assert(chunk_map_view(*chunks) =~= before);
            false
        },
    }
}

/// Whether `after` is the store `before` with all quads of the chunk at
/// `position` rebuilt, if that chunk is loaded: every slice of the chunk is
/// current, and every other chunk is as it was.
pub open spec fn chunk_rebuilt(
    before: Map<ChunkKey, LoadedChunk>,
    after: Map<ChunkKey, LoadedChunk>,
    position: ChunkPos,
) -> bool {
    &&& same_blocks_map(before, after)
    &&& before.contains_key(position.spec_key()) ==> forall|face: BlockFace, index: int|
        0 <= index < 32 ==> #[trigger] slice_current_in(after, position.spec_key(), face, index)
    &&& forall|key: ChunkKey|
        key != position.spec_key() && #[trigger] before.contains_key(key) ==> after[key] == before[key]
}

/// Whether `after` is the store `before` with the outermost slice on
/// `face` rebuilt for every loaded chunk of a box: those slices are
/// current, and the cached quads of every other slice are as they were.
pub open spec fn face_rebuilt(
    before: Map<ChunkKey, LoadedChunk>,
    after: Map<ChunkKey, LoadedChunk>,
    min_chunk: ChunkPos,
    max_chunk: ChunkPos,
    face: BlockFace,
) -> bool {
    &&& same_blocks_map(before, after)
    &&& forall|chunk: ChunkPos|
        in_box(chunk, min_chunk, max_chunk) && #[trigger] before.contains_key(chunk.spec_key())
            ==> slice_current_in(after, chunk.spec_key(), face, outer_slice(face))
    &&& forall|key: ChunkKey, f: int, i: int|
        before.contains_key(key) && 0 <= f < 6 && 0 <= i < 32 && (!in_box(
            ChunkPos::spec_from_key(key),
            min_chunk,
            max_chunk,
        ) || f != face.spec_index() || i != outer_slice(face)) ==> #[trigger] same_slice(before, after, key, f, i)
}

/// The slice of a chunk that lies outermost on `face`.
pub open spec fn outer_slice(face: BlockFace) -> int {
    if face.spec_is_positive_face() {
        31
    } else {
        0
    }
}

/// Rebuilds all quads of the chunk at `chunk_pos`, if that chunk is
/// loaded, and tells whether it is.
pub fn rebuild_chunk(chunks: &mut ChunkMap, chunk_pos: ChunkPos) -> (rebuilt: bool)
    requires
        chunks_wf(chunk_map_view(*old(chunks))),
    ensures
        chunks_wf(chunk_map_view(*final(chunks))),
        rebuilt == chunk_map_view(*old(chunks)).contains_key(chunk_pos.spec_key()),
        chunk_rebuilt(chunk_map_view(*old(chunks)), chunk_map_view(*final(chunks)), chunk_pos),
{
    let ghost before = chunk_map_view(*chunks);
    let key = chunk_pos.key();
    match chunk_map_remove(chunks, key) {
        Some(mut loaded) => {
            let ghost others = chunk_map_view(*chunks);
            assert(before.contains_key(key));
            loaded.chunk.chunk_mesh_update(chunks);
            let _ = chunk_map_insert(chunks, key, loaded);
            proof {
                let after = chunk_map_view(*chunks);
                assert(after =~= before.insert(key, loaded));
                lemma_block_lookup_same_neighbors(loaded.chunk, others, after);
                assert forall|other: ChunkKey| #[trigger] before.contains_key(other) implies before[other].chunk.same_blocks(
                    after[other].chunk,
                ) && before[other].load_count == after[other].load_count by {}
                lemma_chunks_wf_same_blocks(before, after);
                assert forall|face: BlockFace, index: int| 0 <= index < 32 implies #[trigger] slice_current_in(
                    after,
                    key,
                    face,
                    index,
                ) by {
                    assert(loaded.chunk.slice_current(others, face, index));
                }
            }
            true
        },
        None => {
            assert(chunk_map_view(*chunks) =~= before);
            false
        },
    }
}

/// Rebuilds, for every loaded chunk of the box from `min_chunk` up to but
/// not including `max_chunk`, the quads of the slice that lies outermost
/// on `face`.
pub fn rebuild_face(chunks: &mut ChunkMap, min_chunk: ChunkPos, max_chunk: ChunkPos, face: BlockFace)
    requires
        chunks_wf(chunk_map_view(*old(chunks))),
    ensures
        chunks_wf(chunk_map_view(*final(chunks))),
        face_rebuilt(chunk_map_view(*old(chunks)), chunk_map_view(*final(chunks)), min_chunk, max_chunk, face),
{
    let ghost before = chunk_map_view(*chunks);
    let mut visit_map = VisitedBlockMap::new();
    let positions = chunk_box(min_chunk, max_chunk);
    let index: usize = if face.is_positive_face() {
        31
    } else {
        0
    };
    let mut n: usize = 0;
    while n < positions.len()
        invariant
            0 <= n <= positions.len(),
            index == outer_slice(face),
            positions@ == box_positions(min_chunk, max_chunk),
            chunks_wf(before),
            chunks_wf(chunk_map_view(*chunks)),
            same_blocks_map(before, chunk_map_view(*chunks)),
            forall|k: int|
                0 <= k < n && before.contains_key((#[trigger] positions@[k]).spec_key()) ==> slice_current_in(
                    chunk_map_view(*chunks),
                    positions@[k].spec_key(),
                    face,
                    index as int,
                ),
            forall|key: ChunkKey, f: int, i: int|
                before.contains_key(key) && 0 <= f < 6 && 0 <= i < 32 && (!in_box(
                    ChunkPos::spec_from_key(key),
                    min_chunk,
                    max_chunk,
                ) || f != face.spec_index() || i != index) ==> #[trigger] same_slice(
                    before,
                    chunk_map_view(*chunks),
                    key,
                    f,
                    i,
                ),
        decreases positions.len() - n,
    {
        let ghost current = chunk_map_view(*chunks);
        let position = positions[n];
        proof {
            lemma_box_positions_contains(min_chunk, max_chunk, position);
            assert(positions@.contains(position));
        }
        let _ = rebuild_slice(chunks, position, face, index, &mut visit_map);
        proof {
            let after = chunk_map_view(*chunks);
            assert forall|k: int| 0 <= k < n + 1 && before.contains_key((#[trigger] positions@[k]).spec_key()) implies slice_current_in(
                after,
                positions@[k].spec_key(),
                face,
                index as int,
            ) by {
                if positions@[k].spec_key() != position.spec_key() {
                    assert(current.contains_key(positions@[k].spec_key()));
                    assert(same_slice(current, after, positions@[k].spec_key(), face.spec_index() as int, index as int));
                    lemma_slice_current_preserved(current, after, positions@[k].spec_key(), face, index as int);
                }
            }
            assert forall|key: ChunkKey, f: int, i: int|
                before.contains_key(key) && 0 <= f < 6 && 0 <= i < 32 && (!in_box(
                    ChunkPos::spec_from_key(key),
                    min_chunk,
                    max_chunk,
                ) || f != face.spec_index() || i != index) implies #[trigger] same_slice(before, after, key, f, i) by {
                assert(same_slice(before, current, key, f, i));
                assert(current.contains_key(key));
                assert(same_slice(current, after, key, f, i));
            }
        }
        n += 1;
    }
    proof {
        let after = chunk_map_view(*chunks);
        assert forall|chunk: ChunkPos|
            in_box(chunk, min_chunk, max_chunk) && #[trigger] before.contains_key(
                chunk.spec_key(),
            ) implies slice_current_in(after, chunk.spec_key(), face, outer_slice(face)) by {
            lemma_box_positions_contains(min_chunk, max_chunk, chunk);
            let k = choose|k: int| 0 <= k < positions@.len() && positions@[k] == chunk;
            assert(before.contains_key(positions@[k].spec_key()));
        }
    }
}

/// Whether the store `after` is the store `before` with one more load of
/// the chunk under `key` counted, up to the largest count: the chunk is
/// loaded, its load count is one above what it was, or 1 if it was not
/// loaded, and every other chunk is as it was.
pub open spec fn counted_load(before: Map<ChunkKey, LoadedChunk>, after: Map<ChunkKey, LoadedChunk>, key: ChunkKey) -> bool {
    &&& after.contains_key(key)
    &&& after[key].load_count == (if !before.contains_key(key) {
        1
    } else if before[key].load_count == u64::MAX {
        u64::MAX
    } else {
        (before[key].load_count + 1) as u64
    })
    &&& before.contains_key(key) ==> after[key].chunk == before[key].chunk
    &&& forall|other: ChunkKey| other != key ==> after.contains_key(other) == before.contains_key(other)
    &&& forall|other: ChunkKey| other != key && #[trigger] before.contains_key(other) ==> after[other] == before[other]
}

/// Whether `chunk` is a chunk at `position`, fresh from `block_fn`: each
/// of its blocks is what `block_fn` gives for the block's global position,
/// and it has no quads yet.
pub open spec fn generated_by<F: Fn(BlockPos) -> Block>(chunk: Chunk, position: ChunkPos, block_fn: F) -> bool {
    &&& chunk.wf()
    &&& chunk.chunk_position == position
    &&& forall|block: BlockPos|
        block.spec_is_chunk_local() ==> block_fn.ensures(
            (crate::chunk::spec_global_block_pos(position, block.x as int, block.y as int, block.z as int),),
            #[trigger] chunk.spec_get_block(block),
        )
    &&& forall|face: int, index: int|
        0 <= face < 6 && 0 <= index < 32 ==> #[trigger] chunk.slice(face, index) == Seq::<BlockFaceMesh>::empty()
}

/// Whether `after` is the store `before` with the chunk at `position`
/// loaded once more: generated by `block_fn` if it was not loaded, and the
/// load counted. For a position whose block coordinates do not fit in `i32`
/// the store is as it was.
pub open spec fn chunk_generated<F: Fn(BlockPos) -> Block>(
    before: Map<ChunkKey, LoadedChunk>,
    after: Map<ChunkKey, LoadedChunk>,
    position: ChunkPos,
    block_fn: F,
) -> bool {
    if position.in_block_range() {
        &&& counted_load(before, after, position.spec_key())
        &&& !before.contains_key(position.spec_key()) ==> generated_by(
            after[position.spec_key()].chunk,
            position,
            block_fn,
        )
    } else {
        after == before
    }
}

/// Loads the chunk at `position` once more: generates it with `block_fn`
/// if it is not loaded, and counts the load. A chunk that is loaded is not
/// generated again. Tells whether the load was counted; it is not for a
/// position whose block coordinates do not fit in `i32`, for which the
/// store is left as it is.
pub fn generate_chunk<F: Fn(BlockPos) -> Block>(chunks: &mut ChunkMap, position: ChunkPos, block_fn: &F) -> (counted:
    bool)
    requires
        chunks_wf(chunk_map_view(*old(chunks))),
        forall|block: BlockPos| #[trigger] block_fn.requires((block,)),
    ensures
        chunks_wf(chunk_map_view(*final(chunks))),
        counted == position.in_block_range(),
        chunk_generated(chunk_map_view(*old(chunks)), chunk_map_view(*final(chunks)), position, *block_fn),
{
    let ghost before = chunk_map_view(*chunks);
    if position.x < -67108864 || position.x > 67108863 || position.y < -67108864 || position.y > 67108863
        || position.z < -67108864 || position.z > 67108863 {
        return false;
    }
    let key = position.key();
    let mut loaded = match chunk_map_remove(chunks, key) {
        Some(loaded) => loaded,
        None => LoadedChunk::new(Chunk::new(position, block_fn)),
    };
    // a freshly generated chunk starts with a load count of 0
    if loaded.get_load_count() < u64::MAX {
        loaded.inc_load_count();
    }
    let _ = chunk_map_insert(chunks, key, loaded);
    proof {
        let after = chunk_map_view(*chunks);
        assert(after =~= before.insert(key, loaded));
    }
    true
}

/// The store after one load less of the chunk under `key` is counted: a
/// chunk that only one load held is gone, one that more loads held is held
/// by one less, and a chunk that is not loaded stays so.
pub open spec fn unload_one(chunks: Map<ChunkKey, LoadedChunk>, key: ChunkKey) -> Map<ChunkKey, LoadedChunk> {
    if !chunks.contains_key(key) {
        chunks
    } else if chunks[key].load_count <= 1 {
        chunks.remove(key)
    } else {
        chunks.insert(
            key,
            LoadedChunk { chunk: chunks[key].chunk, load_count: (chunks[key].load_count - 1) as u64 },
        )
    }
}

/// The store after one load less of each of the chunks at `positions` is
/// counted, one position after the other.
pub open spec fn unload_all(chunks: Map<ChunkKey, LoadedChunk>, positions: Seq<ChunkPos>) -> Map<
    ChunkKey,
    LoadedChunk,
>
    decreases positions.len(),
{
    if positions.len() == 0 {
        chunks
    } else {
        unload_one(unload_all(chunks, positions.drop_last()), positions.last().spec_key())
    }
}

/// Counts one load less of every chunk of the box from `min_chunk` up to
/// but not including `max_chunk`, and drops the chunks that no load holds
/// any more. Chunks of the box that are not loaded are passed over.
pub fn unload_box(chunks: &mut ChunkMap, min_chunk: ChunkPos, max_chunk: ChunkPos)
    requires
        chunks_wf(chunk_map_view(*old(chunks))),
    ensures
        chunks_wf(chunk_map_view(*final(chunks))),
        chunk_map_view(*final(chunks)) == unload_all(
            chunk_map_view(*old(chunks)),
            box_positions(min_chunk, max_chunk),
        ),
{
    let ghost before = chunk_map_view(*chunks);
    let positions = chunk_box(min_chunk, max_chunk);
    let mut n: usize = 0;
    assert(positions@.subrange(0, 0) =~= Seq::<ChunkPos>::empty());
    while n < positions.len()
        invariant
            0 <= n <= positions.len(),
            positions@ == box_positions(min_chunk, max_chunk),
            chunks_wf(chunk_map_view(*chunks)),
            chunk_map_view(*chunks) == unload_all(before, positions@.subrange(0, n as int)),
        decreases positions.len() - n,
    {
        let ghost current = chunk_map_view(*chunks);
        let position = positions[n];
        let key = position.key();
        match chunk_map_remove(chunks, key) {
            Some(mut loaded) => {
                assert(current.contains_key(key));
                if loaded.dec_load_count() != 0 {
                    let _ = chunk_map_insert(chunks, key, loaded);
                    assert(chunk_map_view(*chunks) =~= unload_one(current, key));
                } else {
                    assert(chunk_map_view(*chunks) =~= unload_one(current, key));
                }
            },
            None => {
                assert(chunk_map_view(*chunks) =~= unload_one(current, key));
            },
        }
        proof {
            let next = positions@.subrange(0, n + 1);
            assert(next.drop_last() =~= positions@.subrange(0, n as int));
            assert(next.last() == position);
        }
        n += 1;
    }
    assert(positions@.subrange(0, positions@.len() as int) =~= positions@);
}

/// The cached quads of the chunks at `positions`, one chunk after the
/// other; chunks that are not loaded add nothing.
pub open spec fn meshes_of(chunks: Map<ChunkKey, LoadedChunk>, positions: Seq<ChunkPos>) -> Seq<BlockFaceMesh>
    decreases positions.len(),
{
    if positions.len() == 0 {
        Seq::empty()
    } else {
        meshes_of(chunks, positions.drop_last()) + (if chunks.contains_key(positions.last().spec_key()) {
            chunks[positions.last().spec_key()].chunk.spec_chunk_mesh()
        } else {
            Seq::empty()
        })
    }
}

/// The cached quads of all loaded chunks of the box from `min_chunk` up
/// to but not including `max_chunk`.
pub fn box_mesh(chunks: &ChunkMap, min_chunk: ChunkPos, max_chunk: ChunkPos) -> (mesh: Vec<BlockFaceMesh>)
    ensures
        mesh@ == meshes_of(chunk_map_view(*chunks), box_positions(min_chunk, max_chunk)),
{
    let ghost view = chunk_map_view(*chunks);
    let positions = chunk_box(min_chunk, max_chunk);
    let mut out: Vec<BlockFaceMesh> = Vec::new();
    let mut n: usize = 0;
    assert(positions@.subrange(0, 0) =~= Seq::<ChunkPos>::empty());
    while n < positions.len()
        invariant
            0 <= n <= positions.len(),
            view == chunk_map_view(*chunks),
            out@ == meshes_of(view, positions@.subrange(0, n as int)),
        decreases positions.len() - n,
    {
        let position = positions[n];
        let read_mesh = |loaded: &LoadedChunk| -> (mesh: Option<Vec<BlockFaceMesh>>)
            ensures
                mesh.is_some(),
                mesh.unwrap()@ == loaded.chunk.spec_chunk_mesh(),
            {
                loaded.chunk.get_chunk_mesh()
            };
        proof {
            let next = positions@.subrange(0, n + 1);
            assert(next.drop_last() =~= positions@.subrange(0, n as int));
            assert(next.last() == position);
        }
        let ghost start = out@;
        match chunk_map_with(chunks, position.key(), read_mesh) {
            Some(Some(mut mesh)) => {
                out.append(&mut mesh);
            },
            _ => {
                assert(out@ =~= start + Seq::<BlockFaceMesh>::empty());
            },
        }
        n += 1;
    }
    assert(positions@.subrange(0, positions@.len() as int) =~= positions@);
    out
}

/// Whether `now` is the store `before` with the slices in `touched`
/// rebuilt: the store holds the same blocks, every slice in `touched` of a
/// loaded chunk is current, and the cached quads of all other slices are as
/// they were. A slice is named by the key of its chunk, the index of its
/// face and its index along the face's axis.
pub open spec fn slices_rebuilt(
    before: Map<ChunkKey, LoadedChunk>,
    now: Map<ChunkKey, LoadedChunk>,
    touched: Set<(ChunkKey, int, int)>,
) -> bool {
    &&& same_blocks_map(before, now)
    &&& forall|key: ChunkKey, face: BlockFace, index: int|
        before.contains_key(key) && 0 <= index < 32 && touched.contains((key, face.spec_index() as int, index))
            ==> #[trigger] slice_current_in(now, key, face, index)
    &&& forall|key: ChunkKey, f: int, i: int|
        before.contains_key(key) && 0 <= f < 6 && 0 <= i < 32 && !touched.contains((key, f, i))
            ==> #[trigger] same_slice(before, now, key, f, i)
}

/// Rebuilds one more slice after the slices in `touched` have been rebuilt.
pub(crate) fn rebuild_slice_also(
    chunks: &mut ChunkMap,
    chunk_pos: ChunkPos,
    face: BlockFace,
    index: usize,
    visit_map: &mut VisitedBlockMap,
    Ghost(before): Ghost<Map<ChunkKey, LoadedChunk>>,
    Ghost(touched): Ghost<Set<(ChunkKey, int, int)>>,
) -> (rebuilt: bool)
    requires
        chunks_wf(before),
        chunks_wf(chunk_map_view(*old(chunks))),
        slices_rebuilt(before, chunk_map_view(*old(chunks)), touched),
        index < 32,
    ensures
        chunks_wf(chunk_map_view(*final(chunks))),
        rebuilt == before.contains_key(chunk_pos.spec_key()),
        slices_rebuilt(
            before,
            chunk_map_view(*final(chunks)),
            touched.insert((chunk_pos.spec_key(), face.spec_index() as int, index as int)),
        ),
{
    let ghost current = chunk_map_view(*chunks);
    let rebuilt = rebuild_slice(chunks, chunk_pos, face, index, visit_map);
    proof {
        let after = chunk_map_view(*chunks);
        let slice = (chunk_pos.spec_key(), face.spec_index() as int, index as int);
        assert forall|key: ChunkKey, other: BlockFace, i: int|
            before.contains_key(key) && 0 <= i < 32 && touched.insert(slice).contains(
                (key, other.spec_index() as int, i),
            ) implies #[trigger] slice_current_in(after, key, other, i) by {
            if (key, other.spec_index() as int, i) != slice {
                assert(slice_current_in(current, key, other, i));
                assert(current.contains_key(key));
                assert(same_slice(current, after, key, other.spec_index() as int, i));
                lemma_slice_current_preserved(current, after, key, other, i);
            } else {
                assert(other == face);
            }
        }
        assert forall|key: ChunkKey, f: int, i: int|
            before.contains_key(key) && 0 <= f < 6 && 0 <= i < 32 && !touched.insert(slice).contains(
                (key, f, i),
            ) implies #[trigger] same_slice(before, after, key, f, i) by {
            assert(same_slice(before, current, key, f, i));
            assert(current.contains_key(key));
            assert(same_slice(current, after, key, f, i));
        }
    }
    rebuilt
}

/// Whether `states` are the stores that the chunks at `positions` being
/// generated one after the other leads through: the store before the first
/// generation, then the store after each.
pub open spec fn generated_in_turn<F: Fn(BlockPos) -> Block>(
    states: Seq<Map<ChunkKey, LoadedChunk>>,
    positions: Seq<ChunkPos>,
    block_fn: F,
) -> bool {
    &&& states.len() == positions.len() + 1
    &&& forall|i: int|
        0 <= i < positions.len() ==> chunk_generated(#[trigger] states[i], states[i + 1], positions[i], block_fn)
}

/// Unloading does not load: a chunk that is loaded after chunks have been
/// unloaded was loaded before, and is held by no more loads than before.
pub proof fn lemma_unload_all_shrinks(chunks: Map<ChunkKey, LoadedChunk>, positions: Seq<ChunkPos>, key: ChunkKey)
    ensures
        unload_all(chunks, positions).contains_key(key) ==> chunks.contains_key(key) && unload_all(
            chunks,
            positions,
        )[key].load_count <= chunks[key].load_count,
    decreases positions.len(),
{
    if positions.len() > 0 {
        lemma_unload_all_shrinks(chunks, positions.drop_last(), key);
    }
}

/// A chunk that at most one load holds is gone once it has been unloaded.
pub proof fn lemma_unload_all_drops(chunks: Map<ChunkKey, LoadedChunk>, positions: Seq<ChunkPos>, chunk: ChunkPos)
    requires
        positions.contains(chunk),
        chunks.contains_key(chunk.spec_key()) ==> chunks[chunk.spec_key()].load_count <= 1,
    ensures
        !unload_all(chunks, positions).contains_key(chunk.spec_key()),
    decreases positions.len(),
{
    let k = choose|k: int| 0 <= k < positions.len() && positions[k] == chunk;
    let earlier = positions.drop_last();
    lemma_unload_all_shrinks(chunks, earlier, chunk.spec_key());
    if positions.last() != chunk {
        assert(earlier[k] == chunk);
        lemma_unload_all_drops(chunks, earlier, chunk);
    }
}

/// After the chunks at the first `count` of `positions` have been
/// generated, a chunk at one of `positions` that was not loaded at first is
/// loaded only if it has been generated, and is then held by one load.
proof fn lemma_generated_counts<F: Fn(BlockPos) -> Block>(
    states: Seq<Map<ChunkKey, LoadedChunk>>,
    positions: Seq<ChunkPos>,
    block_fn: F,
    count: int,
    chunk: ChunkPos,
)
    requires
        generated_in_turn(states, positions, block_fn),
        positions.no_duplicates(),
        0 <= count <= positions.len(),
        positions.contains(chunk),
        !states[0].contains_key(chunk.spec_key()),
    ensures
        states[count].contains_key(chunk.spec_key()) ==> states[count][chunk.spec_key()].load_count == 1 && exists|
            j: int,
        |
            0 <= j < count && positions[j] == chunk,
    decreases count,
{
    if count > 0 {
        lemma_generated_counts(states, positions, block_fn, count - 1, chunk);
        let before = states[count - 1];
        let after = states[count];
        let generated = positions[count - 1];
        assert(chunk_generated(before, after, generated, block_fn));
        if after.contains_key(chunk.spec_key()) {
            if generated == chunk {
                if before.contains_key(chunk.spec_key()) {
                    let j = choose|j: int| 0 <= j < count - 1 && positions[j] == chunk;
                    assert(positions[j] == positions[count - 1]);
                }
            } else {
                assert(generated.spec_key() != chunk.spec_key());
                assert(before.contains_key(chunk.spec_key()));
                let j = choose|j: int| 0 <= j < count - 1 && positions[j] == chunk;
                assert(0 <= j < count && positions[j] == chunk);
            }
        }
    }
}

/// Loading a box of chunks of which none was loaded, and then unloading
/// the box, leaves no chunk of the box in the store: once every chunk of
/// the box from `min_chunk` up to but not including `max_chunk` has been
/// generated, in the order in which the load asks for them, each is held by
/// one load, which the unload takes away.
pub proof fn lemma_load_then_unload_empties_box<F: Fn(BlockPos) -> Block>(
    states: Seq<Map<ChunkKey, LoadedChunk>>,
    min_chunk: ChunkPos,
    max_chunk: ChunkPos,
    block_fn: F,
)
    requires
        generated_in_turn(states, box_positions(min_chunk, max_chunk), block_fn),
        forall|chunk: ChunkPos| in_box(chunk, min_chunk, max_chunk) ==> !states[0].contains_key(chunk.spec_key()),
    ensures
        forall|chunk: ChunkPos|
            in_box(chunk, min_chunk, max_chunk) ==> !(#[trigger] unload_all(
                states.last(),
                box_positions(min_chunk, max_chunk),
            ).contains_key(chunk.spec_key())),
{
    let positions = box_positions(min_chunk, max_chunk);
    lemma_box_positions_no_duplicates(min_chunk, max_chunk);
    assert forall|chunk: ChunkPos| in_box(chunk, min_chunk, max_chunk) implies !(#[trigger] unload_all(
        states.last(),
        positions,
    ).contains_key(chunk.spec_key())) by {
        lemma_box_positions_contains(min_chunk, max_chunk, chunk);
        lemma_generated_counts(states, positions, block_fn, positions.len() as int, chunk);
        lemma_unload_all_drops(states.last(), positions, chunk);
    }
}

} // verus!
