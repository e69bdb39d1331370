//! Boxes of chunks: all chunk positions from a minimum corner up to, but
//! not including, a maximum corner.

use vstd::prelude::*;

use crate::types::ChunkPos;

verus! {

/// Whether `chunk` lies in the box from `min` up to but not including `max`.
pub open spec fn in_box(chunk: ChunkPos, min: ChunkPos, max: ChunkPos) -> bool {
    &&& min.x <= chunk.x < max.x
    &&& min.y <= chunk.y < max.y
    &&& min.z <= chunk.z < max.z
}

/// Number of chunks that a box of these extents is taken to have: the
/// product of its three extents, which may be negative.
pub open spec fn box_volume(min: ChunkPos, max: ChunkPos) -> int {
    (max.x - min.x) * (max.y - min.y) * (max.z - min.z)
}

/// The positions `(x, y, z)` with `z` from `from` up to `max.z`.
pub open spec fn box_line(x: int, y: int, from: int, max: ChunkPos) -> Seq<ChunkPos>
    decreases max.z - from,
{
    if from >= max.z {
        Seq::empty()
    } else {
        seq![ChunkPos { x: x as i32, y: y as i32, z: from as i32 }] + box_line(x, y, from + 1, max)
    }
}

/// The positions `(x, y, z)` of the box with `y` from `from` on.
pub open spec fn box_plane(x: int, from: int, min: ChunkPos, max: ChunkPos) -> Seq<ChunkPos>
    decreases max.y - from,
{
    if from >= max.y {
        Seq::empty()
    } else {
        box_line(x, from, min.z as int, max) + box_plane(x, from + 1, min, max)
    }
}

/// The positions `(x, y, z)` of the box with `x` from `from` on.
pub open spec fn box_from(from: int, min: ChunkPos, max: ChunkPos) -> Seq<ChunkPos>
    decreases max.x - from,
{
    if from >= max.x {
        Seq::empty()
    } else {
        box_plane(from, min.y as int, min, max) + box_from(from + 1, min, max)
    }
}

/// The positions of the box from `min` up to but not including `max`, with
/// x running slowest and z fastest.
pub open spec fn box_positions(min: ChunkPos, max: ChunkPos) -> Seq<ChunkPos> {
    box_from(min.x as int, min, max)
}

pub proof fn lemma_box_line_contains(x: int, y: int, from: int, max: ChunkPos, chunk: ChunkPos)
    requires
        i32::MIN <= x <= i32::MAX,
        i32::MIN <= y <= i32::MAX,
        i32::MIN <= from,
    ensures
        box_line(x, y, from, max).contains(chunk) <==> (chunk.x == x && chunk.y == y && from <= chunk.z < max.z),
    decreases max.z - from,
{
    if from < max.z {
        let first = ChunkPos { x: x as i32, y: y as i32, z: from as i32 };
        let rest = box_line(x, y, from + 1, max);
        lemma_box_line_contains(x, y, from + 1, max, chunk);
        let all = seq![first] + rest;
        if all.contains(chunk) {
            let k = choose|k: int| 0 <= k < all.len() && all[k] == chunk;
            if k > 0 {
                assert(rest[k - 1] == chunk);
            }
        }
        if chunk == first {
            assert(all[0] == chunk);
        }
        if rest.contains(chunk) {
            let k = choose|k: int| 0 <= k < rest.len() && rest[k] == chunk;
            assert(all[k + 1] == chunk);
        }
    }
}

pub proof fn lemma_box_plane_contains(x: int, from: int, min: ChunkPos, max: ChunkPos, chunk: ChunkPos)
    requires
        i32::MIN <= x <= i32::MAX,
        i32::MIN <= from,
    ensures
        box_plane(x, from, min, max).contains(chunk) <==> (chunk.x == x && from <= chunk.y < max.y && min.z
            <= chunk.z < max.z),
    decreases max.y - from,
{
    if from < max.y {
        let line = box_line(x, from, min.z as int, max);
        let rest = box_plane(x, from + 1, min, max);
        lemma_box_line_contains(x, from, min.z as int, max, chunk);
        lemma_box_plane_contains(x, from + 1, min, max, chunk);
        lemma_concat_contains(line, rest, chunk);
    }
}

pub proof fn lemma_box_from_contains(from: int, min: ChunkPos, max: ChunkPos, chunk: ChunkPos)
    requires
        i32::MIN <= from,
    ensures
        box_from(from, min, max).contains(chunk) <==> (from <= chunk.x < max.x && min.y <= chunk.y < max.y && min.z
            <= chunk.z < max.z),
    decreases max.x - from,
{
    if from < max.x {
        let plane = box_plane(from, min.y as int, min, max);
        let rest = box_from(from + 1, min, max);
        lemma_box_plane_contains(from, min.y as int, min, max, chunk);
        lemma_box_from_contains(from + 1, min, max, chunk);
        lemma_concat_contains(plane, rest, chunk);
    }
}

/// An element is in two sequences put together exactly if it is in one
/// of them.
pub proof fn lemma_concat_contains<T>(a: Seq<T>, b: Seq<T>, item: T)
    ensures
        (a + b).contains(item) <==> (a.contains(item) || b.contains(item)),
{
    let all = a + b;
    if all.contains(item) {
        let k = choose|k: int| 0 <= k < all.len() && all[k] == item;
        if k < a.len() {
            assert(a[k] == item);
        } else {
            assert(b[k - a.len()] == item);
        }
    }
    if a.contains(item) {
        let k = choose|k: int| 0 <= k < a.len() && a[k] == item;
        assert(all[k] == item);
    }
    if b.contains(item) {
        let k = choose|k: int| 0 <= k < b.len() && b[k] == item;
        assert(all[k + a.len()] == item);
    }
}

/// The positions of a box are exactly the chunks that lie in it.
pub proof fn lemma_box_positions_contains(min: ChunkPos, max: ChunkPos, chunk: ChunkPos)
    ensures
        box_positions(min, max).contains(chunk) <==> in_box(chunk, min, max),
{
    lemma_box_from_contains(min.x as int, min, max, chunk);
}

/// The positions of the box from `min_chunk` up to but not including
/// `max_chunk`, with x running slowest and z fastest.
pub fn chunk_box(min_chunk: ChunkPos, max_chunk: ChunkPos) -> (positions: Vec<ChunkPos>)
    ensures
        positions@ == box_positions(min_chunk, max_chunk),
{
    let mut positions: Vec<ChunkPos> = Vec::new();
    let ghost total = box_positions(min_chunk, max_chunk);
    assert(positions@ + total =~= total);
    let mut x: i32 = min_chunk.x;
    while x < max_chunk.x
        invariant
            min_chunk.x <= x,
            positions@ + box_from(x as int, min_chunk, max_chunk) == total,
        decreases max_chunk.x - x,
    {
        let ghost after_x = box_from(x + 1, min_chunk, max_chunk);
        let ghost before_x = positions@;
        assert(positions@ + box_plane(x as int, min_chunk.y as int, min_chunk, max_chunk) + after_x =~= positions@
            + (box_plane(x as int, min_chunk.y as int, min_chunk, max_chunk) + after_x));
        let mut y: i32 = min_chunk.y;
        while y < max_chunk.y
            invariant
                min_chunk.y <= y,
                x < max_chunk.x,
                positions@ + box_plane(x as int, y as int, min_chunk, max_chunk) + after_x == total,
            decreases max_chunk.y - y,
        {
            let ghost after_y = box_plane(x as int, y + 1, min_chunk, max_chunk);
            assert(positions@ + box_line(x as int, y as int, min_chunk.z as int, max_chunk) + after_y + after_x
                =~= positions@ + (box_line(x as int, y as int, min_chunk.z as int, max_chunk) + after_y) + after_x);
            let mut z: i32 = min_chunk.z;
            while z < max_chunk.z
                invariant
                    min_chunk.z <= z,
                    x < max_chunk.x,
                    y < max_chunk.y,
                    positions@ + box_line(x as int, y as int, z as int, max_chunk) + after_y + after_x == total,
                decreases max_chunk.z - z,
            {
                let position = ChunkPos::new(x, y, z);
                let ghost rest = box_line(x as int, y as int, z + 1, max_chunk);
                assert(positions@.push(position) + rest + after_y + after_x =~= positions@ + (seq![position] + rest)
                    + after_y + after_x);
                positions.push(position);
                z += 1;
            }
            assert(positions@ + box_line(x as int, y as int, z as int, max_chunk) =~= positions@);
            y += 1;
        }
        assert(positions@ + box_plane(x as int, y as int, min_chunk, max_chunk) =~= positions@);
        x += 1;
    }
    assert(positions@ + box_from(x as int, min_chunk, max_chunk) =~= positions@);
    positions
}

/// Two sequences without repetitions that share no element have no
/// repetition when put together.
pub proof fn lemma_concat_no_duplicates<T>(a: Seq<T>, b: Seq<T>)
    requires
        a.no_duplicates(),
        b.no_duplicates(),
        forall|item: T| a.contains(item) ==> !b.contains(item),
    ensures
        (a + b).no_duplicates(),
{
    let all = a + b;
    assert forall|i: int, j: int| 0 <= i < all.len() && 0 <= j < all.len() && i != j implies all[i] != all[j] by {
        if i < a.len() && j >= a.len() {
            assert(a.contains(a[i]));
            assert(b.contains(b[j - a.len()]));
        }
        if j < a.len() && i >= a.len() {
            assert(a.contains(a[j]));
            assert(b.contains(b[i - a.len()]));
        }
    }
}

proof fn lemma_box_line_no_duplicates(x: int, y: int, from: int, max: ChunkPos)
    requires
        i32::MIN <= x <= i32::MAX,
        i32::MIN <= y <= i32::MAX,
        i32::MIN <= from,
    ensures
        box_line(x, y, from, max).no_duplicates(),
    decreases max.z - from,
{
    if from < max.z {
        let first = seq![ChunkPos { x: x as i32, y: y as i32, z: from as i32 }];
        let rest = box_line(x, y, from + 1, max);
        lemma_box_line_no_duplicates(x, y, from + 1, max);
        assert forall|item: ChunkPos| first.contains(item) implies !rest.contains(item) by {
            lemma_box_line_contains(x, y, from + 1, max, item);
            let k = choose|k: int| 0 <= k < first.len() && first[k] == item;
            assert(item == first[0]);
        }
        lemma_concat_no_duplicates(first, rest);
    }
}

proof fn lemma_box_plane_no_duplicates(x: int, from: int, min: ChunkPos, max: ChunkPos)
    requires
        i32::MIN <= x <= i32::MAX,
        i32::MIN <= from,
    ensures
        box_plane(x, from, min, max).no_duplicates(),
    decreases max.y - from,
{
    if from < max.y {
        let line = box_line(x, from, min.z as int, max);
        let rest = box_plane(x, from + 1, min, max);
        lemma_box_line_no_duplicates(x, from, min.z as int, max);
        lemma_box_plane_no_duplicates(x, from + 1, min, max);
        assert forall|item: ChunkPos| line.contains(item) implies !rest.contains(item) by {
            lemma_box_line_contains(x, from, min.z as int, max, item);
            lemma_box_plane_contains(x, from + 1, min, max, item);
        }
        lemma_concat_no_duplicates(line, rest);
    }
}

proof fn lemma_box_from_no_duplicates(from: int, min: ChunkPos, max: ChunkPos)
    requires
        i32::MIN <= from,
    ensures
        box_from(from, min, max).no_duplicates(),
    decreases max.x - from,
{
    if from < max.x {
        let plane = box_plane(from, min.y as int, min, max);
        let rest = box_from(from + 1, min, max);
        lemma_box_plane_no_duplicates(from, min.y as int, min, max);
        lemma_box_from_no_duplicates(from + 1, min, max);
        assert forall|item: ChunkPos| plane.contains(item) implies !rest.contains(item) by {
            lemma_box_plane_contains(from, min.y as int, min, max, item);
            lemma_box_from_contains(from + 1, min, max, item);
        }
        lemma_concat_no_duplicates(plane, rest);
    }
}

/// No position occurs twice among the positions of a box.
pub proof fn lemma_box_positions_no_duplicates(min: ChunkPos, max: ChunkPos)
    ensures
        box_positions(min, max).no_duplicates(),
{
    lemma_box_from_no_duplicates(min.x as int, min, max);
}

} // verus!
