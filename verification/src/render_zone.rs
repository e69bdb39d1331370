//! Render zones: cubes of chunks whose quads are handed to the renderer
//! together, and the set of zones whose quads have changed.

use rustc_hash::FxBuildHasher;
use std::collections::HashSet;
use vstd::prelude::*;

use crate::chunk_map::ChunkKey;
use crate::types::{floor_div, floor_div_i32, floor_div_i64, BlockPos, ChunkPos};

verus! {

/// Edge length of a render zone, in chunks.
pub const RENDER_ZONE_SIZE: i32 = 8;

/// A set of render zones, each named by the key of its corner chunk.
pub type ZoneSet = HashSet<ChunkKey, FxBuildHasher>;

/// Calls `HashSet::with_hasher` with the hasher of `rustc_hash`, which is
/// taken to return an empty set.
#[verifier::external_body]
fn zone_set_new() -> (set: ZoneSet)
    ensures
        set@ == Set::<ChunkKey>::empty(),
{
    HashSet::with_hasher(FxBuildHasher)
}

/// Calls `HashSet::insert` on a set that hashes with `rustc_hash`, which is
/// taken to add `zone` to the set and to tell whether it was not yet there.
#[verifier::external_body]
fn zone_set_insert(set: &mut ZoneSet, zone: ChunkKey) -> (added: bool)
    ensures
        final(set)@ == old(set)@.insert(zone),
        added == !old(set)@.contains(zone),
{
    set.insert(zone)
}

/// Calls `HashSet::clear` on a set that hashes with `rustc_hash`, which is
/// taken to leave the set empty.
#[verifier::external_body]
fn zone_set_clear(set: &mut ZoneSet)
    ensures
        final(set)@ == Set::<ChunkKey>::empty(),
{
    set.clear()
}

/// Calls `HashSet::iter` on a set that hashes with `rustc_hash` and
/// collects what it yields. The iterator is taken to yield each element of
/// the set once, in an order that nothing is said about.
#[verifier::external_body]
fn zone_set_elements(set: &ZoneSet) -> (elements: Vec<ChunkKey>)
    ensures
        elements@.no_duplicates(),
        elements@.to_set() == set@,
{
    set.iter().copied().collect()
}

/// The largest multiple of the zone size that is not above `c`.
pub open spec fn zone_floor(c: int) -> int {
    8 * floor_div(c, 8)
}

/// The render zone that holds `chunk`: each coordinate rounded down to a
/// multiple of the zone size.
pub open spec fn render_zone_of_chunk(chunk: ChunkPos) -> ChunkPos {
    ChunkPos {
        x: zone_floor(chunk.x as int) as i32,
        y: zone_floor(chunk.y as int) as i32,
        z: zone_floor(chunk.z as int) as i32,
    }
}

/// Whether `c` is a zone coordinate between the zones of `min` and of
/// `max - 1`.
pub open spec fn zone_coordinate_in(c: int, min: int, max: int) -> bool {
    c % 8 == 0 && zone_floor(min) <= c <= zone_floor(max - 1)
}

/// The render zones that a box of chunks touches, from `min` up to but not
/// including `max`: every zone from the one that holds `min` to the one
/// that holds `max - 1`, on each axis.
pub open spec fn zones_of_box(min: ChunkPos, max: ChunkPos) -> Set<ChunkKey> {
    Set::new(
        |zone: ChunkKey|
            zone_coordinate_in(zone.0 as int, min.x as int, max.x as int) && zone_coordinate_in(
                zone.1 as int,
                min.y as int,
                max.y as int,
            ) && zone_coordinate_in(zone.2 as int, min.z as int, max.z as int),
    )
}

/// The zones of a box that a walk over the box has passed when it stands
/// at `(x, y, z)`, walking z fastest and x slowest.
pub open spec fn zones_passed(min: ChunkPos, max: ChunkPos, x: int, y: int, z: int) -> Set<ChunkKey> {
    Set::new(
        |zone: ChunkKey|
            zones_of_box(min, max).contains(zone) && (zone.0 < x || (zone.0 == x && (zone.1 < y || (zone.1 == y
                && zone.2 < z)))),
    )
}

/// The render zones whose quads have changed since the set was last emptied.
pub struct UpdatedRenderZones(pub ZoneSet);

impl UpdatedRenderZones {
    /// The keys of the zones in the set.
    pub open spec fn view(&self) -> Set<ChunkKey> {
        self.0@
    }

    /// Whether `zone` is in the set.
    pub open spec fn contains(&self, zone: ChunkPos) -> bool {
        self.0@.contains(zone.spec_key())
    }

    pub fn new() -> (zones: UpdatedRenderZones)
        ensures
            zones@ == Set::<ChunkKey>::empty(),
    {
        UpdatedRenderZones(zone_set_new())
    }

    /// The render zone that holds `chunk`.
    pub fn get_render_zone_of_chunk(chunk: ChunkPos) -> (zone: ChunkPos)
        ensures
            zone == render_zone_of_chunk(chunk),
            zone.x % 8 == 0 && zone.x <= chunk.x < zone.x + 8,
            zone.y % 8 == 0 && zone.y <= chunk.y < zone.y + 8,
            zone.z % 8 == 0 && zone.z <= chunk.z < zone.z + 8,
    {
        ChunkPos {
            x: RENDER_ZONE_SIZE * floor_div_i32(chunk.x, RENDER_ZONE_SIZE),
            y: RENDER_ZONE_SIZE * floor_div_i32(chunk.y, RENDER_ZONE_SIZE),
            z: RENDER_ZONE_SIZE * floor_div_i32(chunk.z, RENDER_ZONE_SIZE),
        }
    }

    /// Marks the render zone that holds `block`.
    pub fn mark_block(&mut self, block: BlockPos)
        ensures
            final(self)@ == old(self)@.insert(render_zone_of_chunk(block.spec_as_chunk_pos()).spec_key()),
    {
        self.mark_chunk(ChunkPos::from(block));
    }

    /// Marks the render zone that holds `chunk`.
    pub fn mark_chunk(&mut self, chunk: ChunkPos)
        ensures
            final(self)@ == old(self)@.insert(render_zone_of_chunk(chunk).spec_key()),
    {
        let zone = Self::get_render_zone_of_chunk(chunk);
        let _ = zone_set_insert(&mut self.0, zone.key());
    }

    /// Marks every render zone that the box of chunks from `min_chunk` up
    /// to but not including `max_chunk` touches.
    pub fn mark_chunk_zone(&mut self, min_chunk: ChunkPos, max_chunk: ChunkPos)
        ensures
            final(self)@ == old(self)@.union(zones_of_box(min_chunk, max_chunk)),
    {
        let size: i64 = RENDER_ZONE_SIZE as i64;
        let min_x: i64 = size * floor_div_i64(min_chunk.x as i64, size);
        let min_y: i64 = size * floor_div_i64(min_chunk.y as i64, size);
        let min_z: i64 = size * floor_div_i64(min_chunk.z as i64, size);
        let max_x: i64 = size * floor_div_i64(max_chunk.x as i64 - 1, size);
        let max_y: i64 = size * floor_div_i64(max_chunk.y as i64 - 1, size);
        let max_z: i64 = size * floor_div_i64(max_chunk.z as i64 - 1, size);

        let ghost start = self@;
        let ghost zones = zones_of_box(min_chunk, max_chunk);
        assert(start.union(zones_passed(min_chunk, max_chunk, min_x as int, min_y as int, min_z as int)) =~= start);

        let mut x: i64 = min_x;
        while x <= max_x
            invariant
                size == 8,
                min_x == zone_floor(min_chunk.x as int),
                min_y == zone_floor(min_chunk.y as int),
                min_z == zone_floor(min_chunk.z as int),
                max_x == zone_floor(max_chunk.x - 1),
                max_y == zone_floor(max_chunk.y - 1),
                max_z == zone_floor(max_chunk.z - 1),
                min_x <= x <= max_x + 8 || (max_x < min_x && x == min_x),
                x % 8 == 0,
                self@ == start.union(zones_passed(min_chunk, max_chunk, x as int, min_y as int, min_z as int)),
            decreases max_x + 8 - x,
        {
            let mut y: i64 = min_y;
            while y <= max_y
                invariant
                    size == 8,
                    min_x == zone_floor(min_chunk.x as int),
                    min_y == zone_floor(min_chunk.y as int),
                    min_z == zone_floor(min_chunk.z as int),
                    max_x == zone_floor(max_chunk.x - 1),
                    max_y == zone_floor(max_chunk.y - 1),
                    max_z == zone_floor(max_chunk.z - 1),
                    min_x <= x <= max_x,
                    x % 8 == 0,
                    min_y <= y <= max_y + 8 || (max_y < min_y && y == min_y),
                    y % 8 == 0,
                    self@ == start.union(zones_passed(min_chunk, max_chunk, x as int, y as int, min_z as int)),
                decreases max_y + 8 - y,
            {
                let mut z: i64 = min_z;
                while z <= max_z
                    invariant
                        size == 8,
                        min_x == zone_floor(min_chunk.x as int),
                        min_y == zone_floor(min_chunk.y as int),
                        min_z == zone_floor(min_chunk.z as int),
                        max_x == zone_floor(max_chunk.x - 1),
                        max_y == zone_floor(max_chunk.y - 1),
                        max_z == zone_floor(max_chunk.z - 1),
                        min_x <= x <= max_x,
                        x % 8 == 0,
                        min_y <= y <= max_y,
                        y % 8 == 0,
                        min_z <= z <= max_z + 8 || (max_z < min_z && z == min_z),
                        z % 8 == 0,
                        self@ == start.union(zones_passed(min_chunk, max_chunk, x as int, y as int, z as int)),
                    decreases max_z + 8 - z,
                {
                    let zone = ChunkPos::new(x as i32, y as i32, z as i32);
                    let _ = zone_set_insert(&mut self.0, zone.key());
                    assert(self@ =~= start.union(
                        zones_passed(min_chunk, max_chunk, x as int, y as int, z + 8),
                    ));
                    z += size;
                }
                assert(self@ =~= start.union(zones_passed(min_chunk, max_chunk, x as int, y + 8, min_z as int)));
                y += size;
            }
            assert(self@ =~= start.union(zones_passed(min_chunk, max_chunk, x + 8, min_y as int, min_z as int)));
            x += size;
        }
        assert(self@ =~= start.union(zones));
    }

    /// Empties the set.
    pub fn clear(&mut self)
        ensures
            final(self)@ == Set::<ChunkKey>::empty(),
    {
        zone_set_clear(&mut self.0);
    }

    /// The zones in the set, each once, in no particular order.
    pub fn iter(&self) -> (zones: Vec<ChunkPos>)
        ensures
            zones@.no_duplicates(),
            forall|zone: ChunkPos| zones@.contains(zone) <==> self.contains(zone),
            zones@.len() == self@.len(),
    {
        let keys = zone_set_elements(&self.0);
        let mut zones: Vec<ChunkPos> = Vec::new();
        let mut i: usize = 0;
        while i < keys.len()
            invariant
                0 <= i <= keys.len(),
                zones@.len() == i,
                forall|k: int| 0 <= k < i ==> (#[trigger] zones@[k]).spec_key() == keys@[k],
            decreases keys.len() - i,
        {
            zones.push(ChunkPos::from_key(keys[i]));
            i += 1;
        }
        proof {
            assert forall|a: int, b: int| 0 <= a < zones@.len() && 0 <= b < zones@.len() && a != b implies zones@[a]
                != zones@[b] by {
                assert(zones@[a].spec_key() == keys@[a]);
                assert(zones@[b].spec_key() == keys@[b]);
            }
            assert forall|zone: ChunkPos| zones@.contains(zone) <==> self.contains(zone) by {
                if zones@.contains(zone) {
                    let k = choose|k: int| 0 <= k < zones@.len() && zones@[k] == zone;
                    assert(keys@[k] == zone.spec_key());
                    assert(keys@.contains(zone.spec_key()));
                    assert(keys@.to_set().contains(zone.spec_key()));
                }
                if self.contains(zone) {
                    assert(keys@.to_set().contains(zone.spec_key()));
                    assert(keys@.contains(zone.spec_key()));
                    let k = choose|k: int| 0 <= k < keys@.len() && keys@[k] == zone.spec_key();
                    assert(zones@[k].spec_key() == zone.spec_key());
                    assert(zones@[k] == zone);
                }
            }
            keys@.unique_seq_to_set();
        }
        zones
    }
}

} // verus!
