use minecone::render_zone::{UpdatedRenderZones, RENDER_ZONE_SIZE};
use minecone::types::{BlockPos, ChunkPos};

fn sorted(zones: &UpdatedRenderZones) -> Vec<(i32, i32, i32)> {
    let mut keys: Vec<(i32, i32, i32)> = zones.iter().into_iter().map(|zone| zone.key()).collect();
    keys.sort();
    keys
}

#[test]
fn zone_size_is_8() {
    assert_eq!(RENDER_ZONE_SIZE, 8);
}

#[test]
fn new_set_is_empty() {
    assert!(UpdatedRenderZones::new().iter().is_empty());
}

#[test]
fn zone_of_chunk_rounds_down_to_multiples_of_8() {
    let zone = UpdatedRenderZones::get_render_zone_of_chunk;
    assert_eq!(zone(ChunkPos::new(0, 7, 8)), ChunkPos::new(0, 0, 8));
    assert_eq!(zone(ChunkPos::new(9, 0, 0)), ChunkPos::new(8, 0, 0));
    assert_eq!(zone(ChunkPos::new(-1, -8, -9)), ChunkPos::new(-8, -8, -16));
    assert_eq!(zone(ChunkPos::new(i32::MIN, i32::MAX, 0)), ChunkPos::new(i32::MIN, i32::MAX - 7, 0));
}

#[test]
fn mark_block_marks_the_zone_of_the_blocks_chunk() {
    let mut zones = UpdatedRenderZones::new();
    // a block of chunk (9, 0, 0)
    zones.mark_block(BlockPos::new(9 * 32 + 5, 3, 31));
    assert_eq!(sorted(&zones), vec![(8, 0, 0)]);
    assert!(!sorted(&zones).contains(&(9, 0, 0)));
    assert!(!sorted(&zones).contains(&(0, 0, 0)));
}

#[test]
fn mark_chunk_marks_each_zone_once() {
    let mut zones = UpdatedRenderZones::new();
    zones.mark_chunk(ChunkPos::new(9, 0, 0));
    zones.mark_chunk(ChunkPos::new(15, 7, 1));
    zones.mark_chunk(ChunkPos::new(-1, 0, 0));
    assert_eq!(sorted(&zones), vec![(-8, 0, 0), (8, 0, 0)]);
}

#[test]
fn mark_chunk_zone_marks_all_zones_of_the_box() {
    let mut zones = UpdatedRenderZones::new();
    zones.mark_chunk_zone(ChunkPos::new(-1, 0, 7), ChunkPos::new(9, 1, 9));
    assert_eq!(
        sorted(&zones),
        vec![(-8, 0, 0), (-8, 0, 8), (0, 0, 0), (0, 0, 8), (8, 0, 0), (8, 0, 8)]
    );
}

#[test]
fn mark_chunk_zone_of_one_chunk() {
    let mut zones = UpdatedRenderZones::new();
    zones.mark_chunk_zone(ChunkPos::new(8, 8, 8), ChunkPos::new(9, 9, 9));
    assert_eq!(sorted(&zones), vec![(8, 8, 8)]);
    // the upper corner is not part of the box
    let mut zones = UpdatedRenderZones::new();
    zones.mark_chunk_zone(ChunkPos::new(0, 0, 0), ChunkPos::new(8, 8, 8));
    assert_eq!(sorted(&zones), vec![(0, 0, 0)]);
}

#[test]
fn mark_chunk_zone_of_an_empty_box() {
    let mut zones = UpdatedRenderZones::new();
    zones.mark_chunk_zone(ChunkPos::new(0, 0, 0), ChunkPos::new(0, 0, 0));
    assert!(sorted(&zones).is_empty());
    zones.mark_chunk_zone(ChunkPos::new(5, 5, 5), ChunkPos::new(-20, 8, 8));
    assert!(sorted(&zones).is_empty());
    zones.mark_chunk_zone(ChunkPos::new(i32::MIN, 0, 0), ChunkPos::new(i32::MIN, 1, 1));
    assert!(sorted(&zones).is_empty());
}

#[test]
fn mark_chunk_zone_at_the_largest_coordinates() {
    let mut zones = UpdatedRenderZones::new();
    zones.mark_chunk_zone(ChunkPos::new(i32::MAX - 1, 0, 0), ChunkPos::new(i32::MAX, 1, 1));
    assert_eq!(sorted(&zones), vec![(i32::MAX - 7, 0, 0)]);
}

#[test]
fn clear_empties_the_set() {
    let mut zones = UpdatedRenderZones::new();
    zones.mark_chunk(ChunkPos::new(1, 2, 3));
    zones.mark_chunk(ChunkPos::new(100, 2, 3));
    assert_eq!(zones.iter().len(), 2);
    zones.clear();
    assert!(zones.iter().is_empty());
    zones.mark_chunk(ChunkPos::new(1, 2, 3));
    assert_eq!(sorted(&zones), vec![(0, 0, 0)]);
}
