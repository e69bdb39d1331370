use minecone::block::{Air, Block, Stone};
use minecone::parallel::Task;
use minecone::types::{BlockPos, ChunkPos, Position};
use minecone::world::{execute_task, World};

const U: i64 = 65536;

fn one_block(block: BlockPos) -> Block {
    if block == BlockPos::new(3, 0, 0) {
        Block::from(Stone::new())
    } else {
        Block::from(Air::new())
    }
}

fn nothing(_block: BlockPos) -> Block {
    Block::from(Air::new())
}

fn world_with_one_block() -> World {
    let mut world = World::new();
    execute_task(&mut world, Task::GenerateChunk(ChunkPos::new(0, 0, 0)), &one_block);
    world
}

fn center() -> Position {
    Position::new(U / 2, U / 2, U / 2)
}

#[test]
fn ray_along_x_hits_the_block() {
    let world = world_with_one_block();
    assert_eq!(world.block_raycast(center(), Position::new(U, 0, 0), 15 * U), Some(BlockPos::new(3, 0, 0)));
    // the length of the direction does not matter
    assert_eq!(world.block_raycast(center(), Position::new(1, 0, 0), 15 * U), Some(BlockPos::new(3, 0, 0)));
    assert_eq!(world.block_raycast(center(), Position::new(i64::MAX, 0, 0), 15 * U), Some(BlockPos::new(3, 0, 0)));
}

#[test]
fn ray_stops_at_its_length() {
    let world = world_with_one_block();
    assert_eq!(world.block_raycast(center(), Position::new(U, 0, 0), 3 * U), Some(BlockPos::new(3, 0, 0)));
    assert_eq!(world.block_raycast(center(), Position::new(U, 0, 0), 3 * U - 1), None);
    assert_eq!(world.block_raycast(center(), Position::new(U, 0, 0), 0), None);
    assert_eq!(world.block_raycast(center(), Position::new(U, 0, 0), -1), None);
}

#[test]
fn ray_that_misses_ends_where_the_chunks_end() {
    let world = world_with_one_block();
    assert_eq!(world.block_raycast(center(), Position::new(-U, 0, 0), 15 * U), None);
    assert_eq!(world.block_raycast(center(), Position::new(0, U, 0), 100 * U), None);
    assert_eq!(world.block_raycast(center(), Position::new(0, 0, U), i64::MAX), None);
    // one block beside the ray
    assert_eq!(world.block_raycast(Position::new(U / 2, 3 * U / 2, U / 2), Position::new(U, 0, 0), 15 * U), None);
}

#[test]
fn ray_from_an_unloaded_chunk_hits_nothing() {
    let world = world_with_one_block();
    assert_eq!(world.block_raycast(Position::new(-5 * U, U / 2, U / 2), Position::new(U, 0, 0), 15 * U), None);
    assert_eq!(World::new().block_raycast(center(), Position::new(U, 0, 0), 15 * U), None);
}

#[test]
fn ray_crosses_into_the_next_chunk() {
    let mut world = World::new();
    execute_task(&mut world, Task::GenerateChunk(ChunkPos::new(-1, 0, 0)), &nothing);
    execute_task(&mut world, Task::GenerateChunk(ChunkPos::new(0, 0, 0)), &one_block);
    let start = Position::new(-5 * U + 1, U / 2, U / 2);
    assert_eq!(world.block_raycast(start, Position::new(3, 0, 0), 15 * U), Some(BlockPos::new(3, 0, 0)));
}

#[test]
fn diagonal_ray_steps_along_the_nearer_boundary_first() {
    let mut world = World::new();
    execute_task(&mut world, Task::GenerateChunk(ChunkPos::new(0, 0, 0)), &|block: BlockPos| {
        if block == BlockPos::new(1, 0, 0) || block == BlockPos::new(1, 1, 1) {
            Block::from(Stone::new())
        } else {
            Block::from(Air::new())
        }
    });
    // nearer to the x boundary than to the y boundary
    let start = Position::new(3 * U / 4, U / 4, U / 2);
    assert_eq!(world.block_raycast(start, Position::new(U, U, 0), 15 * U), Some(BlockPos::new(1, 0, 0)));
    // nearer to the y boundary: the ray passes over the block
    let start = Position::new(U / 4, 3 * U / 4, U / 2);
    assert_eq!(world.block_raycast(start, Position::new(U, U, 0), 5 * U), None);
    // crossing x and y at once: y goes first, then x, then z
    assert_eq!(world.block_raycast(center(), Position::new(1, 1, 1), 15 * U), Some(BlockPos::new(1, 1, 1)));
}

#[test]
fn ray_toward_smaller_coordinates() {
    let mut world = World::new();
    execute_task(&mut world, Task::GenerateChunk(ChunkPos::new(0, 0, 0)), &one_block);
    let start = Position::new(10 * U + U / 2, U / 2, U / 2);
    assert_eq!(world.block_raycast(start, Position::new(-7, 0, 0), 15 * U), Some(BlockPos::new(3, 0, 0)));
    assert_eq!(world.block_raycast(start, Position::new(-7, 0, 0), 6 * U), None);
    assert_eq!(world.block_raycast(start, Position::new(-7, 0, 0), 7 * U), Some(BlockPos::new(3, 0, 0)));
}
