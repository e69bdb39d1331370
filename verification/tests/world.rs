use minecone::block::{Air, Block, BlockFace, Dirt, Stone};
use minecone::chunk_box::chunk_box;
use minecone::parallel::{pull_completed_task, run_task, Stolen, Task, TaskQueue};
use minecone::player::{Player, PlayerId};
use minecone::render_zone::UpdatedRenderZones;
use minecone::types::{BlockPos, ChunkPos, Position};
use minecone::world::{
    execute_task, is_supported_move, run_next_task, worker_turn, ChunkLoadJob, ChunkMeshFaceData, WorkerTurn, World,
};

const U: i64 = 65536;

fn air() -> Block {
    Block::from(Air::new())
}

fn stone() -> Block {
    Block::from(Stone::new())
}

/// Stone at and below height 0, air above.
fn ground(block: BlockPos) -> Block {
    if block.y <= 0 {
        stone()
    } else {
        air()
    }
}

fn nothing(_block: BlockPos) -> Block {
    air()
}

fn run_all(world: &mut World) -> usize {
    let mut ran = 0;
    loop {
        match run_next_task(world, &ground) {
            WorkerTurn::Ran(_) => ran += 1,
            WorkerTurn::Idle => return ran,
            WorkerTurn::Retry => {}
        }
    }
}

fn sorted(zones: &UpdatedRenderZones) -> Vec<(i32, i32, i32)> {
    let mut keys: Vec<(i32, i32, i32)> = zones.iter().into_iter().map(|zone| zone.key()).collect();
    keys.sort();
    keys
}

fn steal(queue: &mut TaskQueue) -> Stolen {
    loop {
        match queue.steal() {
            Stolen::Retry => {}
            other => return other,
        }
    }
}

#[test]
fn chunk_box_walks_x_slowest_and_z_fastest() {
    assert_eq!(
        chunk_box(ChunkPos::new(0, -1, 5), ChunkPos::new(2, 0, 7)),
        vec![
            ChunkPos::new(0, -1, 5),
            ChunkPos::new(0, -1, 6),
            ChunkPos::new(1, -1, 5),
            ChunkPos::new(1, -1, 6)
        ]
    );
    assert!(chunk_box(ChunkPos::new(0, 0, 0), ChunkPos::new(0, 5, 5)).is_empty());
    assert!(chunk_box(ChunkPos::new(3, 0, 0), ChunkPos::new(1, 5, 5)).is_empty());
    assert_eq!(chunk_box(ChunkPos::new(-1, -1, -1), ChunkPos::new(1, 1, 1)).len(), 8);
}

#[test]
fn task_queues_hand_out_tasks_in_order() {
    let mut queue = TaskQueue::new();
    assert_eq!(steal(&mut queue), Stolen::Empty);
    assert_eq!(pull_completed_task(&mut queue), None);
    let first = Task::GenerateChunk(ChunkPos::new(1, 2, 3));
    let second = Task::ChunkMesh(ChunkPos::new(4, 5, 6));
    run_task(&mut queue, first);
    run_task(&mut queue, second);
    assert_eq!(pull_completed_task(&mut queue), None);
    assert_eq!(steal(&mut queue), Stolen::Success(first));
    queue.complete(first);
    assert_eq!(steal(&mut queue), Stolen::Success(second));
    assert_eq!(steal(&mut queue), Stolen::Empty);
    queue.complete(second);
    assert_eq!(pull_completed_task(&mut queue), Some(first));
    assert_eq!(pull_completed_task(&mut queue), Some(second));
    assert_eq!(pull_completed_task(&mut queue), None);
}

#[test]
fn new_world_is_empty() {
    let mut world = World::new();
    assert!(world.chunks.is_empty());
    assert!(world.players.is_empty());
    assert!(world.chunk_load_jobs.is_empty());
    assert!(world.chunk_unload_jobs.is_empty());
    assert_eq!(run_next_task(&mut world, &ground), WorkerTurn::Idle);
    assert_eq!(world.with_block(BlockPos::new(0, 0, 0)), None);
}

#[test]
fn load_chunks_registers_a_job_and_one_task_for_each_chunk() {
    let mut world = World::new();
    let border = ChunkMeshFaceData {
        min_chunk: ChunkPos::new(0, 0, 0),
        max_chunk: ChunkPos::new(1, 1, 1),
        face: BlockFace::XPos,
    };
    world.load_chunks(ChunkPos::new(0, 0, 0), ChunkPos::new(2, 1, 3), Some(border));
    assert_eq!(
        world.chunk_load_jobs,
        vec![ChunkLoadJob {
            min_chunk: ChunkPos::new(0, 0, 0),
            max_chunk: ChunkPos::new(2, 1, 3),
            remaining_chunks: 6,
            mesh_face_task: Some(border),
        }]
    );
    for position in chunk_box(ChunkPos::new(0, 0, 0), ChunkPos::new(2, 1, 3)) {
        assert_eq!(steal(&mut world.tasks), Stolen::Success(Task::GenerateChunk(position)));
    }
    assert_eq!(steal(&mut world.tasks), Stolen::Empty);
    assert!(world.chunks.is_empty());
}

#[test]
fn load_chunks_of_an_empty_box() {
    let mut world = World::new();
    world.load_chunks(ChunkPos::new(0, 0, 0), ChunkPos::new(0, 4, 4), None);
    assert_eq!(world.chunk_load_jobs.len(), 1);
    assert_eq!(world.chunk_load_jobs[0].remaining_chunks, 0);
    assert_eq!(steal(&mut world.tasks), Stolen::Empty);
}

#[test]
fn unload_chunks_registers_a_job_and_one_task() {
    let mut world = World::new();
    world.unload_chunks(ChunkPos::new(0, 0, 0), ChunkPos::new(2, 2, 2), None);
    assert_eq!(
        world.chunk_unload_jobs,
        vec![ChunkLoadJob {
            min_chunk: ChunkPos::new(0, 0, 0),
            max_chunk: ChunkPos::new(2, 2, 2),
            remaining_chunks: 1,
            mesh_face_task: None,
        }]
    );
    assert!(world.chunk_load_jobs.is_empty());
    assert_eq!(
        steal(&mut world.tasks),
        Stolen::Success(Task::UnloadChunks { min_chunk: ChunkPos::new(0, 0, 0), max_chunk: ChunkPos::new(2, 2, 2) })
    );
    assert_eq!(steal(&mut world.tasks), Stolen::Empty);
}

#[test]
fn generate_loads_once_and_counts_every_load() {
    let mut world = World::new();
    let position = ChunkPos::new(0, 0, 0);
    execute_task(&mut world, Task::GenerateChunk(position), &ground);
    assert_eq!(world.chunks.len(), 1);
    assert_eq!(world.chunks.get(&(0, 0, 0)).unwrap().get_load_count(), 1);
    assert_eq!(world.with_block(BlockPos::new(3, 0, 3)), Some(stone()));
    assert_eq!(world.with_block(BlockPos::new(3, 1, 3)), Some(air()));
    // a chunk that is loaded is not generated again
    assert!(world.set_block(BlockPos::new(3, 1, 3), Block::from(Dirt::new())));
    execute_task(&mut world, Task::GenerateChunk(position), &nothing);
    assert_eq!(world.chunks.len(), 1);
    assert_eq!(world.chunks.get(&(0, 0, 0)).unwrap().get_load_count(), 2);
    assert_eq!(world.with_block(BlockPos::new(3, 0, 3)), Some(stone()));
    assert_eq!(world.with_block(BlockPos::new(3, 1, 3)), Some(Block::from(Dirt::new())));
    assert_eq!(pull_completed_task(&mut world.tasks), Some(Task::GenerateChunk(position)));
    assert_eq!(pull_completed_task(&mut world.tasks), Some(Task::GenerateChunk(position)));
    assert_eq!(pull_completed_task(&mut world.tasks), None);
}

#[test]
fn generate_out_of_range_leaves_the_store_alone() {
    let mut world = World::new();
    let task = Task::GenerateChunk(ChunkPos::new(67108864, 0, 0));
    execute_task(&mut world, task, &ground);
    assert!(world.chunks.is_empty());
    assert_eq!(pull_completed_task(&mut world.tasks), Some(task));
    execute_task(&mut world, Task::GenerateChunk(ChunkPos::new(67108863, 0, -67108864)), &ground);
    assert_eq!(world.chunks.len(), 1);
    assert_eq!(world.with_block(BlockPos::new(i32::MAX, 0, i32::MIN)), Some(stone()));
}

#[test]
fn load_then_unload_leaves_the_box_empty() {
    let mut world = World::new();
    let min = ChunkPos::new(-1, 0, -1);
    let max = ChunkPos::new(1, 1, 1);
    world.load_chunks(min, max, None);
    assert_eq!(run_all(&mut world), 4);
    for position in chunk_box(min, max) {
        assert_eq!(world.chunks.get(&position.key()).unwrap().get_load_count(), 1);
    }
    world.unload_chunks(min, max, None);
    assert_eq!(run_all(&mut world), 1);
    for position in chunk_box(min, max) {
        assert!(!world.chunks.contains_key(&position.key()));
    }
    assert!(world.chunks.is_empty());
}

#[test]
fn unload_keeps_chunks_that_another_load_holds() {
    let mut world = World::new();
    world.load_chunks(ChunkPos::new(0, 0, 0), ChunkPos::new(2, 1, 1), None);
    world.load_chunks(ChunkPos::new(1, 0, 0), ChunkPos::new(3, 1, 1), None);
    run_all(&mut world);
    assert_eq!(world.chunks.get(&(0, 0, 0)).unwrap().get_load_count(), 1);
    assert_eq!(world.chunks.get(&(1, 0, 0)).unwrap().get_load_count(), 2);
    assert_eq!(world.chunks.get(&(2, 0, 0)).unwrap().get_load_count(), 1);
    // the box reaches over chunks that are not loaded
    execute_task(
        &mut world,
        Task::UnloadChunks { min_chunk: ChunkPos::new(-3, 0, 0), max_chunk: ChunkPos::new(2, 1, 1) },
        &ground,
    );
    assert!(!world.chunks.contains_key(&(0, 0, 0)));
    assert_eq!(world.chunks.get(&(1, 0, 0)).unwrap().get_load_count(), 1);
    assert_eq!(world.chunks.get(&(2, 0, 0)).unwrap().get_load_count(), 1);
    assert_eq!(world.chunks.len(), 2);
}

#[test]
fn mesh_tasks_for_chunks_that_are_not_loaded_do_nothing() {
    let mut world = World::new();
    let mesh = Task::ChunkMesh(ChunkPos::new(5, 5, 5));
    let face = Task::ChunkMeshFace {
        min_chunk: ChunkPos::new(0, 0, 0),
        max_chunk: ChunkPos::new(2, 2, 2),
        face: BlockFace::YPos,
    };
    execute_task(&mut world, mesh, &ground);
    execute_task(&mut world, face, &ground);
    assert!(world.chunks.is_empty());
    assert_eq!(pull_completed_task(&mut world.tasks), Some(mesh));
    assert_eq!(pull_completed_task(&mut world.tasks), Some(face));
}

#[test]
fn completed_load_rebuilds_the_box_and_runs_the_follow_up() {
    let mut world = World::new();
    let mut zones = UpdatedRenderZones::new();
    let min = ChunkPos::new(0, 0, 0);
    let max = ChunkPos::new(1, 2, 1);
    let border = ChunkMeshFaceData { min_chunk: min, max_chunk: max, face: BlockFace::YNeg };
    world.load_chunks(min, max, Some(border));
    assert_eq!(run_all(&mut world), 2);
    world.poll_completed_tasks(&mut zones);
    // both chunks are generated: the job is settled
    assert!(world.chunk_load_jobs.is_empty());
    assert!(sorted(&zones).is_empty());
    assert_eq!(steal(&mut world.tasks), Stolen::Success(Task::ChunkMesh(ChunkPos::new(0, 0, 0))));
    assert_eq!(steal(&mut world.tasks), Stolen::Success(Task::ChunkMesh(ChunkPos::new(0, 1, 0))));
    assert_eq!(steal(&mut world.tasks), Stolen::Success(border.into_task()));
    assert_eq!(steal(&mut world.tasks), Stolen::Empty);
}

#[test]
fn load_job_waits_for_all_its_chunks() {
    let mut world = World::new();
    let mut zones = UpdatedRenderZones::new();
    world.load_chunks(ChunkPos::new(0, 0, 0), ChunkPos::new(3, 1, 1), None);
    assert!(matches!(run_next_task(&mut world, &ground), WorkerTurn::Ran(Task::GenerateChunk(_))));
    world.poll_completed_tasks(&mut zones);
    assert_eq!(world.chunk_load_jobs.len(), 1);
    assert_eq!(world.chunk_load_jobs[0].remaining_chunks, 2);
    // a chunk outside the box does not count
    world.note_completed(Task::GenerateChunk(ChunkPos::new(3, 0, 0)), &mut zones);
    assert_eq!(world.chunk_load_jobs[0].remaining_chunks, 2);
    world.note_completed(Task::GenerateChunk(ChunkPos::new(2, 0, 0)), &mut zones);
    assert_eq!(world.chunk_load_jobs[0].remaining_chunks, 1);
}

#[test]
fn completed_mesh_tasks_mark_render_zones() {
    let mut world = World::new();
    let mut zones = UpdatedRenderZones::new();
    world.note_completed(Task::ChunkMesh(ChunkPos::new(9, 0, 0)), &mut zones);
    assert_eq!(sorted(&zones), vec![(8, 0, 0)]);
    world.note_completed(
        Task::ChunkMeshFace {
            min_chunk: ChunkPos::new(-1, 0, 0),
            max_chunk: ChunkPos::new(1, 1, 1),
            face: BlockFace::XPos,
        },
        &mut zones,
    );
    assert_eq!(sorted(&zones), vec![(-8, 0, 0), (0, 0, 0), (8, 0, 0)]);
}

#[test]
fn completed_unload_marks_zones_and_runs_the_follow_up() {
    let mut world = World::new();
    let mut zones = UpdatedRenderZones::new();
    let min = ChunkPos::new(0, 0, 0);
    let max = ChunkPos::new(9, 1, 1);
    let border = ChunkMeshFaceData { min_chunk: min, max_chunk: max, face: BlockFace::XNeg };
    world.unload_chunks(min, max, Some(border));
    world.unload_chunks(ChunkPos::new(1, 1, 1), ChunkPos::new(2, 2, 2), None);
    assert_eq!(run_all(&mut world), 2);
    assert_eq!(
        pull_completed_task(&mut world.tasks),
        Some(Task::UnloadChunks { min_chunk: min, max_chunk: max })
    );
    world.note_completed(Task::UnloadChunks { min_chunk: min, max_chunk: max }, &mut zones);
    assert_eq!(sorted(&zones), vec![(0, 0, 0), (8, 0, 0)]);
    assert_eq!(world.chunk_unload_jobs.len(), 1);
    assert_eq!(world.chunk_unload_jobs[0].min_chunk, ChunkPos::new(1, 1, 1));
    assert_eq!(steal(&mut world.tasks), Stolen::Success(border.into_task()));
    world.poll_completed_tasks(&mut zones);
    assert!(world.chunk_unload_jobs.is_empty());
    assert_eq!(steal(&mut world.tasks), Stolen::Empty);
}

#[test]
fn set_block_fails_where_no_chunk_is_loaded() {
    let mut world = World::new();
    execute_task(&mut world, Task::GenerateChunk(ChunkPos::new(0, 0, 0)), &ground);
    assert!(!world.set_block(BlockPos::new(32, 0, 0), stone()));
    assert!(!world.set_block(BlockPos::new(-1, 0, 0), stone()));
    assert!(world.set_block(BlockPos::new(31, 5, 0), stone()));
    assert_eq!(world.with_block(BlockPos::new(31, 5, 0)), Some(stone()));
    assert_eq!(world.with_block(BlockPos::new(30, 5, 0)), Some(air()));
    assert_eq!(world.with_block(BlockPos::new(32, 0, 0)), None);
}

#[test]
fn whole_chunk_mesh_of_the_ground() {
    let mut world = World::new();
    execute_task(&mut world, Task::GenerateChunk(ChunkPos::new(0, 0, 0)), &ground);
    execute_task(&mut world, Task::ChunkMesh(ChunkPos::new(0, 0, 0)), &ground);
    // the top of the ground: one quad for each row
    let mesh = world.render_zone_mesh(ChunkPos::new(0, 0, 0));
    assert_eq!(mesh.len(), 32);
    assert!(world.render_zone_mesh(ChunkPos::new(8, 0, 0)).is_empty());
    assert_eq!(world.render_zone_mesh(ChunkPos::new(-7, -7, -7)).len(), 32);
}

#[test]
fn render_zone_mesh_joins_the_chunks_of_the_zone() {
    let mut world = World::new();
    world.load_chunks(ChunkPos::new(0, 0, 0), ChunkPos::new(2, 1, 1), None);
    world.load_chunks(ChunkPos::new(8, 0, 0), ChunkPos::new(9, 1, 1), None);
    run_all(&mut world);
    let mut zones = UpdatedRenderZones::new();
    world.poll_completed_tasks(&mut zones);
    run_all(&mut world);
    world.poll_completed_tasks(&mut zones);
    assert_eq!(sorted(&zones), vec![(0, 0, 0), (8, 0, 0)]);
    assert_eq!(world.render_zone_mesh(ChunkPos::new(0, 0, 0)).len(), 64);
    assert_eq!(world.render_zone_mesh(ChunkPos::new(8, 0, 0)).len(), 32);
    let first = world.chunks.get(&(0, 0, 0)).unwrap().chunk.get_chunk_mesh().unwrap();
    let second = world.chunks.get(&(1, 0, 0)).unwrap().chunk.get_chunk_mesh().unwrap();
    let mut both = first.clone();
    both.extend(second);
    assert_eq!(world.render_zone_mesh(ChunkPos::new(0, 0, 0)), both);
}

#[test]
fn border_faces_are_rebuilt_after_the_neighbor_is_loaded() {
    let mut world = World::new();
    execute_task(&mut world, Task::GenerateChunk(ChunkPos::new(0, 0, 0)), &ground);
    execute_task(&mut world, Task::ChunkMesh(ChunkPos::new(0, 0, 0)), &ground);
    assert_eq!(world.render_zone_mesh(ChunkPos::new(0, 0, 0)).len(), 32);
    // the chunk above holds air: the faces below it are still the same
    execute_task(&mut world, Task::GenerateChunk(ChunkPos::new(0, 1, 0)), &ground);
    execute_task(
        &mut world,
        Task::ChunkMeshFace {
            min_chunk: ChunkPos::new(0, 0, 0),
            max_chunk: ChunkPos::new(1, 1, 1),
            face: BlockFace::YPos,
        },
        &ground,
    );
    // slice 31 of the lower chunk is air: nothing new
    assert_eq!(world.render_zone_mesh(ChunkPos::new(0, 0, 0)).len(), 32);
    // the chunk below holds stone: the lowest faces stay hidden
    execute_task(&mut world, Task::GenerateChunk(ChunkPos::new(0, -1, 0)), &ground);
    execute_task(
        &mut world,
        Task::ChunkMeshFace {
            min_chunk: ChunkPos::new(0, 0, 0),
            max_chunk: ChunkPos::new(1, 1, 1),
            face: BlockFace::YNeg,
        },
        &ground,
    );
    assert_eq!(world.render_zone_mesh(ChunkPos::new(0, 0, 0)).len(), 32);
    // the chunk beside holds the same: its side faces toward air are drawn
    execute_task(&mut world, Task::GenerateChunk(ChunkPos::new(1, 0, 0)), &nothing);
    execute_task(
        &mut world,
        Task::ChunkMeshFace {
            min_chunk: ChunkPos::new(0, 0, 0),
            max_chunk: ChunkPos::new(1, 1, 1),
            face: BlockFace::XPos,
        },
        &ground,
    );
    assert_eq!(world.chunks.get(&(0, 0, 0)).unwrap().chunk.chunk_mesh[BlockFace::XPos.index()][31].len(), 1);
    assert_eq!(world.render_zone_mesh(ChunkPos::new(0, 0, 0)).len(), 33);
}

#[test]
fn mesh_update_adjacent_rebuilds_around_an_edited_block() {
    let mut world = World::new();
    let mut zones = UpdatedRenderZones::new();
    execute_task(&mut world, Task::GenerateChunk(ChunkPos::new(0, 0, 0)), &ground);
    execute_task(&mut world, Task::ChunkMesh(ChunkPos::new(0, 0, 0)), &ground);
    // dig a hole into the ground
    assert!(world.set_block(BlockPos::new(5, 0, 5), air()));
    assert_eq!(world.render_zone_mesh(ChunkPos::new(0, 0, 0)).len(), 32);
    world.mesh_update_adjacent(BlockPos::new(5, 0, 5), &mut zones);
    assert_eq!(sorted(&zones), vec![(0, 0, 0)]);
    let loaded = world.chunks.get(&(0, 0, 0)).unwrap();
    let mesh = &loaded.chunk.chunk_mesh;
    // the top row through the hole is cut in two
    assert_eq!(mesh[BlockFace::YPos.index()][0].len(), 33);
    // the four walls of the hole
    assert_eq!(mesh[BlockFace::XPos.index()][4].len(), 1);
    assert_eq!(mesh[BlockFace::XNeg.index()][6].len(), 1);
    assert_eq!(mesh[BlockFace::ZPos.index()][4].len(), 1);
    assert_eq!(mesh[BlockFace::ZNeg.index()][6].len(), 1);
    // the chunk below is not loaded: no floor
    assert_eq!(mesh[BlockFace::YNeg.index()][0].len(), 0);
}

#[test]
fn mesh_update_adjacent_reaches_into_the_neighbor_chunk() {
    let mut world = World::new();
    let mut zones = UpdatedRenderZones::new();
    execute_task(&mut world, Task::GenerateChunk(ChunkPos::new(7, 0, 0)), &ground);
    execute_task(&mut world, Task::GenerateChunk(ChunkPos::new(8, 0, 0)), &ground);
    // dig at the edge of chunk 8: the wall of the hole belongs to chunk 7
    assert!(world.set_block(BlockPos::new(256, 0, 5), air()));
    world.mesh_update_adjacent(BlockPos::new(256, 0, 5), &mut zones);
    assert_eq!(sorted(&zones), vec![(0, 0, 0), (8, 0, 0)]);
    assert_eq!(world.chunks.get(&(7, 0, 0)).unwrap().chunk.chunk_mesh[BlockFace::XPos.index()][31].len(), 1);
    assert_eq!(world.chunks.get(&(8, 0, 0)).unwrap().chunk.chunk_mesh[BlockFace::XNeg.index()][1].len(), 1);
}

#[test]
fn mesh_update_adjacent_without_chunks_marks_nothing() {
    let mut world = World::new();
    let mut zones = UpdatedRenderZones::new();
    world.mesh_update_adjacent(BlockPos::new(5, 0, 5), &mut zones);
    world.mesh_update_adjacent(BlockPos::new(i32::MIN, i32::MAX, 0), &mut zones);
    assert!(sorted(&zones).is_empty());
    assert!(world.chunks.is_empty());
}

#[test]
fn player_ids_count_up() {
    let mut counter = 7;
    assert_eq!(PlayerId::new(&mut counter), PlayerId(7));
    assert_eq!(PlayerId::new(&mut counter), PlayerId(8));
    assert_eq!(counter, 9);
    let mut last = u64::MAX;
    assert_eq!(PlayerId::new(&mut last), PlayerId(u64::MAX));
    assert_eq!(last, 0);
}

#[test]
fn new_player_stands_at_the_origin() {
    let player = Player::new(PlayerId(3));
    assert_eq!(player.id(), PlayerId(3));
    assert_eq!(player.position, Position::new(0, 0, 0));
    assert_eq!(player.chunk_position(), ChunkPos::new(0, 0, 0));
    assert_eq!(player.render_distance(), ChunkPos::new(10, 5, 10));
}

#[test]
fn connect_loads_the_chunks_around_the_player() {
    let mut world = World::new();
    let id = world.connect();
    assert_eq!(id, PlayerId(0));
    assert_eq!(world.players.get(&0), Some(&Player::new(id)));
    assert_eq!(
        world.chunk_load_jobs,
        vec![ChunkLoadJob {
            min_chunk: ChunkPos::new(-10, -5, -10),
            max_chunk: ChunkPos::new(10, 5, 10),
            remaining_chunks: 4000,
            mesh_face_task: None,
        }]
    );
    assert_eq!(steal(&mut world.tasks), Stolen::Success(Task::GenerateChunk(ChunkPos::new(-10, -5, -10))));
    assert_eq!(steal(&mut world.tasks), Stolen::Success(Task::GenerateChunk(ChunkPos::new(-10, -5, -9))));
    let mut waiting = 2;
    while let Stolen::Success(_) = steal(&mut world.tasks) {
        waiting += 1;
    }
    assert_eq!(waiting, 4000);
    assert_eq!(world.connect(), PlayerId(1));
}

#[test]
fn supported_moves() {
    let from = ChunkPos::new(0, 0, 0);
    assert!(is_supported_move(from, from));
    assert!(is_supported_move(from, ChunkPos::new(1, 0, 0)));
    assert!(is_supported_move(from, ChunkPos::new(0, -1, 0)));
    assert!(is_supported_move(from, ChunkPos::new(0, 0, 1)));
    assert!(!is_supported_move(from, ChunkPos::new(2, 0, 0)));
    assert!(!is_supported_move(from, ChunkPos::new(1, 1, 0)));
    assert!(!is_supported_move(from, ChunkPos::new(0, -1, 1)));
    assert!(!is_supported_move(ChunkPos::new(i32::MIN, 0, 0), ChunkPos::new(i32::MAX, 0, 0)));
}

#[test]
fn moving_an_unknown_player_does_nothing() {
    let mut world = World::new();
    assert!(!world.can_move_player(PlayerId(5), Position::new(0, 0, 0)));
    assert_eq!(world.set_player_position(PlayerId(5), Position::new(0, 0, 0)), None);
    assert!(world.chunk_load_jobs.is_empty());
    assert!(world.players.is_empty());
}

#[test]
fn moving_within_a_chunk_loads_nothing() {
    let mut world = World::new();
    let id = world.connect();
    while let Stolen::Success(_) = steal(&mut world.tasks) {}
    let position = Position::new(5 * U, 31 * U + 7, 0);
    assert!(world.can_move_player(id, position));
    assert_eq!(world.set_player_position(id, position), Some(false));
    assert_eq!(world.players.get(&0).unwrap().position, position);
    assert_eq!(world.chunk_load_jobs.len(), 1);
    assert!(world.chunk_unload_jobs.is_empty());
    assert_eq!(steal(&mut world.tasks), Stolen::Empty);
}

#[test]
fn moving_on_by_one_chunk_loads_a_slab_and_unloads_a_slab() {
    let mut world = World::new();
    let id = world.connect();
    while let Stolen::Success(_) = steal(&mut world.tasks) {}
    let position = Position::new(32 * U, 0, 0);
    assert!(world.can_move_player(id, position));
    assert_eq!(world.set_player_position(id, position), Some(true));
    assert_eq!(world.players.get(&0).unwrap().chunk_position(), ChunkPos::new(1, 0, 0));
    // the slab behind the player goes
    assert_eq!(
        world.chunk_unload_jobs,
        vec![ChunkLoadJob {
            min_chunk: ChunkPos::new(-10, -5, -10),
            max_chunk: ChunkPos::new(-9, 5, 10),
            remaining_chunks: 1,
            mesh_face_task: None,
        }]
    );
    // the slab ahead comes, and the faces of the old border are rebuilt after
    assert_eq!(
        world.chunk_load_jobs[1],
        ChunkLoadJob {
            min_chunk: ChunkPos::new(10, -5, -10),
            max_chunk: ChunkPos::new(11, 5, 10),
            remaining_chunks: 200,
            mesh_face_task: Some(ChunkMeshFaceData {
                min_chunk: ChunkPos::new(9, -5, -10),
                max_chunk: ChunkPos::new(10, 5, 10),
                face: BlockFace::XPos,
            }),
        }
    );
    assert_eq!(
        steal(&mut world.tasks),
        Stolen::Success(Task::UnloadChunks {
            min_chunk: ChunkPos::new(-10, -5, -10),
            max_chunk: ChunkPos::new(-9, 5, 10)
        })
    );
    assert_eq!(steal(&mut world.tasks), Stolen::Success(Task::GenerateChunk(ChunkPos::new(10, -5, -10))));
    let mut waiting = 1;
    while let Stolen::Success(_) = steal(&mut world.tasks) {
        waiting += 1;
    }
    assert_eq!(waiting, 200);
    assert!(!world.can_move_player(id, Position::new(-32 * U, 0, 0)));
    assert!(!world.can_move_player(id, Position::new(64 * U, 32 * U, 0)));
}

#[test]
fn moving_back_by_one_chunk_loads_the_slab_on_the_other_side() {
    let mut world = World::new();
    let id = world.connect();
    while let Stolen::Success(_) = steal(&mut world.tasks) {}
    assert_eq!(world.set_player_position(id, Position::new(0, -1, 0)), Some(true));
    assert_eq!(
        world.chunk_unload_jobs,
        vec![ChunkLoadJob {
            min_chunk: ChunkPos::new(-10, 4, -10),
            max_chunk: ChunkPos::new(10, 5, 10),
            remaining_chunks: 1,
            mesh_face_task: None,
        }]
    );
    assert_eq!(
        world.chunk_load_jobs[1],
        ChunkLoadJob {
            min_chunk: ChunkPos::new(-10, -6, -10),
            max_chunk: ChunkPos::new(10, -5, 10),
            remaining_chunks: 400,
            mesh_face_task: Some(ChunkMeshFaceData {
                min_chunk: ChunkPos::new(-10, -5, -10),
                max_chunk: ChunkPos::new(10, -4, 10),
                face: BlockFace::YNeg,
            }),
        }
    );
}

#[test]
fn an_empty_queue_answers_empty_at_the_first_attempt() {
    let mut queue = TaskQueue::new();
    assert_eq!(queue.steal(), Stolen::Empty);
    // enough tasks to fill the queue's first blocks of slots and reach into the next
    for count in [1, 62, 63, 64, 130] {
        for n in 0..count {
            run_task(&mut queue, Task::ChunkMesh(ChunkPos::new(n, count, 0)));
        }
        for n in 0..count {
            assert_eq!(steal(&mut queue), Stolen::Success(Task::ChunkMesh(ChunkPos::new(n, count, 0))));
        }
        assert_eq!(queue.steal(), Stolen::Empty);
        assert_eq!(queue.steal(), Stolen::Empty);
    }
}

#[test]
fn a_turn_on_an_empty_queue_is_idle_at_the_first_attempt() {
    let mut world = World::new();
    assert_eq!(run_next_task(&mut world, &ground), WorkerTurn::Idle);
    world.chunk_mesh_update(ChunkPos::new(0, 0, 0), ChunkPos::new(1, 1, 1));
    assert_eq!(run_all(&mut world), 1);
    assert_eq!(run_next_task(&mut world, &ground), WorkerTurn::Idle);
    assert_eq!(pull_completed_task(&mut world.tasks), Some(Task::ChunkMesh(ChunkPos::new(0, 0, 0))));
    assert_eq!(pull_completed_task(&mut world.tasks), None);
}

#[test]
fn a_turn_runs_the_task_that_waits_longest() {
    let mut world = World::new();
    let first = Task::GenerateChunk(ChunkPos::new(0, 0, 0));
    let second = Task::GenerateChunk(ChunkPos::new(5, 0, 0));
    run_task(&mut world.tasks, first);
    run_task(&mut world.tasks, second);
    let turn = loop {
        match run_next_task(&mut world, &ground) {
            WorkerTurn::Retry => {
                assert!(world.chunks.is_empty());
                assert_eq!(pull_completed_task(&mut world.tasks), None);
            }
            turn => break turn,
        }
    };
    assert_eq!(turn, WorkerTurn::Ran(first));
    assert_eq!(world.chunks.len(), 1);
    assert_eq!(world.with_block(BlockPos::new(0, 0, 0)), Some(stone()));
    assert_eq!(world.with_block(BlockPos::new(5 * 32, 0, 0)), None);
    assert_eq!(pull_completed_task(&mut world.tasks), Some(first));
    assert_eq!(pull_completed_task(&mut world.tasks), None);
    assert_eq!(steal(&mut world.tasks), Stolen::Success(second));
}

#[test]
fn a_worker_without_a_task_leaves_the_world_as_it_is() {
    let mut world = World::new();
    let waiting = Task::GenerateChunk(ChunkPos::new(0, 0, 0));
    run_task(&mut world.tasks, waiting);
    assert_eq!(worker_turn(&mut world, Stolen::Empty, &ground), WorkerTurn::Idle);
    assert_eq!(worker_turn(&mut world, Stolen::Retry, &ground), WorkerTurn::Retry);
    assert!(world.chunks.is_empty());
    assert_eq!(pull_completed_task(&mut world.tasks), None);
    assert_eq!(steal(&mut world.tasks), Stolen::Success(waiting));
    assert_eq!(steal(&mut world.tasks), Stolen::Empty);
}

#[test]
fn a_worker_runs_the_task_it_was_given() {
    let mut world = World::new();
    let waiting = Task::ChunkMesh(ChunkPos::new(7, 7, 7));
    run_task(&mut world.tasks, waiting);
    let given = Task::GenerateChunk(ChunkPos::new(0, -1, 0));
    assert_eq!(worker_turn(&mut world, Stolen::Success(given), &ground), WorkerTurn::Ran(given));
    assert_eq!(world.chunks.len(), 1);
    assert_eq!(world.with_block(BlockPos::new(3, -32, 3)), Some(stone()));
    assert_eq!(pull_completed_task(&mut world.tasks), Some(given));
    assert_eq!(pull_completed_task(&mut world.tasks), None);
    // the task that waits is still there
    assert_eq!(steal(&mut world.tasks), Stolen::Success(waiting));
    assert_eq!(steal(&mut world.tasks), Stolen::Empty);
}
