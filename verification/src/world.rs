//! The world: the store of loaded chunks, the jobs that load and unload
//! them, and the players that the chunks are loaded for.

use vstd::prelude::*;

use crate::block::{Block, BlockFace, BlockFaceMesh};
use crate::chunk::{LoadedChunk, VisitedBlockMap};
use crate::chunk_box::{box_positions, box_volume, chunk_box, in_box};
use crate::chunk_store::{
    block_at, box_mesh, chunk_generated, chunk_rebuilt, chunks_wf, face_rebuilt, generate_chunk, meshes_of, rebuild_chunk,
    rebuild_face, rebuild_slice_also, slices_rebuilt, unload_all, unload_box,
};
use crate::chunk_map::{
    chunk_map_contains_key, chunk_map_insert, chunk_map_new, chunk_map_remove, chunk_map_view, chunk_map_with, ChunkKey,
    ChunkMap,
};
use crate::completion::{after_completion, after_completions, settle_loads, settle_unloads, Ledger};
use crate::parallel::{pull_completed_task, run_task, Stolen, Task, TaskQueue};
use crate::player::{player_map_get, player_map_insert, player_map_new, Player, PlayerId, PlayerMap};
use crate::render_zone::{render_zone_of_chunk, UpdatedRenderZones};
use crate::types::{Axis, BlockPos, ChunkPos, Position};

verus! {

/// A box of chunks whose outermost slices on one face are to be rebuilt.
#[derive(Debug, Clone, Copy, PartialEq, Eq)]
pub struct ChunkMeshFaceData {
    pub min_chunk: ChunkPos,
    pub max_chunk: ChunkPos,
    pub face: BlockFace,
}

impl ChunkMeshFaceData {
    /// The task that rebuilds the slices.
    pub open spec fn spec_into_task(&self) -> Task {
        Task::ChunkMeshFace { min_chunk: self.min_chunk, max_chunk: self.max_chunk, face: self.face }
    }

    /// The task that rebuilds the slices.
    pub fn into_task(&self) -> (task: Task)
        ensures
            task == self.spec_into_task(),
    {
        Task::ChunkMeshFace { min_chunk: self.min_chunk, max_chunk: self.max_chunk, face: self.face }
    }
}

/// A load or an unload of a box of chunks that has been asked for and is
/// not settled yet.
#[derive(Debug, Clone, Copy, PartialEq, Eq)]
pub struct ChunkLoadJob {
    pub min_chunk: ChunkPos,
    pub max_chunk: ChunkPos,
    /// How many completions the job still waits for.
    pub remaining_chunks: u64,
    /// What to rebuild once the job is settled.
    pub mesh_face_task: Option<ChunkMeshFaceData>,
}

impl ChunkLoadJob {
    /// Whether `chunk` lies in the box of the job.
    pub open spec fn spec_contains_chunk(&self, chunk: ChunkPos) -> bool {
        in_box(chunk, self.min_chunk, self.max_chunk)
    }

    /// Whether `chunk` lies in the box of the job.
    #[verifier::when_used_as_spec(spec_contains_chunk)]
    pub fn contains_chunk(&self, chunk: ChunkPos) -> (contained: bool)
        ensures
            contained == self.spec_contains_chunk(chunk),
    {
        chunk.x >= self.min_chunk.x && chunk.y >= self.min_chunk.y && chunk.z >= self.min_chunk.z && chunk.x
            < self.max_chunk.x && chunk.y < self.max_chunk.y && chunk.z < self.max_chunk.z
    }

    /// A job whose box holds a chunk still waits for a completion.
    pub open spec fn wf(&self) -> bool {
        (self.min_chunk.x < self.max_chunk.x && self.min_chunk.y < self.max_chunk.y && self.min_chunk.z
            < self.max_chunk.z) ==> self.remaining_chunks >= 1
    }
}

/// The tasks that generate the chunks at `positions`, or that rebuild
/// their quads, in the order of the positions.
pub open spec fn box_tasks(positions: Seq<ChunkPos>, generate: bool) -> Seq<Task> {
    positions.map_values(
        |position: ChunkPos|
            if generate {
                Task::GenerateChunk(position)
            } else {
                Task::ChunkMesh(position)
            },
    )
}

/// Puts one task for each of `positions` on the waiting queue.
fn run_box_tasks(queue: &mut TaskQueue, positions: &Vec<ChunkPos>, generate: bool)
    ensures
        final(queue).waiting() == old(queue).waiting() + box_tasks(positions@, generate),
        final(queue).completed() == old(queue).completed(),
{
    let ghost tasks = box_tasks(positions@, generate);
    assert(queue.waiting() =~= old(queue).waiting() + tasks.subrange(0, 0));
    let mut i: usize = 0;
    while i < positions.len()
        invariant
            0 <= i <= positions.len(),
            tasks == box_tasks(positions@, generate),
            queue.waiting() == old(queue).waiting() + tasks.subrange(0, i as int),
            queue.completed() == old(queue).completed(),
        decreases positions.len() - i,
    {
        let position = positions[i];
        let task = if generate {
            Task::GenerateChunk(position)
        } else {
            Task::ChunkMesh(position)
        };
        assert(task == tasks[i as int]);
        assert(tasks.subrange(0, i + 1) =~= tasks.subrange(0, i as int).push(task));
        assert((old(queue).waiting() + tasks.subrange(0, i as int)).push(task) =~= old(queue).waiting()
            + tasks.subrange(0, i + 1));
        run_task(queue, task);
        i += 1;
    }
    assert(tasks.subrange(0, positions.len() as int) =~= tasks);
}

/// The world.
pub struct World {
    pub players: PlayerMap,
    pub chunks: ChunkMap,
    /// The loads that are not settled yet, in the order they were asked for.
    pub chunk_load_jobs: Vec<ChunkLoadJob>,
    /// The unloads that are not settled yet, in the order they were asked for.
    pub chunk_unload_jobs: Vec<ChunkLoadJob>,
    pub tasks: TaskQueue,
    /// The number of the id that the next player gets.
    pub next_player_id: u64,
}

impl World {
    /// The loaded chunks, by key.
    pub open spec fn loaded(&self) -> Map<ChunkKey, LoadedChunk> {
        chunk_map_view(self.chunks)
    }

    /// The invariant of the world: its chunks, its players and its load
    /// jobs are well formed.
    pub open spec fn wf(&self) -> bool {
        &&& chunks_wf(self.loaded())
        &&& forall|id: u64| #[trigger] self.players@.contains_key(id) ==> self.players@[id].wf()
        &&& forall|j: int| 0 <= j < self.chunk_load_jobs@.len() ==> (#[trigger] self.chunk_load_jobs@[j]).wf()
    }

    /// Whether `other` differs from this world at most in its store of
    /// chunks.
    pub open spec fn same_but_chunks(&self, other: World) -> bool {
        &&& self.players == other.players
        &&& self.chunk_load_jobs == other.chunk_load_jobs
        &&& self.chunk_unload_jobs == other.chunk_unload_jobs
        &&& self.tasks.waiting() == other.tasks.waiting()
        &&& self.tasks.completed() == other.tasks.completed()
        &&& self.next_player_id == other.next_player_id
    }

    /// A world without chunks, players, jobs or tasks.
    pub fn new() -> (world: World)
        ensures
            world.wf(),
            world.loaded() == (Map::<ChunkKey, LoadedChunk>::empty()),
            world.players@ == (Map::<u64, Player>::empty()),
            world.chunk_load_jobs@.len() == 0,
            world.chunk_unload_jobs@.len() == 0,
            world.tasks.waiting().len() == 0,
            world.tasks.completed().len() == 0,
            world.next_player_id == 0,
    {
        World {
            players: player_map_new(),
            chunks: chunk_map_new(),
            chunk_load_jobs: Vec::new(),
            chunk_unload_jobs: Vec::new(),
            tasks: TaskQueue::new(),
            next_player_id: 0,
        }
    }

    /// Asks for the chunks of the box from `min_chunk` up to but not
    /// including `max_chunk` to be loaded: registers the load, which waits
    /// for as many completions as the box has chunks, and submits one task
    /// for each chunk of the box. A chunk that is loaded already is kept,
    /// and the load counted.
    ///
    /// The product of the extents of the box must not be negative.
    pub fn load_chunks(&mut self, min_chunk: ChunkPos, max_chunk: ChunkPos, mesh_face_task: Option<ChunkMeshFaceData>)
        requires
            old(self).wf(),
            0 <= box_volume(min_chunk, max_chunk) <= u64::MAX,
        ensures
            final(self).wf(),
            final(self).chunk_load_jobs@ == old(self).chunk_load_jobs@.push(
                ChunkLoadJob {
                    min_chunk,
                    max_chunk,
                    remaining_chunks: box_volume(min_chunk, max_chunk) as u64,
                    mesh_face_task,
                },
            ),
            final(self).tasks.waiting() == old(self).tasks.waiting() + box_tasks(
                box_positions(min_chunk, max_chunk),
                true,
            ),
            final(self).tasks.completed() == old(self).tasks.completed(),
            final(self).chunk_unload_jobs == old(self).chunk_unload_jobs,
            final(self).chunks == old(self).chunks,
            final(self).players == old(self).players,
            final(self).next_player_id == old(self).next_player_id,
    {
        let dx: i128 = max_chunk.x as i128 - min_chunk.x as i128;
        let dy: i128 = max_chunk.y as i128 - min_chunk.y as i128;
        let dz: i128 = max_chunk.z as i128 - min_chunk.z as i128;
        assert(-0x1_0000_0000_0000_0000 <= dx * dy <= 0x1_0000_0000_0000_0000) by (nonlinear_arith)
            requires
                -0x1_0000_0000 <= dx <= 0x1_0000_0000,
                -0x1_0000_0000 <= dy <= 0x1_0000_0000,
        ;
        let volume: i128 = dx * dy * dz;
        assert(dx > 0 && dy > 0 && dz > 0 ==> dx * dy * dz >= 1) by (nonlinear_arith);
        let job = ChunkLoadJob { min_chunk, max_chunk, remaining_chunks: volume as u64, mesh_face_task };
        self.chunk_load_jobs.push(job);

        let positions = chunk_box(min_chunk, max_chunk);
        run_box_tasks(&mut self.tasks, &positions, true);
    }

    /// Asks for the chunks of the box from `min_chunk` up to but not
    /// including `max_chunk` to be unloaded: registers the unload, which
    /// waits for one completion, and submits one task for the whole box.
    pub fn unload_chunks(
        &mut self,
        min_chunk: ChunkPos,
        max_chunk: ChunkPos,
        mesh_face_task: Option<ChunkMeshFaceData>,
    )
        requires
            old(self).wf(),
        ensures
            final(self).wf(),
            final(self).chunk_unload_jobs@ == old(self).chunk_unload_jobs@.push(
                ChunkLoadJob { min_chunk, max_chunk, remaining_chunks: 1, mesh_face_task },
            ),
            final(self).tasks.waiting() == old(self).tasks.waiting().push(Task::UnloadChunks { min_chunk, max_chunk }),
            final(self).tasks.completed() == old(self).tasks.completed(),
            final(self).chunk_load_jobs == old(self).chunk_load_jobs,
            final(self).chunks == old(self).chunks,
            final(self).players == old(self).players,
            final(self).next_player_id == old(self).next_player_id,
    {
        self.chunk_unload_jobs.push(ChunkLoadJob { min_chunk, max_chunk, remaining_chunks: 1, mesh_face_task });
        run_task(&mut self.tasks, Task::UnloadChunks { min_chunk, max_chunk });
    }

    /// Submits, for each chunk of the box from `min_chunk` up to but not
    /// including `max_chunk`, the task that rebuilds all its quads.
    pub fn chunk_mesh_update(&mut self, min_chunk: ChunkPos, max_chunk: ChunkPos)
        requires
            old(self).wf(),
        ensures
            final(self).wf(),
            final(self).tasks.waiting() == old(self).tasks.waiting() + box_tasks(
                box_positions(min_chunk, max_chunk),
                false,
            ),
            final(self).tasks.completed() == old(self).tasks.completed(),
            final(self).chunk_load_jobs == old(self).chunk_load_jobs,
            final(self).chunk_unload_jobs == old(self).chunk_unload_jobs,
            final(self).chunks == old(self).chunks,
            final(self).players == old(self).players,
            final(self).next_player_id == old(self).next_player_id,
    {
        let positions = chunk_box(min_chunk, max_chunk);
        run_box_tasks(&mut self.tasks, &positions, false);
    }

    /// The block at a global position, or `None` where the chunk that
    /// holds the position is not loaded.
    #[inline]
    pub fn with_block(&self, block: BlockPos) -> (found: Option<Block>)
        ensures
            found == block_at(self.loaded(), block),
    {
        let (chunk_position, local) = block.as_chunk_block_pos();
        let read_block = |loaded: &LoadedChunk| -> (read: Block)
            ensures
                read == loaded.chunk.spec_get_block(local),
            {
                loaded.chunk.get_block(local)
            };
        chunk_map_with(&self.chunks, chunk_position.key(), read_block)
    }

    /// Puts `block` at a global position, and tells whether it could:
    /// whether the chunk that holds the position is loaded. The cached
    /// quads are left as they are.
    pub fn set_block(&mut self, block_pos: BlockPos, block: Block) -> (success: bool)
        requires
            old(self).wf(),
        ensures
            final(self).wf(),
            final(self).same_but_chunks(*old(self)),
            success == old(self).loaded().contains_key(block_pos.spec_as_chunk_pos().spec_key()),
            !success ==> final(self).loaded() == old(self).loaded(),
            success ==> {
                let key = block_pos.spec_as_chunk_pos().spec_key();
                let before = old(self).loaded()[key];
                let after = final(self).loaded()[key];
                &&& final(self).loaded() == old(self).loaded().insert(key, after)
                &&& after.load_count == before.load_count
                &&& after.chunk.chunk_mesh == before.chunk.chunk_mesh
                &&& after.chunk.chunk_position == before.chunk.chunk_position
                &&& after.chunk.spec_get_block(block_pos.spec_as_chunk_local()) == block
                &&& forall|other: BlockPos|
                    other.spec_is_chunk_local() && other != block_pos.spec_as_chunk_local()
                        ==> #[trigger] after.chunk.spec_get_block(other) == before.chunk.spec_get_block(other)
            },
            block_at(final(self).loaded(), block_pos) == (if success {
                Some(block)
            } else {
                None
            }),
    {
        let (chunk_pos, local) = block_pos.as_chunk_block_pos();
        match chunk_map_remove(&mut self.chunks, chunk_pos.key()) {
            Some(mut loaded) => {
                loaded.chunk.set_block(local, block);
                let _ = chunk_map_insert(&mut self.chunks, chunk_pos.key(), loaded);
                assert(final(self).loaded() =~= old(self).loaded().insert(chunk_pos.spec_key(), loaded));
                true
            },
            None => {
                assert(final(self).loaded() =~= old(self).loaded());
                false
            },
        }
    }
}

/// What a task does to the store of chunks when it is run, given the
/// store before and after it.
pub open spec fn task_effect<F: Fn(BlockPos) -> Block>(
    before: Map<ChunkKey, LoadedChunk>,
    after: Map<ChunkKey, LoadedChunk>,
    task: Task,
    block_fn: F,
) -> bool {
    match task {
        Task::ChunkMesh(chunk) => chunk_rebuilt(before, after, chunk),
        Task::ChunkMeshFace { min_chunk, max_chunk, face } => face_rebuilt(before, after, min_chunk, max_chunk, face),
        Task::GenerateChunk(chunk) => chunk_generated(before, after, chunk, block_fn),
        Task::UnloadChunks { min_chunk, max_chunk } => after == unload_all(
            before,
            box_positions(min_chunk, max_chunk),
        ),
    }
}

/// Runs `task` on the world and hands it in as completed. Chunks that the
/// task names and that are not loaded are passed over; `block_fn` gives
/// the blocks of a chunk that has to be generated.
pub fn execute_task<F: Fn(BlockPos) -> Block>(world: &mut World, task: Task, block_fn: &F)
    requires
        old(world).wf(),
        forall|block: BlockPos| #[trigger] block_fn.requires((block,)),
    ensures
        final(world).wf(),
        task_effect(old(world).loaded(), final(world).loaded(), task, *block_fn),
        final(world).tasks.completed() == old(world).tasks.completed().push(task),
        final(world).tasks.waiting() == old(world).tasks.waiting(),
        final(world).players == old(world).players,
        final(world).chunk_load_jobs == old(world).chunk_load_jobs,
        final(world).chunk_unload_jobs == old(world).chunk_unload_jobs,
        final(world).next_player_id == old(world).next_player_id,
{
    match task {
        Task::ChunkMesh(chunk) => {
            let _ = rebuild_chunk(&mut world.chunks, chunk);
        },
        Task::ChunkMeshFace { face, min_chunk, max_chunk } => {
            rebuild_face(&mut world.chunks, min_chunk, max_chunk, face);
        },
        Task::GenerateChunk(chunk) => {
            let _ = generate_chunk(&mut world.chunks, chunk, block_fn);
        },
        Task::UnloadChunks { min_chunk, max_chunk } => {
            unload_box(&mut world.chunks, min_chunk, max_chunk);
        },
    }
    world.tasks.complete(task);
}

/// What one turn of a worker did.
#[derive(Debug, Clone, Copy, PartialEq, Eq, Structural)]
pub enum WorkerTurn {
    /// The task that was taken from the queue and run.
    Ran(Task),
    /// No task waits: the worker may sleep for a moment.
    Idle,
    /// Nothing was taken; the worker tries again at once.
    Retry,
}

/// One turn of a worker: idle where no task waits; else it runs the task
/// that waits longest, or nothing, where the queue asks for another attempt.
pub fn run_next_task<F: Fn(BlockPos) -> Block>(world: &mut World, block_fn: &F) -> (turn: WorkerTurn)
    requires
        old(world).wf(),
        forall|block: BlockPos| #[trigger] block_fn.requires((block,)),
    ensures
        final(world).wf(),
        final(world).players == old(world).players,
        final(world).chunk_load_jobs == old(world).chunk_load_jobs,
        final(world).chunk_unload_jobs == old(world).chunk_unload_jobs,
        final(world).next_player_id == old(world).next_player_id,
        match turn {
            WorkerTurn::Ran(task) => {
                &&& old(world).tasks.waiting().len() > 0
                &&& task == old(world).tasks.waiting()[0]
                &&& final(world).tasks.waiting() == old(world).tasks.waiting().drop_first()
                &&& final(world).tasks.completed() == old(world).tasks.completed().push(task)
                &&& task_effect(old(world).loaded(), final(world).loaded(), task, *block_fn)
            },
            WorkerTurn::Idle => {
                &&& old(world).tasks.waiting().len() == 0
                &&& final(world).tasks.waiting() == old(world).tasks.waiting()
                &&& final(world).tasks.completed() == old(world).tasks.completed()
                &&& final(world).chunks == old(world).chunks
            },
            WorkerTurn::Retry => {
                &&& old(world).tasks.waiting().len() > 0
                &&& final(world).tasks.waiting() == old(world).tasks.waiting()
                &&& final(world).tasks.completed() == old(world).tasks.completed()
                &&& final(world).chunks == old(world).chunks
            },
        },
{
    let stolen = world.tasks.steal();
    worker_turn(world, stolen, block_fn)
}

/// What a worker does with the answer of the waiting queue: it runs the
/// task that it was given and hands it in as completed; without a task it
/// leaves the world as it is, and reports whether the queue was empty or
/// the attempt has to be made again.
pub fn worker_turn<F: Fn(BlockPos) -> Block>(world: &mut World, stolen: Stolen, block_fn: &F) -> (turn: WorkerTurn)
    requires
        old(world).wf(),
        forall|block: BlockPos| #[trigger] block_fn.requires((block,)),
    ensures
        final(world).wf(),
        final(world).players == old(world).players,
        final(world).chunk_load_jobs == old(world).chunk_load_jobs,
        final(world).chunk_unload_jobs == old(world).chunk_unload_jobs,
        final(world).next_player_id == old(world).next_player_id,
        final(world).tasks.waiting() == old(world).tasks.waiting(),
        match stolen {
            Stolen::Success(task) => {
                &&& turn == WorkerTurn::Ran(task)
                &&& final(world).tasks.completed() == old(world).tasks.completed().push(task)
                &&& task_effect(old(world).loaded(), final(world).loaded(), task, *block_fn)
            },
            Stolen::Empty => {
                &&& turn == WorkerTurn::Idle
                &&& final(world).tasks.completed() == old(world).tasks.completed()
                &&& final(world).chunks == old(world).chunks
            },
            Stolen::Retry => {
                &&& turn == WorkerTurn::Retry
                &&& final(world).tasks.completed() == old(world).tasks.completed()
                &&& final(world).chunks == old(world).chunks
            },
        },
{
    match stolen {
        Stolen::Success(task) => {
            execute_task(world, task, block_fn);
            WorkerTurn::Ran(task)
        },
        Stolen::Empty => WorkerTurn::Idle,
        Stolen::Retry => WorkerTurn::Retry,
    }
}

impl World {
    /// What the world holds of jobs and waiting tasks, together with the
    /// render zones marked in `zones`.
    pub open spec fn ledger(&self, zones: UpdatedRenderZones) -> Ledger {
        Ledger {
            load_jobs: self.chunk_load_jobs@,
            unload_jobs: self.chunk_unload_jobs@,
            waiting: self.tasks.waiting(),
            zones: zones@,
        }
    }

    /// Takes note that `task` is completed: marks the render zones that
    /// the task has changed, settles the jobs that it completes, and
    /// submits the tasks that follow from that.
    pub fn note_completed(&mut self, task: Task, updated_render_zones: &mut UpdatedRenderZones)
        requires
            old(self).wf(),
        ensures
            final(self).wf(),
            final(self).ledger(*final(updated_render_zones)) == after_completion(
                old(self).ledger(*old(updated_render_zones)),
                task,
            ),
            final(self).tasks.completed() == old(self).tasks.completed(),
            final(self).chunks == old(self).chunks,
            final(self).players == old(self).players,
            final(self).next_player_id == old(self).next_player_id,
    {
        let ghost before = self.ledger(*updated_render_zones);
        match task {
            Task::ChunkMesh(chunk) => {
                updated_render_zones.mark_chunk(chunk);
            },
            Task::ChunkMeshFace { min_chunk, max_chunk, face: _ } => {
                updated_render_zones.mark_chunk_zone(min_chunk, max_chunk);
            },
            Task::GenerateChunk(chunk) => {
                let (open_jobs, finished) = settle_loads(&self.chunk_load_jobs, chunk);
                self.chunk_load_jobs = open_jobs;
                if let Some(finished_job) = finished {
                    self.chunk_mesh_update(finished_job.min_chunk, finished_job.max_chunk);
                    if let Some(mesh_face_task) = finished_job.mesh_face_task {
                        run_task(&mut self.tasks, mesh_face_task.into_task());
                    } else {
                        assert(self.tasks.waiting() =~= self.tasks.waiting() + Seq::<Task>::empty());
                    }
                }
            },
            Task::UnloadChunks { min_chunk, max_chunk } => {
                // the chunks are gone: their zones have to be drawn again
                updated_render_zones.mark_chunk_zone(min_chunk, max_chunk);
                let (open_jobs, finished) = settle_unloads(&self.chunk_unload_jobs, min_chunk, max_chunk);
                self.chunk_unload_jobs = open_jobs;
                if let Some(finished_job) = finished {
                    if let Some(mesh_face_task) = finished_job.mesh_face_task {
                        run_task(&mut self.tasks, mesh_face_task.into_task());
                    } else {
                        assert(self.tasks.waiting() =~= self.tasks.waiting() + Seq::<Task>::empty());
                    }
                }
            },
        }
        assert(self.ledger(*updated_render_zones) =~= after_completion(before, task));
    }

    /// Takes note of all tasks that have been completed, in the order of
    /// their completion. Never waits: tasks that are not completed yet are
    /// left for the next call.
    pub fn poll_completed_tasks(&mut self, updated_render_zones: &mut UpdatedRenderZones)
        requires
            old(self).wf(),
        ensures
            final(self).wf(),
            final(self).ledger(*final(updated_render_zones)) == after_completions(
                old(self).ledger(*old(updated_render_zones)),
                old(self).tasks.completed(),
            ),
            final(self).tasks.completed().len() == 0,
            final(self).chunks == old(self).chunks,
            final(self).players == old(self).players,
            final(self).next_player_id == old(self).next_player_id,
    {
        let ghost start = self.ledger(*updated_render_zones);
        let ghost completed = self.tasks.completed();
        let ghost mut noted: int = 0;
        assert(completed.subrange(0, 0) =~= Seq::<Task>::empty());
        assert(completed.subrange(0, completed.len() as int) =~= completed);
        loop
            invariant
                self.wf(),
                0 <= noted <= completed.len(),
                self.tasks.completed() == completed.subrange(noted, completed.len() as int),
                self.ledger(*updated_render_zones) == after_completions(start, completed.subrange(0, noted)),
                self.chunks == old(self).chunks,
                self.players == old(self).players,
                self.next_player_id == old(self).next_player_id,
            ensures
                self.wf(),
                self.tasks.completed().len() == 0,
                self.ledger(*updated_render_zones) == after_completions(start, completed),
                self.chunks == old(self).chunks,
                self.players == old(self).players,
                self.next_player_id == old(self).next_player_id,
            decreases completed.len() - noted,
        {
            let task = match pull_completed_task(&mut self.tasks) {
                Some(task) => task,
                None => {
                    proof {
                        assert(noted == completed.len());
                        assert(completed.subrange(0, noted) =~= completed);
                    }
                    break ;
                },
            };
            proof {
                let next = completed.subrange(0, noted + 1);
                assert(next.drop_last() =~= completed.subrange(0, noted));
                assert(next.last() == task);
                assert(completed.subrange(noted, completed.len() as int).drop_first() =~= completed.subrange(
                    noted + 1,
                    completed.len() as int,
                ));
            }
            self.note_completed(task, updated_render_zones);
            proof {
                noted = noted + 1;
            }
        }
    }
}

/// The boxes of chunks that change hands when a player moves on by one
/// chunk along one axis: the slab to unload behind the player, the slab to
/// load ahead, and the border between the new slab and the chunks that
/// stay, whose faces toward the new slab have to be rebuilt.
pub struct SlabMove {
    pub unload_min: ChunkPos,
    pub unload_max: ChunkPos,
    pub load_min: ChunkPos,
    pub load_max: ChunkPos,
    pub border: ChunkMeshFaceData,
}

/// The sum of two chunk positions.
pub open spec fn chunk_sum(a: ChunkPos, b: ChunkPos) -> ChunkPos {
    ChunkPos { x: (a.x + b.x) as i32, y: (a.y + b.y) as i32, z: (a.z + b.z) as i32 }
}

/// The difference of two chunk positions.
pub open spec fn chunk_difference(a: ChunkPos, b: ChunkPos) -> ChunkPos {
    ChunkPos { x: (a.x - b.x) as i32, y: (a.y - b.y) as i32, z: (a.z - b.z) as i32 }
}

/// The boxes that change hands when a player in `chunk` who sees
/// `distance` chunks far moves on by one chunk along `axis`, toward larger
/// coordinates if `positive`.
///
/// The player's chunks are the box from `chunk - distance` up to but not
/// including `chunk + distance`. Moving on, the player sees one slab more
/// ahead, which is loaded, and the last slab behind is unloaded. The border
/// is the slab of kept chunks that touches the new slab.
pub open spec fn slab_move(chunk: ChunkPos, distance: ChunkPos, axis: Axis, positive: bool) -> SlabMove {
    let corner = chunk_difference(chunk, distance);
    let length = chunk_sum(distance, distance);
    let unit = ChunkPos::spec_axis(axis);
    let pos_min = chunk_sum(corner, length.spec_axis_only(axis));
    let pos_max = chunk_sum(chunk_sum(corner, length), unit);
    let neg_min = chunk_difference(corner, unit);
    let neg_max = chunk_sum(corner, length.spec_all_but_axis(axis));
    if positive {
        SlabMove {
            unload_min: chunk_sum(neg_min, unit),
            unload_max: chunk_sum(neg_max, unit),
            load_min: pos_min,
            load_max: pos_max,
            border: ChunkMeshFaceData {
                face: BlockFace::spec_from_axis(axis, true),
                min_chunk: chunk_difference(pos_min, unit),
                max_chunk: chunk_difference(pos_max, unit),
            },
        }
    } else {
        SlabMove {
            unload_min: chunk_difference(pos_min, unit),
            unload_max: chunk_difference(pos_max, unit),
            load_min: neg_min,
            load_max: neg_max,
            border: ChunkMeshFaceData {
                face: BlockFace::spec_from_axis(axis, false),
                min_chunk: chunk_sum(neg_min, unit),
                max_chunk: chunk_sum(neg_max, unit),
            },
        }
    }
}

/// The axis along which `to` lies one chunk away from `from`, and whether
/// it lies toward larger coordinates, where the two chunks differ on one
/// axis only and by one chunk.
pub open spec fn single_step(from: ChunkPos, to: ChunkPos) -> Option<(Axis, bool)> {
    if to.y == from.y && to.z == from.z && to.x == from.x + 1 {
        Some((Axis::X, true))
    } else if to.y == from.y && to.z == from.z && to.x == from.x - 1 {
        Some((Axis::X, false))
    } else if to.x == from.x && to.z == from.z && to.y == from.y + 1 {
        Some((Axis::Y, true))
    } else if to.x == from.x && to.z == from.z && to.y == from.y - 1 {
        Some((Axis::Y, false))
    } else if to.x == from.x && to.y == from.y && to.z == from.z + 1 {
        Some((Axis::Z, true))
    } else if to.x == from.x && to.y == from.y && to.z == from.z - 1 {
        Some((Axis::Z, false))
    } else {
        None
    }
}

/// Whether a player can be moved from the chunk `from` to the chunk `to`
/// in one update: the chunks are the same, or differ on one axis only and
/// by one chunk.
pub open spec fn supported_move(from: ChunkPos, to: ChunkPos) -> bool {
    from == to || single_step(from, to).is_some()
}

/// Whether a player can be moved from the chunk `from` to the chunk `to`
/// in one update.
pub fn is_supported_move(from: ChunkPos, to: ChunkPos) -> (supported: bool)
    ensures
        supported == supported_move(from, to),
{
    let dx: i64 = to.x as i64 - from.x as i64;
    let dy: i64 = to.y as i64 - from.y as i64;
    let dz: i64 = to.z as i64 - from.z as i64;
    let moved_x = dx != 0;
    let moved_y = dy != 0;
    let moved_z = dz != 0;
    if !moved_x && !moved_y && !moved_z {
        true
    } else if moved_x && !moved_y && !moved_z {
        dx == 1 || dx == -1
    } else if !moved_x && moved_y && !moved_z {
        dy == 1 || dy == -1
    } else if !moved_x && !moved_y && moved_z {
        dz == 1 || dz == -1
    } else {
        false
    }
}

/// The boxes that change hands when a player moves on by one chunk.
fn compute_slab_move(chunk: ChunkPos, distance: ChunkPos, axis: Axis, positive: bool) -> (slabs: SlabMove)
    requires
        -67108864 <= chunk.x < 67108864,
        -67108864 <= chunk.y < 67108864,
        -67108864 <= chunk.z < 67108864,
        0 <= distance.x <= crate::player::MAX_RENDER_DISTANCE,
        0 <= distance.y <= crate::player::MAX_RENDER_DISTANCE,
        0 <= distance.z <= crate::player::MAX_RENDER_DISTANCE,
    ensures
        slabs == slab_move(chunk, distance, axis, positive),
        0 <= box_volume(slabs.load_min, slabs.load_max) <= u64::MAX,
{
    let render_zone_corner = chunk - distance;
    let render_zone_length = 2 * distance;
    let axis_vec = ChunkPos::axis(axis);

    let pos_min_chunk = render_zone_corner + render_zone_length.axis_only(axis);
    let pos_max_chunk = render_zone_corner + render_zone_length + axis_vec;

    let neg_min_chunk = render_zone_corner - axis_vec;
    let neg_max_chunk = render_zone_corner + render_zone_length.all_but_axis(axis);

    let slabs = if positive {
        SlabMove {
            unload_min: neg_min_chunk + axis_vec,
            unload_max: neg_max_chunk + axis_vec,
            load_min: pos_min_chunk,
            load_max: pos_max_chunk,
            border: ChunkMeshFaceData {
                face: BlockFace::from_axis(axis, true),
                min_chunk: pos_min_chunk - axis_vec,
                max_chunk: pos_max_chunk - axis_vec,
            },
        }
    } else {
        SlabMove {
            unload_min: pos_min_chunk - axis_vec,
            unload_max: pos_max_chunk - axis_vec,
            load_min: neg_min_chunk,
            load_max: neg_max_chunk,
            border: ChunkMeshFaceData {
                face: BlockFace::from_axis(axis, false),
                min_chunk: neg_min_chunk + axis_vec,
                max_chunk: neg_max_chunk + axis_vec,
            },
        }
    };
    proof {
        let dx = slabs.load_max.x - slabs.load_min.x;
        let dy = slabs.load_max.y - slabs.load_min.y;
        let dz = slabs.load_max.z - slabs.load_min.z;
        assert(0 <= dx <= 2097152 && 0 <= dy <= 2097152 && 0 <= dz <= 2097152);
        assert(dx == 1 || dy == 1 || dz == 1);
        assert(0 <= dx * dy * dz <= 2097152 * 2097152) by (nonlinear_arith)
            requires
                0 <= dx <= 2097152 && 0 <= dy <= 2097152 && 0 <= dz <= 2097152,
                dx == 1 || dy == 1 || dz == 1,
        ;
    }
    slabs
}

impl World {
    /// Connects a new player, who stands at the origin, and asks for the
    /// chunks around the player to be loaded.
    pub fn connect(&mut self) -> (id: PlayerId)
        requires
            old(self).wf(),
        ensures
            final(self).wf(),
            id.0 == old(self).next_player_id,
            final(self).next_player_id == (if old(self).next_player_id == u64::MAX {
                0
            } else {
                (old(self).next_player_id + 1) as u64
            }),
            final(self).players@ == old(self).players@.insert(
                id.0,
                Player {
                    id,
                    position: Position { x: 0, y: 0, z: 0 },
                    render_distance: ChunkPos { x: 10, y: 5, z: 10 },
                },
            ),
            final(self).chunk_load_jobs@ == old(self).chunk_load_jobs@.push(
                ChunkLoadJob {
                    min_chunk: ChunkPos { x: -10i32, y: -5i32, z: -10i32 },
                    max_chunk: ChunkPos { x: 10, y: 5, z: 10 },
                    remaining_chunks: 4000,
                    mesh_face_task: None,
                },
            ),
            final(self).tasks.waiting() == old(self).tasks.waiting() + box_tasks(
                box_positions(ChunkPos { x: -10i32, y: -5i32, z: -10i32 }, ChunkPos { x: 10, y: 5, z: 10 }),
                true,
            ),
            final(self).tasks.completed() == old(self).tasks.completed(),
            final(self).chunk_unload_jobs == old(self).chunk_unload_jobs,
            final(self).chunks == old(self).chunks,
    {
        let id = PlayerId::new(&mut self.next_player_id);
        let player = Player::new(id);
        let chunk_position = player.chunk_position();
        assert(chunk_position == (ChunkPos { x: 0, y: 0, z: 0 }));

        let min_load_chunk = chunk_position - player.render_distance();
        let max_load_chunk = chunk_position + player.render_distance();
        assert(box_volume(min_load_chunk, max_load_chunk) == 4000) by {
            assert(20 * 10 * 20 == 4000int);
        }
        self.load_chunks(min_load_chunk, max_load_chunk, None);

        player_map_insert(&mut self.players, id.0, player);
        id
    }

    /// The chunk that the player `id` is in.
    pub open spec fn player_chunk(&self, id: PlayerId) -> ChunkPos {
        self.players@[id.0].spec_chunk_position()
    }

    /// Moves the player `player_id` to `position`. Where the player enters
    /// another chunk, the slab of chunks that comes into view is asked to
    /// be loaded, with the faces on its border to be rebuilt after, and the
    /// slab that goes out of view is asked to be unloaded. Returns whether
    /// the player has entered another chunk, or `None` for a player that is
    /// not connected.
    ///
    /// A connected player can be moved within a chunk, or on by one chunk
    /// along one axis, and no further.
    pub fn set_player_position(&mut self, player_id: PlayerId, position: Position) -> (entered: Option<bool>)
        requires
            old(self).wf(),
            old(self).players@.contains_key(player_id.0) ==> supported_move(
                old(self).player_chunk(player_id),
                position.spec_as_chunk_pos(),
            ),
        ensures
            final(self).wf(),
            final(self).chunks == old(self).chunks,
            final(self).next_player_id == old(self).next_player_id,
            final(self).tasks.completed() == old(self).tasks.completed(),
            entered.is_some() == old(self).players@.contains_key(player_id.0),
            entered.is_none() ==> {
                &&& final(self).players == old(self).players
                &&& final(self).chunk_load_jobs == old(self).chunk_load_jobs
                &&& final(self).chunk_unload_jobs == old(self).chunk_unload_jobs
                &&& final(self).tasks.waiting() == old(self).tasks.waiting()
            },
            entered.is_some() ==> {
                let player = old(self).players@[player_id.0];
                let from = old(self).player_chunk(player_id);
                let to = position.spec_as_chunk_pos();
                &&& entered == Some(from != to)
                &&& final(self).players@ == old(self).players@.insert(
                    player_id.0,
                    Player { id: player.id, position, render_distance: player.render_distance },
                )
                &&& match single_step(from, to) {
                    None => {
                        &&& final(self).chunk_load_jobs == old(self).chunk_load_jobs
                        &&& final(self).chunk_unload_jobs == old(self).chunk_unload_jobs
                        &&& final(self).tasks.waiting() == old(self).tasks.waiting()
                    },
                    Some((axis, positive)) => {
                        let slabs = slab_move(from, player.render_distance, axis, positive);
                        &&& final(self).chunk_unload_jobs@ == old(self).chunk_unload_jobs@.push(
                            ChunkLoadJob {
                                min_chunk: slabs.unload_min,
                                max_chunk: slabs.unload_max,
                                remaining_chunks: 1,
                                mesh_face_task: None,
                            },
                        )
                        &&& final(self).chunk_load_jobs@ == old(self).chunk_load_jobs@.push(
                            ChunkLoadJob {
                                min_chunk: slabs.load_min,
                                max_chunk: slabs.load_max,
                                remaining_chunks: box_volume(slabs.load_min, slabs.load_max) as u64,
                                mesh_face_task: Some(slabs.border),
                            },
                        )
                        &&& final(self).tasks.waiting() == old(self).tasks.waiting().push(
                            Task::UnloadChunks { min_chunk: slabs.unload_min, max_chunk: slabs.unload_max },
                        ) + box_tasks(box_positions(slabs.load_min, slabs.load_max), true)
                    },
                }
            },
    {
        let player = match player_map_get(&self.players, player_id.0) {
            Some(player) => player,
            None => {
                return None;
            },
        };
        assert(self.players@.contains_key(player_id.0));
        assert(player.wf());
        let chunk_position = position.as_chunk_pos();
        let player_chunk = player.chunk_position();

        let step = if chunk_position.x != player_chunk.x {
            Some((Axis::X, chunk_position.x > player_chunk.x))
        } else if chunk_position.y != player_chunk.y {
            Some((Axis::Y, chunk_position.y > player_chunk.y))
        } else if chunk_position.z != player_chunk.z {
            Some((Axis::Z, chunk_position.z > player_chunk.z))
        } else {
            None
        };
        assert(step == single_step(player_chunk, chunk_position));
        if let Some((axis, positive)) = step {
            let slabs = compute_slab_move(player_chunk, player.render_distance(), axis, positive);
            self.unload_chunks(slabs.unload_min, slabs.unload_max, None);
            self.load_chunks(slabs.load_min, slabs.load_max, Some(slabs.border));
        }
        let out = chunk_position != player_chunk;

        let moved = Player { id: player.id, position, render_distance: player.render_distance };
        player_map_insert(&mut self.players, player_id.0, moved);
        Some(out)
    }

    /// Whether the player `player_id` is connected and can be moved to
    /// `position` in one update.
    pub fn can_move_player(&self, player_id: PlayerId, position: Position) -> (supported: bool)
        ensures
            supported == (self.players@.contains_key(player_id.0) && supported_move(
                self.player_chunk(player_id),
                position.spec_as_chunk_pos(),
            )),
    {
        match player_map_get(&self.players, player_id.0) {
            Some(player) => is_supported_move(player.chunk_position(), position.as_chunk_pos()),
            None => false,
        }
    }

    /// The box of chunks that make up the render zone whose corner chunk
    /// is `render_zone`, cut off at the largest chunk coordinate.
    pub open spec fn render_zone_end(render_zone: ChunkPos) -> ChunkPos {
        ChunkPos {
            x: if render_zone.x > i32::MAX - 8 { i32::MAX } else { (render_zone.x + 8) as i32 },
            y: if render_zone.y > i32::MAX - 8 { i32::MAX } else { (render_zone.y + 8) as i32 },
            z: if render_zone.z > i32::MAX - 8 { i32::MAX } else { (render_zone.z + 8) as i32 },
        }
    }

    /// The cached quads of all loaded chunks of the render zone whose
    /// corner chunk is `render_zone`, chunk after chunk.
    pub fn render_zone_mesh(&self, render_zone: ChunkPos) -> (mesh: Vec<BlockFaceMesh>)
        ensures
            mesh@ == meshes_of(self.loaded(), box_positions(render_zone, World::render_zone_end(render_zone))),
    {
        let render_zone_end = ChunkPos::new(
            if render_zone.x > i32::MAX - 8 { i32::MAX } else { render_zone.x + 8 },
            if render_zone.y > i32::MAX - 8 { i32::MAX } else { render_zone.y + 8 },
            if render_zone.z > i32::MAX - 8 { i32::MAX } else { render_zone.z + 8 },
        );
        box_mesh(&self.chunks, render_zone, render_zone_end)
    }
}

/// The block that lies behind `face` of the block at `block`: one step
/// against the face's normal. `None` where its coordinates do not fit in
/// `i32`.
pub open spec fn block_behind(block: BlockPos, face: BlockFace) -> Option<BlockPos> {
    let offset = face.spec_block_pos_offset();
    if i32::MIN <= block.x - offset.x <= i32::MAX && i32::MIN <= block.y - offset.y <= i32::MAX && i32::MIN
        <= block.z - offset.z <= i32::MAX {
        Some(
            BlockPos {
                x: (block.x - offset.x) as i32,
                y: (block.y - offset.y) as i32,
                z: (block.z - offset.z) as i32,
            },
        )
    } else {
        None
    }
}

/// The slice, seen from `face`, that holds the block at `block`: the key
/// of the block's chunk, the index of the face, and the block's
/// chunk-local coordinate along the face's axis.
pub open spec fn slice_through(block: BlockPos, face: BlockFace) -> (ChunkKey, int, int) {
    (
        block.spec_as_chunk_pos().spec_key(),
        face.spec_index() as int,
        block.spec_as_chunk_local().spec_get_face_component(face) as int,
    )
}

/// The slices whose quads can change when the block at `block` changes,
/// as far as `faces` go: for each face, the slice through the block
/// itself, and the slice through the block behind it.
pub open spec fn slices_around(block: BlockPos, faces: Seq<BlockFace>) -> Set<(ChunkKey, int, int)>
    decreases faces.len(),
{
    if faces.len() == 0 {
        Set::empty()
    } else {
        let rest = slices_around(block, faces.drop_last()).insert(slice_through(block, faces.last()));
        match block_behind(block, faces.last()) {
            Some(behind) => rest.insert(slice_through(behind, faces.last())),
            None => rest,
        }
    }
}

/// The render zone of the chunk that holds `block`, if that chunk is
/// loaded.
pub open spec fn zone_marked_for(chunks: Map<ChunkKey, LoadedChunk>, block: BlockPos) -> Set<ChunkKey> {
    if chunks.contains_key(block.spec_as_chunk_pos().spec_key()) {
        set![render_zone_of_chunk(block.spec_as_chunk_pos()).spec_key()]
    } else {
        Set::empty()
    }
}

/// The render zones that are marked when the block at `block` changes,
/// as far as `faces` go: the zone of the block's chunk and the zones of the
/// chunks of the blocks behind it, where those chunks are loaded.
pub open spec fn zones_around(chunks: Map<ChunkKey, LoadedChunk>, block: BlockPos, faces: Seq<BlockFace>) -> Set<
    ChunkKey,
>
    decreases faces.len(),
{
    if faces.len() == 0 {
        zone_marked_for(chunks, block)
    } else {
        let rest = zones_around(chunks, block, faces.drop_last());
        match block_behind(block, faces.last()) {
            Some(behind) => rest.union(zone_marked_for(chunks, behind)),
            None => rest,
        }
    }
}

impl World {
    /// Rebuilds the quads that can have changed when the block at `block`
    /// has changed, and marks the render zones of the chunks whose quads
    /// were rebuilt. For each of the six faces these are the quads of the
    /// slice through the block, and of the slice through the block behind
    /// the face, which may lie in the neighbouring chunk. Chunks that are
    /// not loaded are passed over.
    pub fn mesh_update_adjacent(&mut self, block: BlockPos, updated_render_zones: &mut UpdatedRenderZones)
        requires
            old(self).wf(),
        ensures
            final(self).wf(),
            final(self).same_but_chunks(*old(self)),
            slices_rebuilt(old(self).loaded(), final(self).loaded(), slices_around(block, BlockFace::all())),
            final(updated_render_zones)@ == old(updated_render_zones)@.union(
                zones_around(old(self).loaded(), block, BlockFace::all()),
            ),
    {
        let ghost before = self.loaded();
        let ghost zones = updated_render_zones@;
        let block_chunk_local = block.as_chunk_local();
        let chunk_pos = block.as_chunk_pos();
        let mut visit_map = VisitedBlockMap::new();

        if chunk_map_contains_key(&self.chunks, chunk_pos.key()) {
            updated_render_zones.mark_block(block);
        }
        assert(updated_render_zones@ =~= zones.union(zones_around(before, block, Seq::<BlockFace>::empty())));

        let ghost mut touched: Set<(ChunkKey, int, int)> = Set::empty();
        let ghost mut done: Seq<BlockFace> = Seq::empty();
        let mut faces = BlockFace::iter();
        loop
            invariant
                self.same_but_chunks(*old(self)),
                chunks_wf(before),
                chunks_wf(self.loaded()),
                before == old(self).loaded(),
                chunk_pos == block.spec_as_chunk_pos(),
                block_chunk_local == block.spec_as_chunk_local(),
                done + faces.remaining() == BlockFace::all(),
                touched == slices_around(block, done),
                slices_rebuilt(before, self.loaded(), touched),
                updated_render_zones@ == zones.union(zones_around(before, block, done)),
            ensures
                self.same_but_chunks(*old(self)),
                chunks_wf(self.loaded()),
                slices_rebuilt(before, self.loaded(), slices_around(block, BlockFace::all())),
                updated_render_zones@ == zones.union(zones_around(before, block, BlockFace::all())),
            decreases faces.remaining().len(),
        {
            let face = match faces.next() {
                Some(face) => face,
                None => {
                    proof {
                        assert(done + Seq::<BlockFace>::empty() =~= done);
                    }
                    break ;
                },
            };
            proof {
                let next = done.push(face);
                assert(next.drop_last() =~= done);
                assert(next.last() == face);
                assert(next + faces.remaining() =~= done + (seq![face] + faces.remaining()));
            }
            let own_index = block_chunk_local.get_face_component(face) as usize;
            let _ = rebuild_slice_also(
                &mut self.chunks,
                chunk_pos,
                face,
                own_index,
                &mut visit_map,
                Ghost(before),
                Ghost(touched),
            );
            proof {
                touched = touched.insert(slice_through(block, face));
            }
            // the block behind the face shows this face of its own
            let offset = face.block_pos_offset();
            let x: i64 = block.x as i64 - offset.x as i64;
            let y: i64 = block.y as i64 - offset.y as i64;
            let z: i64 = block.z as i64 - offset.z as i64;
            if x >= i32::MIN as i64 && x <= i32::MAX as i64 && y >= i32::MIN as i64 && y <= i32::MAX as i64 && z
                >= i32::MIN as i64 && z <= i32::MAX as i64 {
                let offset_block = BlockPos::new(x as i32, y as i32, z as i32);
                assert(block_behind(block, face) == Some(offset_block));
                let offset_chunk = offset_block.as_chunk_pos();
                let offset_index = offset_block.as_chunk_local().get_face_component(face) as usize;
                let ghost marked = updated_render_zones@;
                if chunk_map_contains_key(&self.chunks, offset_chunk.key()) {
                    updated_render_zones.mark_block(offset_block);
                }
                assert(updated_render_zones@ =~= marked.union(zone_marked_for(before, offset_block)));
                let _ = rebuild_slice_also(
                    &mut self.chunks,
                    offset_chunk,
                    face,
                    offset_index,
                    &mut visit_map,
                    Ghost(before),
                    Ghost(touched),
                );
                proof {
                    touched = touched.insert(slice_through(offset_block, face));
                }
            }
            proof {
                done = done.push(face);
                assert(updated_render_zones@ =~= zones.union(zones_around(before, block, done)));
            }
        }
    }
}

} // verus!
