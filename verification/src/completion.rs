//! How the world takes note of completed tasks: which jobs they settle,
//! which tasks follow, and which render zones they leave changed.

use vstd::prelude::*;

use crate::chunk_box::box_positions;
use crate::chunk_map::ChunkKey;
use crate::parallel::Task;
use crate::render_zone::{render_zone_of_chunk, zones_of_box};
use crate::types::ChunkPos;
use crate::world::{box_tasks, ChunkLoadJob};

verus! {

/// The load jobs after the chunk `chunk` has been generated: each job
/// whose box holds the chunk waits for one completion less, and the jobs
/// that wait for none any more are gone.
pub open spec fn loads_after_generate(jobs: Seq<ChunkLoadJob>, chunk: ChunkPos) -> Seq<ChunkLoadJob>
    decreases jobs.len(),
{
    if jobs.len() == 0 {
        Seq::empty()
    } else {
        let rest = loads_after_generate(jobs.drop_last(), chunk);
        let job = jobs.last();
        if !job.spec_contains_chunk(chunk) {
            rest.push(job)
        } else if job.remaining_chunks <= 1 {
            rest
        } else {
            rest.push(
                ChunkLoadJob {
                    min_chunk: job.min_chunk,
                    max_chunk: job.max_chunk,
                    remaining_chunks: (job.remaining_chunks - 1) as u64,
                    mesh_face_task: job.mesh_face_task,
                },
            )
        }
    }
}

/// The first load job, in the order the loads were asked for, that the
/// generation of `chunk` settles.
pub open spec fn load_settled_by(jobs: Seq<ChunkLoadJob>, chunk: ChunkPos) -> Option<ChunkLoadJob>
    decreases jobs.len(),
{
    if jobs.len() == 0 {
        None
    } else {
        match load_settled_by(jobs.drop_last(), chunk) {
            Some(job) => Some(job),
            None => if jobs.last().spec_contains_chunk(chunk) && jobs.last().remaining_chunks <= 1 {
                Some(jobs.last())
            } else {
                None
            },
        }
    }
}

/// The unload jobs after the unload of a box has been completed: the jobs
/// for that box are gone.
pub open spec fn unloads_after_unload(jobs: Seq<ChunkLoadJob>, min_chunk: ChunkPos, max_chunk: ChunkPos) -> Seq<
    ChunkLoadJob,
>
    decreases jobs.len(),
{
    if jobs.len() == 0 {
        Seq::empty()
    } else {
        let rest = unloads_after_unload(jobs.drop_last(), min_chunk, max_chunk);
        if jobs.last().min_chunk == min_chunk && jobs.last().max_chunk == max_chunk {
            rest
        } else {
            rest.push(jobs.last())
        }
    }
}

/// The first unload job, in the order the unloads were asked for, for the
/// box from `min_chunk` to `max_chunk`.
pub open spec fn unload_settled_by(jobs: Seq<ChunkLoadJob>, min_chunk: ChunkPos, max_chunk: ChunkPos) -> Option<
    ChunkLoadJob,
>
    decreases jobs.len(),
{
    if jobs.len() == 0 {
        None
    } else {
        match unload_settled_by(jobs.drop_last(), min_chunk, max_chunk) {
            Some(job) => Some(job),
            None => if jobs.last().min_chunk == min_chunk && jobs.last().max_chunk == max_chunk {
                Some(jobs.last())
            } else {
                None
            },
        }
    }
}

/// The task that follows a settled job, if it has one.
pub open spec fn follow_up(job: ChunkLoadJob) -> Seq<Task> {
    match job.mesh_face_task {
        Some(data) => seq![data.spec_into_task()],
        None => Seq::empty(),
    }
}

/// What the world holds of jobs and waiting tasks, together with the
/// render zones that are marked as changed.
#[verifier::ext_equal]
pub struct Ledger {
    pub load_jobs: Seq<ChunkLoadJob>,
    pub unload_jobs: Seq<ChunkLoadJob>,
    pub waiting: Seq<Task>,
    pub zones: Set<ChunkKey>,
}

/// The ledger after the world has taken note that `task` is completed.
///
/// A rebuilt chunk marks its render zone; rebuilt faces and an unload mark
/// the zones of their box. A generated chunk counts for every load job
/// whose box holds it; the first job that it settles has all chunks of its
/// box rebuilt, and then its follow-up task run. A completed unload settles
/// the unload jobs for its box, and the follow-up task of the first is run.
pub open spec fn after_completion(ledger: Ledger, task: Task) -> Ledger {
    match task {
        Task::ChunkMesh(chunk) => Ledger { zones: ledger.zones.insert(render_zone_of_chunk(chunk).spec_key()), ..ledger },
        Task::ChunkMeshFace { min_chunk, max_chunk, face } => Ledger {
            zones: ledger.zones.union(zones_of_box(min_chunk, max_chunk)),
            ..ledger
        },
        Task::GenerateChunk(chunk) => Ledger {
            load_jobs: loads_after_generate(ledger.load_jobs, chunk),
            waiting: match load_settled_by(ledger.load_jobs, chunk) {
                Some(job) => ledger.waiting + box_tasks(box_positions(job.min_chunk, job.max_chunk), false)
                    + follow_up(job),
                None => ledger.waiting,
            },
            ..ledger
        },
        Task::UnloadChunks { min_chunk, max_chunk } => Ledger {
            zones: ledger.zones.union(zones_of_box(min_chunk, max_chunk)),
            unload_jobs: unloads_after_unload(ledger.unload_jobs, min_chunk, max_chunk),
            waiting: match unload_settled_by(ledger.unload_jobs, min_chunk, max_chunk) {
                Some(job) => ledger.waiting + follow_up(job),
                None => ledger.waiting,
            },
            ..ledger
        },
    }
}

/// The ledger after the world has taken note of `tasks`, one after the
/// other.
pub open spec fn after_completions(ledger: Ledger, tasks: Seq<Task>) -> Ledger
    decreases tasks.len(),
{
    if tasks.len() == 0 {
        ledger
    } else {
        after_completion(after_completions(ledger, tasks.drop_last()), tasks.last())
    }
}

/// Counts the generation of `chunk` for the load jobs: returns the jobs
/// that are still open and the first job that it settled.
pub fn settle_loads(jobs: &Vec<ChunkLoadJob>, chunk: ChunkPos) -> (settled: (Vec<ChunkLoadJob>, Option<ChunkLoadJob>))
    requires
        forall|j: int| 0 <= j < jobs@.len() ==> (#[trigger] jobs@[j]).wf(),
    ensures
        settled.0@ == loads_after_generate(jobs@, chunk),
        settled.1 == load_settled_by(jobs@, chunk),
        forall|j: int| 0 <= j < settled.0@.len() ==> (#[trigger] settled.0@[j]).wf(),
{
    let mut open_jobs: Vec<ChunkLoadJob> = Vec::new();
    let mut finished: Option<ChunkLoadJob> = None;
    let mut i: usize = 0;
    assert(jobs@.subrange(0, 0) =~= Seq::<ChunkLoadJob>::empty());
    while i < jobs.len()
        invariant
            0 <= i <= jobs.len(),
            forall|j: int| 0 <= j < jobs@.len() ==> (#[trigger] jobs@[j]).wf(),
            open_jobs@ == loads_after_generate(jobs@.subrange(0, i as int), chunk),
            finished == load_settled_by(jobs@.subrange(0, i as int), chunk),
            forall|j: int| 0 <= j < open_jobs@.len() ==> (#[trigger] open_jobs@[j]).wf(),
        decreases jobs.len() - i,
    {
        let mut job = jobs[i];
        proof {
            let next = jobs@.subrange(0, i + 1);
            assert(next.drop_last() =~= jobs@.subrange(0, i as int));
            assert(next.last() == job);
            assert(jobs@[i as int].wf());
        }
        // find out if the chunk is part of this job
        if job.contains_chunk(chunk) {
            job.remaining_chunks -= 1;
            // the job is settled if no chunk remains
            if job.remaining_chunks == 0 {
                if finished.is_none() {
                    finished = Some(jobs[i]);
                }
            } else {
                open_jobs.push(job);
            }
        } else {
            open_jobs.push(job);
        }
        i += 1;
    }
    assert(jobs@.subrange(0, jobs@.len() as int) =~= jobs@);
    (open_jobs, finished)
}

/// Settles the unload jobs for the box from `min_chunk` to `max_chunk`:
/// returns the jobs that are still open and the first job that was settled.
pub fn settle_unloads(jobs: &Vec<ChunkLoadJob>, min_chunk: ChunkPos, max_chunk: ChunkPos) -> (settled: (
    Vec<ChunkLoadJob>,
    Option<ChunkLoadJob>,
))
    ensures
        settled.0@ == unloads_after_unload(jobs@, min_chunk, max_chunk),
        settled.1 == unload_settled_by(jobs@, min_chunk, max_chunk),
{
    let mut open_jobs: Vec<ChunkLoadJob> = Vec::new();
    let mut finished: Option<ChunkLoadJob> = None;
    let mut i: usize = 0;
    assert(jobs@.subrange(0, 0) =~= Seq::<ChunkLoadJob>::empty());
    while i < jobs.len()
        invariant
            0 <= i <= jobs.len(),
            open_jobs@ == unloads_after_unload(jobs@.subrange(0, i as int), min_chunk, max_chunk),
            finished == unload_settled_by(jobs@.subrange(0, i as int), min_chunk, max_chunk),
        decreases jobs.len() - i,
    {
        let job = jobs[i];
        proof {
            let next = jobs@.subrange(0, i + 1);
            assert(next.drop_last() =~= jobs@.subrange(0, i as int));
            assert(next.last() == job);
        }
        if job.min_chunk == min_chunk && job.max_chunk == max_chunk {
            if finished.is_none() {
                finished = Some(job);
            }
        } else {
            open_jobs.push(job);
        }
        i += 1;
    }
    assert(jobs@.subrange(0, jobs@.len() as int) =~= jobs@);
    (open_jobs, finished)
}

} // verus!
