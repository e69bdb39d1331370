//! Tasks, and the two queues that carry them: the queue of tasks that wait
//! to be run, and the queue of tasks that have been run.
//!
//! Both queues are lock-free queues of `crossbeam`. Their code is not
//! verified here: each function below that is marked as external calls one
//! of their methods and states, without proof, what that method does to the
//! queue's contents. The queues are taken by exclusive reference, so no
//! other thread can touch them during a call.

use crossbeam::deque::{Injector, Steal};
use crossbeam::queue::SegQueue;
use vstd::prelude::*;

use crate::block::BlockFace;
use crate::types::ChunkPos;

verus! {

/// A unit of work on the chunks of the world. Once a task has been run it
/// is handed back, unchanged, as the notice that its effects can be seen.
#[derive(Debug, Clone, Copy, PartialEq, Eq, Structural)]
pub enum Task {
    /// Rebuild all quads of one chunk.
    ChunkMesh(ChunkPos),
    /// Rebuild the quads of the outermost slice on `face` of every chunk
    /// in a box.
    ChunkMeshFace { min_chunk: ChunkPos, max_chunk: ChunkPos, face: BlockFace },
    /// Generate one chunk, or count one more load of it if it is loaded.
    GenerateChunk(ChunkPos),
    /// Count one load less of every chunk in a box, and drop the chunks
    /// that no load holds any more.
    UnloadChunks { min_chunk: ChunkPos, max_chunk: ChunkPos },
}

/// What an attempt to take a task from the waiting queue gave.
#[derive(Debug, Clone, Copy, PartialEq, Eq, Structural)]
pub enum Stolen {
    /// The queue held no task.
    Empty,
    /// The task that waited longest.
    Success(Task),
    /// Nothing was taken; the attempt has to be made again.
    Retry,
}

/// Declares `crossbeam::deque::Injector`, a queue that many threads can
/// put items on and take items from.
#[verifier::external_type_specification]
#[verifier::external_body]
#[verifier::reject_recursive_types(T)]
pub struct ExInjector<T>(Injector<T>);

/// Declares `crossbeam::queue::SegQueue`, an unbounded queue that many
/// threads can put items on and take items from.
#[verifier::external_type_specification]
#[verifier::external_body]
#[verifier::reject_recursive_types(T)]
pub struct ExSegQueue<T>(SegQueue<T>);

/// The queue of tasks that wait to be run.
pub type WaitingQueue = Injector<Task>;

/// The queue of tasks that have been run.
pub type CompletedQueue = SegQueue<Task>;

/// The tasks in a waiting queue, the one that waits longest first.
pub uninterp spec fn waiting_tasks(queue: WaitingQueue) -> Seq<Task>;

/// The tasks in a completed queue, the one that was completed first first.
pub uninterp spec fn completed_tasks(queue: CompletedQueue) -> Seq<Task>;

/// Calls `Injector::new`, which is taken to return an empty queue.
#[verifier::external_body]
fn waiting_queue_new() -> (queue: WaitingQueue)
    ensures
        waiting_tasks(queue) == Seq::<Task>::empty(),
{
    Injector::new()
}

/// Calls `Injector::push`, which is taken to put `task` behind the tasks
/// that the queue holds.
#[verifier::external_body]
fn waiting_queue_push(queue: &mut WaitingQueue, task: Task)
    ensures
        waiting_tasks(*final(queue)) == waiting_tasks(*old(queue)).push(task),
{
    queue.push(task)
}

/// Calls `Injector::steal`. It is taken to report `Empty` for an empty
/// queue and for no other, to take out the first task where it reports
/// success, and else to leave the queue as it was. Where a task waits it may
/// ask for another attempt: the exchange that moves the head may fail.
#[verifier::external_body]
fn waiting_queue_steal(queue: &mut WaitingQueue) -> (stolen: Stolen)
    ensures
        (stolen == Stolen::Empty) == (waiting_tasks(*old(queue)).len() == 0),
        match stolen {
            Stolen::Success(task) => task == waiting_tasks(*old(queue))[0] && waiting_tasks(*final(queue))
                == waiting_tasks(*old(queue)).drop_first(),
            _ => waiting_tasks(*final(queue)) == waiting_tasks(*old(queue)),
        },
{
    match queue.steal() {
        Steal::Empty => Stolen::Empty,
        Steal::Success(task) => Stolen::Success(task),
        Steal::Retry => Stolen::Retry,
    }
}

/// Calls `SegQueue::new`, which is taken to return an empty queue.
#[verifier::external_body]
fn completed_queue_new() -> (queue: CompletedQueue)
    ensures
        completed_tasks(queue) == Seq::<Task>::empty(),
{
    SegQueue::new()
}

/// Calls `SegQueue::push`, which is taken to put `task` at the tail of
/// the queue.
#[verifier::external_body]
fn completed_queue_push(queue: &mut CompletedQueue, task: Task)
    ensures
        completed_tasks(*final(queue)) == completed_tasks(*old(queue)).push(task),
{
    queue.push(task)
}

/// Calls `SegQueue::pop`, which is taken to take out and return the task
/// at the head of the queue, or to return `None` for an empty queue.
#[verifier::external_body]
fn completed_queue_pop(queue: &mut CompletedQueue) -> (task: Option<Task>)
    ensures
        task == (if completed_tasks(*old(queue)).len() > 0 {
            Some(completed_tasks(*old(queue))[0])
        } else {
            None
        }),
        completed_tasks(*final(queue)) == (if completed_tasks(*old(queue)).len() > 0 {
            completed_tasks(*old(queue)).drop_first()
        } else {
            completed_tasks(*old(queue))
        }),
{
    queue.pop()
}

/// The tasks that wait to be run, and those that have been run and wait
/// for the world to take note of them.
pub struct TaskQueue {
    pub waiting: WaitingQueue,
    pub completed: CompletedQueue,
}

impl TaskQueue {
    /// The tasks that wait to be run, the one that waits longest first.
    pub open spec fn waiting(&self) -> Seq<Task> {
        waiting_tasks(self.waiting)
    }

    /// The tasks that have been run, in the order of their completion.
    pub open spec fn completed(&self) -> Seq<Task> {
        completed_tasks(self.completed)
    }

    /// Two empty queues.
    pub fn new() -> (queue: TaskQueue)
        ensures
            queue.waiting() == Seq::<Task>::empty(),
            queue.completed() == Seq::<Task>::empty(),
    {
        TaskQueue { waiting: waiting_queue_new(), completed: completed_queue_new() }
    }

    /// Tries to take the task that waits longest. The answer is `Empty`
    /// where no task waits, and else the first task, which then has left
    /// the queue, or `Retry`: the attempt failed and is to be made again.
    pub fn steal(&mut self) -> (stolen: Stolen)
        ensures
            final(self).completed() == old(self).completed(),
            (stolen == Stolen::Empty) == (old(self).waiting().len() == 0),
            match stolen {
                Stolen::Success(task) => task == old(self).waiting()[0] && final(self).waiting() == old(
                    self,
                ).waiting().drop_first(),
                _ => final(self).waiting() == old(self).waiting(),
            },
    {
        waiting_queue_steal(&mut self.waiting)
    }

    /// Hands in `task` as run.
    pub fn complete(&mut self, task: Task)
        ensures
            final(self).waiting() == old(self).waiting(),
            final(self).completed() == old(self).completed().push(task),
    {
        completed_queue_push(&mut self.completed, task);
    }
}

/// Puts `task` at the end of the tasks that wait to be run.
pub fn run_task(queue: &mut TaskQueue, task: Task)
    ensures
        final(queue).waiting() == old(queue).waiting().push(task),
        final(queue).completed() == old(queue).completed(),
{
    waiting_queue_push(&mut queue.waiting, task);
}

/// Takes the task that was completed first, if there is one. Never waits.
pub fn pull_completed_task(queue: &mut TaskQueue) -> (task: Option<Task>)
    ensures
        final(queue).waiting() == old(queue).waiting(),
        task == (if old(queue).completed().len() > 0 {
            Some(old(queue).completed()[0])
        } else {
            None
        }),
        final(queue).completed() == (if old(queue).completed().len() > 0 {
            old(queue).completed().drop_first()
        } else {
            old(queue).completed()
        }),
{
    completed_queue_pop(&mut queue.completed)
}

} // verus!
