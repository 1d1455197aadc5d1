use vstd::prelude::*;

use crate::task::Ranked;
use crate::task::Task;
use crate::task_deque::Queue;

verus! {

/// Relies on `rayon::spawn`: schedules the unit's `process` operation to run
/// once, independently, on the thread pool. Fire-and-forget: no return
/// channel, so nothing is promised of the call's effect.
#[verifier::external_body]
fn spawn_task<T: Task + Send + 'static>(unit: Ranked<T>)
{
    rayon::spawn(move || {
        let mut task = unit.task;
        task.process();
    });
}

/// Issue one spawn call per task, front to back: with a sorted batch, spawn
/// calls go out in ascending rank order. Execution and completion order are
/// the substrate's affair.
fn spawn_all<T: Task + Send + 'static>(tasks: Vec<Ranked<T>>)
{
    let mut rest = tasks;
    while rest.len() > 0
        decreases rest@.len(),
    {
        let unit = rest.remove(0);
        spawn_task(unit);
    }
}

/// Relies on `rayon::join`: runs the spawning closure and an empty companion
/// closure in parallel and returns when both complete. The closure only calls
/// `spawn_all`.
#[verifier::external_body]
fn join_spawn_all<T: Task + Send + 'static>(tasks: Vec<Ranked<T>>)
{
    rayon::join(|| spawn_all(tasks), || ());
}

/// One dispatch unit: drain the taken queue into ascending rank order, then
/// issue a spawn call for every item, wrapped in the substrate's fork-join
/// primitive. Runs on the substrate itself, scheduled by `spawn_dispatch`.
pub(crate) fn dispatch_batch<T: Task + Send + 'static>(queue: Queue<T>)
{
    let tasks = queue.into_sorted_vec();
    join_spawn_all(tasks);
}

/// Relies on `rayon::spawn`: schedules the whole dispatch step as a single
/// unit of work, so the caller returns without blocking on any task. The
/// closure only calls `dispatch_batch`.
#[verifier::external_body]
pub(crate) fn spawn_dispatch<T: Task + Send + 'static>(queue: Queue<T>)
{
    rayon::spawn(move || dispatch_batch(queue));
}

} // verus!
