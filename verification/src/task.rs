use vstd::prelude::*;

verus! {

/// The execute capability of a unit of work: `process` performs it once, in
/// place. The host implements it for its concrete task variants; the library
/// only ever calls it while dispatching on the execution substrate.
pub trait Task {
    /// Perform the unit of work, in place.
    fn process(&mut self);
}

/// A unit of work paired with its place in the total task order.
///
/// The queues order tasks by `rank` alone: draining yields ascending rank,
/// and the priority discipline pops the greatest rank first. Two tasks may
/// share a rank; their relative order is then unspecified.
#[derive(Clone, Copy, PartialEq, Eq, Debug)]
pub struct Ranked<T> {
    pub rank: u64,
    pub task: T,
}

impl<T> Ranked<T> {
    /// Pair `task` with its `rank`.
    pub fn new(rank: u64, task: T) -> (r: Self)
        ensures
            r.rank == rank,
            r.task == task,
    {
        Ranked { rank, task }
    }
}

/// Ascending rank order: what `into_sorted_vec` produces and what the
/// priority discipline maintains internally.
pub open spec fn sorted_by_rank<T>(s: Seq<Ranked<T>>) -> bool {
    forall|i: int, j: int| 0 <= i < j < s.len() ==> s[i].rank <= s[j].rank
}

} // verus!
