use vstd::prelude::*;

use crate::ident::fresh_id;
use crate::ident::generate_name;
use crate::substrate::spawn_dispatch;
use crate::task::Ranked;
use crate::task::Task;
use crate::task_deque::Queue;

verus! {

/// A named worker that accumulates tasks in an owned FIFO queue and, on
/// demand, hands its entire backlog to the parallel execution substrate.
///
/// The identifier is unique per worker and independent of the queue's own
/// identifier; the channel label is a human-readable name for external
/// bookkeeping; `active` is an advisory flag meaning "intends to accept and
/// process further work".
pub struct WorkerThread<T> {
    pub id: uuid::Uuid,
    pub channel: String,
    pub queue: Queue<T>,
    pub active: bool,
}

impl<T: Task + Send + 'static> WorkerThread<T> {
    /// A worker from optional parts: omitted fields are filled with a fresh
    /// identifier, a generated label, and an empty queue. Starts active.
    pub fn init(id: Option<uuid::Uuid>, channel: Option<String>, queue: Option<Queue<T>>) -> (r:
        Self)
        ensures
            r.active == true,
            id matches Some(i) ==> r.id == i,
            channel matches Some(c) ==> r.channel == c,
            match queue {
                Some(q) => r.queue == q,
                None => r.queue@.len() == 0,
            },
    {
        let id = match id {
            Some(id) => id,
            None => fresh_id(),
        };
        let channel = match channel {
            Some(channel) => channel,
            None => generate_name(),
        };
        let queue = match queue {
            Some(queue) => queue,
            None => Queue::new(),
        };
        WorkerThread { id, channel, active: true, queue }
    }

    /// A worker with every field defaulted: fresh identifier, generated
    /// label, empty queue, active.
    pub fn new() -> (r: Self)
        ensures
            r.active == true,
            r.queue@.len() == 0,
    {
        Self::init(None, None, None)
    }

    /// A worker whose queue is pre-loaded with `vec` in its given order.
    pub fn from(vec: Vec<Ranked<T>>) -> (r: Self)
        ensures
            r.active == true,
            r.queue@ == vec@,
    {
        let queue = Queue::from(vec);
        Self::init(None, None, Some(queue))
    }

    /// The dispatch operation: take the owned queue, replacing it with a
    /// freshly empty one, and schedule the taken backlog on the substrate as
    /// one unit that drains it in ascending rank order and spawns every item.
    /// Returns without blocking on any task: the worker's queue is empty as
    /// soon as this returns, though the dispatched tasks may still run.
    pub fn fork(&mut self)
        ensures
            final(self).queue@.len() == 0,
            final(self).id == old(self).id,
            final(self).channel == old(self).channel,
            final(self).active == old(self).active,
    {
        let mut taken: Queue<T> = Queue::new();
        core::mem::swap(&mut self.queue, &mut taken);
        spawn_dispatch(taken);
    }

    /// Mark the worker as no longer intending to accept work. Advisory only:
    /// it neither blocks, nor cancels in-flight tasks, nor affects the
    /// substrate's handling of already-spawned work.
    pub fn wait(&mut self)
        ensures
            final(self).active == false,
            final(self).id == old(self).id,
            final(self).channel == old(self).channel,
            final(self).queue == old(self).queue,
    {
        self.active = false;
    }

    /// Push one task into the owned queue, then dispatch the whole backlog
    /// at once.
    pub fn assign_one(&mut self, task: Ranked<T>)
        ensures
            final(self).queue@.len() == 0,
            final(self).id == old(self).id,
            final(self).channel == old(self).channel,
            final(self).active == old(self).active,
    {
        self.queue.push(task);
        self.fork();
    }

    /// Push every task of `vec` into the owned queue, keeping their relative
    /// order, then dispatch once for the whole batch.
    pub fn assign_many(&mut self, vec: Vec<Ranked<T>>)
        ensures
            final(self).queue@.len() == 0,
            final(self).id == old(self).id,
            final(self).channel == old(self).channel,
            final(self).active == old(self).active,
    {
        let mut rest = vec;
        while rest.len() > 0
            invariant
                self.id == old(self).id,
                self.channel == old(self).channel,
                self.active == old(self).active,
            decreases rest@.len(),
        {
            let task = rest.remove(0);
            self.queue.push(task);
        }
        self.fork();
    }
}

impl<T: Task + Send + 'static> Default for WorkerThread<T> {
    /// Same as `new`: every field defaulted, starting active and empty.
    fn default() -> (r: Self)
        ensures
            r.active == true,
            r.queue@.len() == 0,
    {
        Self::new()
    }
}

} // verus!
