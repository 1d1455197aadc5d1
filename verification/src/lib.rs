//! A minimal task-dispatch library: FIFO and priority task queues with unique
//! identities, and a worker that owns one queue and hands its sorted backlog
//! to a parallel execution substrate.

mod ident;
pub mod laws;
mod substrate;
pub mod task;
pub mod task_deque;
pub mod worker_thread;
