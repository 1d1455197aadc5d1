use std::sync::mpsc::{Receiver, Sender};
use std::time::Duration;

use wsqshed::task::{Ranked, Task};
use wsqshed::task_deque::Queue;
use wsqshed::worker_thread::WorkerThread;

struct Job {
    rank: u64,
    gate: Option<Receiver<()>>,
    done: Option<Sender<u64>>,
}

impl Job {
    fn plain(rank: u64) -> Ranked<Job> {
        Ranked::new(rank, Job { rank, gate: None, done: None })
    }

    fn reporting(rank: u64, done: Sender<u64>) -> Ranked<Job> {
        Ranked::new(rank, Job { rank, gate: None, done: Some(done) })
    }

    fn gated(rank: u64, gate: Receiver<()>, done: Sender<u64>) -> Ranked<Job> {
        Ranked::new(rank, Job { rank, gate: Some(gate), done: Some(done) })
    }
}

impl Task for Job {
    fn process(&mut self) {
        if let Some(gate) = &self.gate {
            let _ = gate.recv();
        }
        if let Some(done) = &self.done {
            let _ = done.send(self.rank);
        }
    }
}

#[test]
fn new_worker_is_active_and_empty() {
    let w: WorkerThread<Job> = WorkerThread::new();
    assert!(w.active);
    assert_eq!(w.queue.len(), 0);
    assert!(!w.channel.is_empty());
}

#[test]
fn default_worker_is_active_and_empty() {
    let w: WorkerThread<Job> = WorkerThread::default();
    assert!(w.active);
    assert_eq!(w.queue.len(), 0);
}

#[test]
fn init_keeps_given_parts() {
    let id = uuid::Uuid::new_v4();
    let queue = Queue::from(vec![Job::plain(1), Job::plain(2)]);
    let qid = queue.id;
    let w = WorkerThread::init(Some(id), Some(String::from("alpha")), Some(queue));
    assert_eq!(w.id, id);
    assert_eq!(w.channel, "alpha");
    assert_eq!(w.queue.id, qid);
    assert_eq!(w.queue.len(), 2);
    assert!(w.active);
}

#[test]
fn from_preloads_the_queue() {
    let w = WorkerThread::from(vec![Job::plain(1), Job::plain(2), Job::plain(3)]);
    assert!(w.active);
    assert_eq!(w.queue.len(), 3);
}

#[test]
fn fork_leaves_the_queue_empty_at_once() {
    let mut w = WorkerThread::from(vec![Job::plain(2), Job::plain(1)]);
    w.fork();
    assert_eq!(w.queue.len(), 0);
    assert!(w.queue.is_empty());
    assert!(w.active);
}

#[test]
fn worker_ids_are_unique_and_stable() {
    let w1: WorkerThread<Job> = WorkerThread::new();
    let w2: WorkerThread<Job> = WorkerThread::new();
    assert_ne!(w1.id, w2.id);
    assert_ne!(w1.id, w1.queue.id);
    let mut w1 = w1;
    let id = w1.id;
    let channel = w1.channel.clone();
    w1.assign_one(Job::plain(1));
    w1.fork();
    w1.wait();
    assert_eq!(w1.id, id);
    assert_eq!(w1.channel, channel);
}

#[test]
fn assign_one_runs_the_task_exactly_once() {
    let (done_tx, done_rx) = std::sync::mpsc::channel();
    let mut w: WorkerThread<Job> = WorkerThread::new();
    w.assign_one(Job::reporting(7, done_tx));
    assert_eq!(w.queue.len(), 0);
    assert_eq!(done_rx.recv(), Ok(7));
    assert!(done_rx.recv_timeout(Duration::from_millis(200)).is_err());
}

#[test]
fn assign_many_dispatches_the_whole_batch() {
    let (done_tx, done_rx) = std::sync::mpsc::channel();
    let mut w: WorkerThread<Job> = WorkerThread::new();
    let batch = vec![
        Job::reporting(3, done_tx.clone()),
        Job::reporting(1, done_tx.clone()),
        Job::reporting(2, done_tx),
    ];
    w.assign_many(batch);
    assert_eq!(w.queue.len(), 0);
    let mut ranks = Vec::new();
    for _ in 0..3 {
        ranks.push(done_rx.recv().unwrap());
    }
    ranks.sort();
    assert_eq!(ranks, vec![1, 2, 3]);
    assert!(done_rx.recv_timeout(Duration::from_millis(200)).is_err());
}

#[test]
fn wait_clears_active_without_touching_running_tasks() {
    let (gate_tx, gate_rx) = std::sync::mpsc::channel();
    let (done_tx, done_rx) = std::sync::mpsc::channel();
    let mut w: WorkerThread<Job> = WorkerThread::new();
    w.assign_one(Job::gated(1, gate_rx, done_tx));
    assert!(w.active);
    w.wait();
    assert!(!w.active);
    gate_tx.send(()).unwrap();
    assert_eq!(done_rx.recv(), Ok(1));
}
