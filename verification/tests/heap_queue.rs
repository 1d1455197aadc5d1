use wsqshed::task::Ranked;
use wsqshed::task_deque::BinHeapQueue;

fn job(rank: u64, tag: u64) -> Ranked<u64> {
    Ranked::new(rank, tag)
}

#[test]
fn pops_descend_by_rank() {
    let mut q: BinHeapQueue<u64> = BinHeapQueue::new();
    q.push(job(1, 0));
    q.push(job(3, 0));
    q.push(job(2, 0));
    assert_eq!(q.pop(), Some(job(3, 0)));
    assert_eq!(q.pop(), Some(job(2, 0)));
    assert_eq!(q.pop(), Some(job(1, 0)));
    assert_eq!(q.pop(), None);
}

#[test]
fn equal_ranks_come_out_in_some_order() {
    let mut q: BinHeapQueue<u64> = BinHeapQueue::new();
    q.push(job(5, 1));
    q.push(job(5, 2));
    let a = q.pop().unwrap();
    let b = q.pop().unwrap();
    assert_eq!(q.pop(), None);
    let mut tags = vec![a.task, b.task];
    tags.sort();
    assert_eq!(tags, vec![1, 2]);
}

#[test]
fn peek_returns_max_without_removing() {
    let mut q: BinHeapQueue<u64> = BinHeapQueue::new();
    assert!(q.peek().is_none());
    q.push(job(2, 0));
    q.push(job(9, 0));
    q.push(job(4, 0));
    assert_eq!(q.peek(), Some(&job(9, 0)));
    assert_eq!(q.len(), 3);
}

#[test]
fn heap_into_sorted_vec_sorts_ascending_and_keeps_count() {
    let q = BinHeapQueue::from(vec![job(3, 0), job(1, 0), job(2, 0)]);
    let sorted = q.into_sorted_vec();
    assert_eq!(sorted, vec![job(1, 0), job(2, 0), job(3, 0)]);
}

#[test]
fn heap_init_keeps_the_given_id() {
    let id = uuid::Uuid::new_v4();
    let q = BinHeapQueue::init(id, vec![job(1, 0)]);
    assert_eq!(q.id, id);
}

#[test]
fn heap_len_is_pushes_minus_successful_pops() {
    let mut q: BinHeapQueue<u64> = BinHeapQueue::new();
    q.push(job(1, 0));
    q.push(job(2, 0));
    q.push(job(3, 0));
    assert_eq!(q.len(), 3);
    assert!(q.pop().is_some());
    assert_eq!(q.len(), 2);
    assert!(q.pop().is_some());
    assert!(q.pop().is_some());
    assert!(q.pop().is_none());
    assert_eq!(q.len(), 0);
    assert!(q.is_empty());
}

#[test]
fn heap_capacity_is_at_least_len() {
    let mut q: BinHeapQueue<u64> = BinHeapQueue::with_capacity(2);
    for i in 0..8 {
        q.push(job(i, 0));
    }
    assert!(q.capacity() >= q.len());
}

#[test]
fn heap_ids_are_unique_and_stable() {
    let q1: BinHeapQueue<u64> = BinHeapQueue::new();
    let q2: BinHeapQueue<u64> = BinHeapQueue::new();
    assert_ne!(q1.id, q2.id);
    let id = q1.id;
    let mut q1 = q1;
    q1.push(job(1, 0));
    q1.pop();
    assert_eq!(q1.id, id);
}
