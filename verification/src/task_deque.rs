use vstd::prelude::*;

use std::collections::VecDeque;

use crate::ident::fresh_id;
use crate::task::Ranked;
use crate::task::sorted_by_rank;

verus! {

/// A FIFO queue of tasks with a unique identity.
///
/// The identifier is assigned at construction and never recomputed from the
/// contents: two queues are distinct entities even when they hold equal
/// items. The view of a queue is the sequence of its items, front first.
pub struct Queue<T> {
    pub id: uuid::Uuid,
    deque: VecDeque<Ranked<T>>,
}

impl<T> View for Queue<T> {
    type V = Seq<Ranked<T>>;

    closed spec fn view(&self) -> Seq<Ranked<T>> {
        self.deque@
    }
}

/// Relies on `std::collections::VecDeque::capacity`: the documentation
/// promises that a deque can hold at least `capacity()` elements, so the
/// capacity is never below the length.
#[verifier::external_body]
fn deque_capacity<T>(deque: &VecDeque<T>) -> (r: usize)
    ensures
        r >= deque@.len(),
{
    deque.capacity()
}

/// Relies on `std::vec::Vec::capacity`: the documentation promises that a
/// vector can hold at least `capacity()` elements, so the capacity is never
/// below the length.
#[verifier::external_body]
fn vec_capacity<T>(vec: &Vec<T>) -> (r: usize)
    ensures
        r >= vec@.len(),
{
    vec.capacity()
}

impl<T> Queue<T> {
    /// The queue's identifier, as contracts speak of it. Assigned at
    /// construction, never recomputed from the contents.
    pub closed spec fn spec_id(&self) -> uuid::Uuid {
        self.id
    }

    /// A queue with the given identifier, pre-loaded with `vec` in its given
    /// order.
    pub fn init(id: uuid::Uuid, vec: Vec<Ranked<T>>) -> (r: Self)
        ensures
            r.spec_id() == id,
            r@ == vec@,
    {
        let ghost orig = vec@;
        let mut rest = vec;
        let mut deque: VecDeque<Ranked<T>> = VecDeque::new();
        proof {
            assert(rest@ + deque@ =~= orig);
        }
        while rest.len() > 0
            invariant
                rest@ + deque@ == orig,
            decreases rest@.len(),
        {
            let ghost prev_rest = rest@;
            let ghost prev_deque = deque@;
            let x = rest.pop().unwrap();
            deque.push_front(x);
            proof {
                assert(rest@ + deque@ =~= orig) by {
                    assert(prev_rest =~= rest@ + seq![x]);
                    assert(deque@ =~= seq![x] + prev_deque);
                }
            }
        }
        proof {
            assert(deque@ =~= orig);
        }
        Queue { id, deque }
    }

    /// An empty queue with a fresh identifier and no capacity reservation.
    pub fn new() -> (r: Self)
        ensures
            r@.len() == 0,
    {
        let id = fresh_id();
        let vec: Vec<Ranked<T>> = Vec::new();
        Self::init(id, vec)
    }

    /// A queue pre-loaded with `vec` in its given order, with a fresh
    /// identifier.
    pub fn from(vec: Vec<Ranked<T>>) -> (r: Self)
        ensures
            r@ == vec@,
    {
        let id = fresh_id();
        Self::init(id, vec)
    }

    /// An empty queue with a fresh identifier and storage reserved for
    /// `capacity` elements.
    pub fn with_capacity(capacity: usize) -> (r: Self)
        ensures
            r@.len() == 0,
    {
        let id = fresh_id();
        Queue { id, deque: VecDeque::with_capacity(capacity) }
    }

    /// How many elements the queue can hold without reallocating; never below
    /// the current length.
    pub fn capacity(&self) -> (r: usize)
        ensures
            r >= self@.len(),
    {
        deque_capacity(&self.deque)
    }

    /// Append `value` at the tail. Total: no failure condition.
    pub fn push(&mut self, value: Ranked<T>)
        ensures
            final(self)@ == old(self)@.push(value),
            final(self).spec_id() == old(self).spec_id(),
    {
        self.deque.push_back(value);
    }

    /// Remove and return the head item; `None` exactly when the queue is
    /// empty. Successive pops return items in the order they were pushed.
    pub fn pop(&mut self) -> (r: Option<Ranked<T>>)
        ensures
            final(self).spec_id() == old(self).spec_id(),
            match r {
                Some(x) => {
                    &&& old(self)@.len() > 0
                    &&& x == old(self)@[0]
                    &&& final(self)@ == old(self)@.subrange(1, old(self)@.len() as int)
                },
                None => {
                    &&& old(self)@.len() == 0
                    &&& final(self)@ == old(self)@
                },
            },
    {
        self.deque.pop_front()
    }

    /// A read-only view of the head item; `None` exactly when the queue is
    /// empty.
    pub fn peek(&self) -> (r: Option<&Ranked<T>>)
        ensures
            match r {
                Some(x) => self@.len() > 0 && *x == self@[0],
                None => self@.len() == 0,
            },
    {
        if self.deque.len() == 0 {
            None
        } else {
            Some(&self.deque[0])
        }
    }

    /// Consume the queue and return every remaining item in ascending rank
    /// order, regardless of insertion order: count-preserved, nothing left
    /// behind.
    pub fn into_sorted_vec(self) -> (r: Vec<Ranked<T>>)
        ensures
            r@.to_multiset() == self@.to_multiset(),
            r@.len() == self@.len(),
            sorted_by_rank(r@),
    {
        let ghost orig = self@;
        let mut deque = self.deque;
        let mut vec: Vec<Ranked<T>> = Vec::new();
        proof {
            assert(vec@ + deque@ =~= orig);
        }
        while deque.len() > 0
            invariant
                vec@ + deque@ == orig,
            decreases deque@.len(),
        {
            let ghost prev_vec = vec@;
            let ghost prev_deque = deque@;
            let x = deque.pop_front().unwrap();
            vec.push(x);
            proof {
                assert(vec@ + deque@ =~= orig) by {
                    assert(prev_deque =~= seq![x] + deque@);
                    assert(vec@ =~= prev_vec + seq![x]);
                }
            }
        }
        proof {
            assert(vec@ =~= orig);
        }
        sort_tasks(vec)
    }

    /// The number of items currently held.
    pub fn len(&self) -> (r: usize)
        ensures
            r == self@.len(),
    {
        self.deque.len()
    }

    /// Whether the queue holds no items.
    pub fn is_empty(&self) -> (r: bool)
        ensures
            r == (self@.len() == 0),
    {
        self.deque.len() == 0
    }
}

impl<T> Default for Queue<T> {
    /// Same as `new`: empty, with a fresh identifier.
    fn default() -> (r: Self)
        ensures
            r@.len() == 0,
    {
        Self::new()
    }
}

/// A priority queue of tasks with a unique identity.
///
/// Same contract surface as `Queue`, but `pop` and `peek` yield the maximum
/// element under the task order. Held as a vector kept in ascending rank
/// order; `wf` is that invariant. When two tasks share a rank their relative
/// order is unspecified. The view is the held sequence, ascending.
pub struct BinHeapQueue<T> {
    pub id: uuid::Uuid,
    heap: Vec<Ranked<T>>,
}

impl<T> View for BinHeapQueue<T> {
    type V = Seq<Ranked<T>>;

    closed spec fn view(&self) -> Seq<Ranked<T>> {
        self.heap@
    }
}

impl<T> BinHeapQueue<T> {
    /// The queue's identifier, as contracts speak of it. Assigned at
    /// construction, never recomputed from the contents.
    pub closed spec fn spec_id(&self) -> uuid::Uuid {
        self.id
    }

    /// Well-formedness: the held sequence is in ascending rank order.
    /// Constructors establish it and every method preserves it.
    pub open spec fn wf(&self) -> bool {
        sorted_by_rank(self@)
    }

    /// A queue with the given identifier, holding exactly the items of
    /// `vec`.
    pub fn init(id: uuid::Uuid, vec: Vec<Ranked<T>>) -> (r: Self)
        ensures
            r.spec_id() == id,
            r@.to_multiset() == vec@.to_multiset(),
            r@.len() == vec@.len(),
            r.wf(),
    {
        let heap = sort_tasks(vec);
        BinHeapQueue { id, heap }
    }

    /// An empty queue with a fresh identifier and no capacity reservation.
    pub fn new() -> (r: Self)
        ensures
            r@.len() == 0,
            r.wf(),
    {
        let id = fresh_id();
        let vec: Vec<Ranked<T>> = Vec::new();
        Self::init(id, vec)
    }

    /// A queue holding exactly the items of `vec`, with a fresh identifier.
    pub fn from(vec: Vec<Ranked<T>>) -> (r: Self)
        ensures
            r@.to_multiset() == vec@.to_multiset(),
            r@.len() == vec@.len(),
            r.wf(),
    {
        let id = fresh_id();
        Self::init(id, vec)
    }

    /// An empty queue with a fresh identifier and storage reserved for
    /// `capacity` elements.
    pub fn with_capacity(capacity: usize) -> (r: Self)
        ensures
            r@.len() == 0,
            r.wf(),
    {
        let id = fresh_id();
        BinHeapQueue { id, heap: Vec::with_capacity(capacity) }
    }

    /// How many elements the queue can hold without reallocating; never below
    /// the current length.
    pub fn capacity(&self) -> (r: usize)
        ensures
            r >= self@.len(),
    {
        vec_capacity(&self.heap)
    }

    /// Add `value`. Total: no failure condition.
    pub fn push(&mut self, value: Ranked<T>)
        requires
            old(self).wf(),
        ensures
            final(self).wf(),
            final(self).spec_id() == old(self).spec_id(),
            final(self)@.to_multiset() == old(self)@.to_multiset().insert(value),
            final(self)@.len() == old(self)@.len() + 1,
    {
        insert_by_rank(&mut self.heap, value);
    }

    /// Remove and return a maximum-rank item; `None` exactly when the queue
    /// is empty. The returned item's rank is greatest among what was held.
    pub fn pop(&mut self) -> (r: Option<Ranked<T>>)
        requires
            old(self).wf(),
        ensures
            final(self).wf(),
            final(self).spec_id() == old(self).spec_id(),
            match r {
                Some(x) => {
                    &&& old(self)@.len() > 0
                    &&& x == old(self)@[old(self)@.len() - 1]
                    &&& final(self)@ == old(self)@.subrange(0, old(self)@.len() - 1)
                    &&& forall|i: int|
                        0 <= i < old(self)@.len() ==> old(self)@[i].rank <= x.rank
                },
                None => {
                    &&& old(self)@.len() == 0
                    &&& final(self)@ == old(self)@
                },
            },
    {
        self.heap.pop()
    }

    /// A read-only view of a maximum-rank item; `None` exactly when the
    /// queue is empty.
    pub fn peek(&self) -> (r: Option<&Ranked<T>>)
        requires
            self.wf(),
        ensures
            match r {
                Some(x) => {
                    &&& self@.len() > 0
                    &&& *x == self@[self@.len() - 1]
                    &&& forall|i: int| 0 <= i < self@.len() ==> self@[i].rank <= x.rank
                },
                None => self@.len() == 0,
            },
    {
        let n = self.heap.len();
        if n == 0 {
            None
        } else {
            Some(&self.heap[n - 1])
        }
    }

    /// Consume the queue and return every remaining item in ascending rank
    /// order: count-preserved, nothing left behind. The discipline's natural
    /// operation: the held sequence is already sorted.
    pub fn into_sorted_vec(self) -> (r: Vec<Ranked<T>>)
        requires
            self.wf(),
        ensures
            r@ == self@,
            r@.to_multiset() == self@.to_multiset(),
            r@.len() == self@.len(),
            sorted_by_rank(r@),
    {
        self.heap
    }

    /// The number of items currently held.
    pub fn len(&self) -> (r: usize)
        ensures
            r == self@.len(),
    {
        self.heap.len()
    }

    /// Whether the queue holds no items.
    pub fn is_empty(&self) -> (r: bool)
        ensures
            r == (self@.len() == 0),
    {
        self.heap.len() == 0
    }
}

impl<T> Default for BinHeapQueue<T> {
    /// Same as `new`: empty, with a fresh identifier.
    fn default() -> (r: Self)
        ensures
            r@.len() == 0,
            r.wf(),
    {
        Self::new()
    }
}

/// Removing the last element of a non-empty sequence and re-inserting it
/// leaves the multiset of elements unchanged.
proof fn lemma_pop_last_multiset<T>(s: Seq<T>)
    requires
        s.len() > 0,
    ensures
        s.subrange(0, s.len() - 1).to_multiset().insert(s[s.len() - 1]) == s.to_multiset(),
{
    broadcast use vstd::seq_lib::group_to_multiset_ensures;

    assert(s.subrange(0, s.len() - 1).push(s[s.len() - 1]) =~= s);
}

/// Insert `value` into a vector kept in ascending rank order, preserving the
/// order and adding exactly one occurrence of `value`.
fn insert_by_rank<T>(vec: &mut Vec<Ranked<T>>, value: Ranked<T>)
    requires
        sorted_by_rank(old(vec)@),
    ensures
        sorted_by_rank(final(vec)@),
        final(vec)@.to_multiset() == old(vec)@.to_multiset().insert(value),
        final(vec)@.len() == old(vec)@.len() + 1,
{
    broadcast use vstd::seq_lib::to_multiset_insert;

    let mut i: usize = 0;
    loop
        invariant
            sorted_by_rank(vec@),
            vec@ == old(vec)@,
            i <= vec@.len(),
            forall|k: int| 0 <= k < i ==> vec@[k].rank <= value.rank,
        ensures
            vec@ == old(vec)@,
            i <= vec@.len(),
            forall|k: int| 0 <= k < i ==> vec@[k].rank <= value.rank,
            i < vec@.len() ==> vec@[i as int].rank > value.rank,
        decreases vec@.len() - i,
    {
        if i == vec.len() {
            break;
        }
        if !(vec[i].rank <= value.rank) {
            break;
        }
        i += 1;
    }
    vec.insert(i, value);
}

/// Sort tasks into ascending rank order: same elements, same count.
fn sort_tasks<T>(tasks: Vec<Ranked<T>>) -> (r: Vec<Ranked<T>>)
    ensures
        r@.to_multiset() == tasks@.to_multiset(),
        r@.len() == tasks@.len(),
        sorted_by_rank(r@),
{
    broadcast use vstd::seq_lib::group_to_multiset_ensures;

    let ghost orig = tasks@;
    let mut rest = tasks;
    let mut out: Vec<Ranked<T>> = Vec::new();
    while rest.len() > 0
        invariant
            sorted_by_rank(out@),
            out@.to_multiset().add(rest@.to_multiset()) == orig.to_multiset(),
            out@.len() + rest@.len() == orig.len(),
        decreases rest@.len(),
    {
        let ghost prev_rest = rest@;
        let ghost prev_out = out@;
        let x = rest.pop().unwrap();
        proof {
            lemma_pop_last_multiset(prev_rest);
        }
        insert_by_rank(&mut out, x);
        proof {
            assert(out@.to_multiset().add(rest@.to_multiset()) =~= orig.to_multiset());
        }
    }
    proof {
        vstd::multiset::lemma_multiset_empty_len(rest@.to_multiset());
        assert(out@.to_multiset().add(rest@.to_multiset()) =~= out@.to_multiset());
    }
    out
}

} // verus!
