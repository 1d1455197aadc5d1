use vstd::prelude::*;

use crate::task::Ranked;
use crate::task::sorted_by_rank;

verus! {

/// FIFO discipline: with contents `s` in push order, `k` pops leave
/// `s.skip(k)`, and the next pop returns `s[k]` and leaves `s.skip(k + 1)`.
/// So successive pops return the items in exactly the order pushed, until
/// the queue is empty; after that, `pop`'s contract makes it return `None`.
pub proof fn lemma_fifo_pops<T>(s: Seq<T>, k: int)
    requires
        0 <= k < s.len(),
    ensures
        s.skip(k).len() == s.len() - k,
        s.skip(k)[0] == s[k],
        s.skip(k).subrange(1, s.skip(k).len() as int) == s.skip(k + 1),
{
    assert(s.skip(k).subrange(1, s.skip(k).len() as int) =~= s.skip(k + 1));
}

/// Priority discipline, one pop: with well-formed contents (ascending rank),
/// after `j` pops the queue holds `s.take(s.len() - j)`, still well-formed,
/// and the next pop returns `s[s.len() - 1 - j]` and leaves
/// `s.take(s.len() - j - 1)`.
pub proof fn lemma_priority_pop_step<T>(s: Seq<Ranked<T>>, j: int)
    requires
        sorted_by_rank(s),
        0 <= j < s.len(),
    ensures
        s.take(s.len() - j).len() == s.len() - j,
        s.take(s.len() - j)[s.len() - j - 1] == s[s.len() - 1 - j],
        s.take(s.len() - j).subrange(0, s.len() - j - 1) == s.take(s.len() - j - 1),
        sorted_by_rank(s.take(s.len() - j)),
{
    assert(s.take(s.len() - j).subrange(0, s.len() - j - 1) =~= s.take(s.len() - j - 1));
}

/// Priority discipline, the order across pops: the item returned by a later
/// pop never outranks the item of an earlier one, so successive pops return
/// items in descending rank. Of two items of equal rank, nothing is said:
/// their relative order is unspecified.
pub proof fn lemma_priority_pops_descend<T>(s: Seq<Ranked<T>>, j: int, k: int)
    requires
        sorted_by_rank(s),
        0 <= j <= k < s.len(),
    ensures
        s[s.len() - 1 - k].rank <= s[s.len() - 1 - j].rank,
{
}

/// One queue operation, as the length accounting sees it: a push, or a pop
/// attempt. A drain is a run of pops to exhaustion.
pub enum QueueOp {
    Push,
    Pop,
}

/// The length after one operation, for either discipline: a push grows the
/// queue by one; a pop removes one item when any is held and nothing
/// otherwise. Exactly the effect `push`'s and `pop`'s contracts give on the
/// view's length.
pub open spec fn len_after_op(n: nat, op: QueueOp) -> nat {
    match op {
        QueueOp::Push => n + 1,
        QueueOp::Pop => if n > 0 {
            (n - 1) as nat
        } else {
            n
        },
    }
}

/// The length after a whole interleaving of operations.
pub open spec fn len_after_ops(n: nat, ops: Seq<QueueOp>) -> nat
    decreases ops.len(),
{
    if ops.len() == 0 {
        n
    } else {
        len_after_ops(len_after_op(n, ops[0]), ops.skip(1))
    }
}

/// How many operations of the interleaving are pushes.
pub open spec fn count_pushes(ops: Seq<QueueOp>) -> nat
    decreases ops.len(),
{
    if ops.len() == 0 {
        0
    } else {
        (if ops[0] is Push {
            1nat
        } else {
            0nat
        }) + count_pushes(ops.skip(1))
    }
}

/// How many pop attempts of the interleaving succeed, starting from `n`
/// held items.
pub open spec fn count_successful_pops(n: nat, ops: Seq<QueueOp>) -> nat
    decreases ops.len(),
{
    if ops.len() == 0 {
        0
    } else {
        (if ops[0] is Pop && n > 0 {
            1nat
        } else {
            0nat
        }) + count_successful_pops(len_after_op(n, ops[0]), ops.skip(1))
    }
}

/// Length accounting: for every interleaving of pushes and pop attempts on a
/// single-owner queue of either discipline, the length afterwards equals the
/// starting length plus the pushes minus the successful pops.
pub proof fn lemma_len_accounting(n: nat, ops: Seq<QueueOp>)
    ensures
        count_successful_pops(n, ops) <= n + count_pushes(ops),
        len_after_ops(n, ops) == n + count_pushes(ops) - count_successful_pops(n, ops),
    decreases ops.len(),
{
    if ops.len() > 0 {
        lemma_len_accounting(len_after_op(n, ops[0]), ops.skip(1));
    }
}

} // verus!
