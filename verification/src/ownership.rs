//! Handle lifetime, over whole histories.
//!
//! [`crate::cura::Cura::clone_handle`] and [`crate::cura::Cura::drop_handle`]
//! pin down what one clone or drop does to the owner count. This module
//! states what follows for any interleaving of such operations, across any
//! number of threads: the block is freed exactly once, by the final drop,
//! and never while a handle still exists — so the payload's destructor
//! runs exactly once, strictly after the last drop, never before and
//! never twice.

use vstd::prelude::*;

verus! {

/// One ownership event in a history: a handle was cloned, or dropped.
#[derive(Clone, Copy, PartialEq, Eq, Structural, Debug)]
pub enum OwnerOp {
    /// A handle was cloned: one more owner.
    Cloned,
    /// A handle was dropped: one owner fewer.
    Dropped,
}

/// The owner count after a history of clones and drops, starting from the
/// single handle the constructor returns.
pub open spec fn owners_after(ops: Seq<OwnerOp>) -> int
    decreases ops.len(),
{
    if ops.len() == 0 {
        1
    } else {
        owners_after(ops.drop_last()) + (if ops.last() == OwnerOp::Cloned {
            1int
        } else {
            -1int
        })
    }
}

/// A history is valid when every operation happens while at least one
/// handle still exists: nobody can clone or drop a handle that is gone.
pub open spec fn valid_history(ops: Seq<OwnerOp>) -> bool {
    forall|i: int| 0 <= i < ops.len() ==> owners_after(#[trigger] ops.take(i)) >= 1
}

/// The block is freed at step `i` when that operation takes the owner
/// count to zero.
pub open spec fn freed_at(ops: Seq<OwnerOp>, i: int) -> bool {
    owners_after(ops.take(i + 1)) == 0
}

/// Unfolding helper: the count after `i + 1` steps is the count after `i`
/// steps moved by the `i`-th operation.
proof fn lemma_owners_after_step(ops: Seq<OwnerOp>, i: int)
    requires
        0 <= i < ops.len(),
    ensures
        owners_after(ops.take(i + 1)) == owners_after(ops.take(i)) + (if ops[i]
            == OwnerOp::Cloned {
            1int
        } else {
            -1int
        }),
{
    assert(ops.take(i + 1).drop_last() =~= ops.take(i));
    assert(ops.take(i + 1).last() == ops[i]);
}

/// A history extended while a handle still exists stays valid, and the
/// owner count moves by exactly the one operation.
pub proof fn lemma_history_step(ops: Seq<OwnerOp>, op: OwnerOp)
    requires
        valid_history(ops),
        owners_after(ops) >= 1,
    ensures
        valid_history(ops.push(op)),
        owners_after(ops.push(op)) == owners_after(ops) + (if op == OwnerOp::Cloned {
            1int
        } else {
            -1int
        }),
{
    let h2 = ops.push(op);
    assert(h2.drop_last() =~= ops);
    assert forall|i: int| 0 <= i < h2.len() implies owners_after(#[trigger] h2.take(i)) >= 1 by {
        assert(h2.take(i) =~= ops.take(i));
        if i < ops.len() {
            assert(owners_after(ops.take(i)) >= 1);
        } else {
            assert(ops.take(i) =~= ops);
        }
    }
}

/// No leak, no double free: in a valid history, a step that frees the
/// block is the final step of the history, and it is a drop. Hence the
/// free happens at most once, never while a handle still exists, and
/// strictly after the last drop completes.
pub proof fn lemma_free_is_final_drop(ops: Seq<OwnerOp>, i: int)
    requires
        valid_history(ops),
        0 <= i < ops.len(),
        freed_at(ops, i),
    ensures
        i == ops.len() - 1,
        ops[i] == OwnerOp::Dropped,
{
    lemma_owners_after_step(ops, i);
    if i < ops.len() - 1 {
        assert(owners_after(ops.take(i + 1)) >= 1);
    }
}

/// The free happens exactly once: two freeing steps of one valid history
/// are the same step.
pub proof fn lemma_free_at_most_once(ops: Seq<OwnerOp>, i: int, j: int)
    requires
        valid_history(ops),
        0 <= i < ops.len(),
        0 <= j < ops.len(),
        freed_at(ops, i),
        freed_at(ops, j),
    ensures
        i == j,
{
    lemma_free_is_final_drop(ops, i);
    lemma_free_is_final_drop(ops, j);
}

/// And the free does happen: a valid history that ends with no owners
/// left frees the block at its final step.
pub proof fn lemma_last_drop_frees(ops: Seq<OwnerOp>)
    requires
        valid_history(ops),
        ops.len() > 0,
        owners_after(ops) == 0,
    ensures
        freed_at(ops, ops.len() - 1),
{
    assert(ops.take(ops.len() as int) =~= ops);
}

} // verus!
