//! Conservation of the lock accounting: across any sequence of lock and
//! unlock operations on one user, the locked aggregate moves in lockstep
//! with the sum of the user's still-locked positions, and an unlocked
//! position stays unlocked forever.

use vstd::prelude::*;
use crate::lock_ledger::{LockPosition, locked_sum};

verus! {

/// One user-visible mutation of the lock ledger, as it acts on the pair of
/// the user's position sequence and the locked aggregate: a lock appends a
/// position, an unlock flips one position. The exec operations' contracts
/// state that every successful lock and unlock has exactly this effect, and
/// every failed one has none.
pub enum UserOp {
    Lock { position: LockPosition },
    Unlock { index: usize },
}

/// Effect of one operation on `(positions, total_locked)`. An unlock of an
/// absent or already-unlocked position does nothing, as the failed exec
/// operation does.
pub open spec fn apply_user_op(
    locks: Seq<LockPosition>,
    total_locked: int,
    op: UserOp,
) -> (Seq<LockPosition>, int) {
    match op {
        UserOp::Lock { position } => (
            locks.push(position),
            total_locked + if position.unlocked {
                0
            } else {
                position.amount as int
            },
        ),
        UserOp::Unlock { index } => {
            if index < locks.len() && !locks[index as int].unlocked {
                (
                    locks.update(index as int, (LockPosition { unlocked: true, ..locks[index as int] })),
                    total_locked - locks[index as int].amount,
                )
            } else {
                (locks, total_locked)
            }
        },
    }
}

/// Effect of a whole sequence of operations, first to last.
pub open spec fn apply_user_ops(
    locks: Seq<LockPosition>,
    total_locked: int,
    ops: Seq<UserOp>,
) -> (Seq<LockPosition>, int)
    decreases ops.len(),
{
    if ops.len() == 0 {
        (locks, total_locked)
    } else {
        let next = apply_user_op(locks, total_locked, ops[0]);
        apply_user_ops(next.0, next.1, ops.skip(1))
    }
}

/// Appending a position adds its amount to the still-locked sum when it is
/// locked, and nothing when it is not.
pub proof fn lemma_locked_sum_push(locks: Seq<LockPosition>, position: LockPosition)
    ensures
        locked_sum(locks.push(position)) == locked_sum(locks) + if position.unlocked {
            0
        } else {
            position.amount as int
        },
{
    assert(locks.push(position).drop_last() =~= locks);
}

/// Flipping a still-locked position removes exactly its amount from the
/// still-locked sum.
pub proof fn lemma_locked_sum_unlock(locks: Seq<LockPosition>, i: int)
    requires
        0 <= i < locks.len(),
        !locks[i].unlocked,
    ensures
        locked_sum(locks.update(i, (LockPosition { unlocked: true, ..locks[i] }))) == locked_sum(
            locks,
        ) - locks[i].amount,
    decreases locks.len(),
{
    let updated = locks.update(i, (LockPosition { unlocked: true, ..locks[i] }));
    if i == locks.len() - 1 {
        assert(updated.drop_last() =~= locks.drop_last());
    } else {
        assert(updated.drop_last() =~= locks.drop_last().update(
            i,
            (LockPosition { unlocked: true, ..locks[i] }),
        ));
        lemma_locked_sum_unlock(locks.drop_last(), i);
    }
}

/// Law: for every sequence of lock and unlock operations on one user, the
/// difference between the locked aggregate and the sum of the user's
/// still-locked positions is invariant. Starting from a state where the
/// aggregate equals the user's still-locked sum (plus any fixed contribution
/// of other users), it still does after the whole sequence.
pub proof fn lemma_lock_accounting_conserved(
    locks: Seq<LockPosition>,
    total_locked: int,
    ops: Seq<UserOp>,
)
    ensures
        ({
            let end = apply_user_ops(locks, total_locked, ops);
            end.1 - locked_sum(end.0) == total_locked - locked_sum(locks)
        }),
    decreases ops.len(),
{
    if ops.len() != 0 {
        let next = apply_user_op(locks, total_locked, ops[0]);
        match ops[0] {
            UserOp::Lock { position } => {
                lemma_locked_sum_push(locks, position);
            },
            UserOp::Unlock { index } => {
                if index < locks.len() && !locks[index as int].unlocked {
                    lemma_locked_sum_unlock(locks, index as int);
                }
            },
        }
        lemma_lock_accounting_conserved(next.0, next.1, ops.skip(1));
    }
}

/// Law: `unlocked` is monotone. No sequence of operations ever returns an
/// unlocked position to the locked state, and positions are never removed.
pub proof fn lemma_unlocked_is_permanent(
    locks: Seq<LockPosition>,
    total_locked: int,
    ops: Seq<UserOp>,
)
    ensures
        ({
            let end = apply_user_ops(locks, total_locked, ops);
            &&& end.0.len() >= locks.len()
            &&& forall|j: int|
                0 <= j < locks.len() && locks[j].unlocked ==> end.0[j].unlocked
        }),
    decreases ops.len(),
{
    if ops.len() != 0 {
        let next = apply_user_op(locks, total_locked, ops[0]);
        assert forall|j: int| 0 <= j < locks.len() && locks[j].unlocked implies next.0[j].unlocked by {
            assert(next.0.len() >= locks.len());
        }
        lemma_unlocked_is_permanent(next.0, next.1, ops.skip(1));
    }
}

} // verus!
