//! The per-user lock ledger: positions awaiting maturity, the record that
//! owns them, and maturity itself.

use vstd::prelude::*;
use crate::types::{AccountId, Period, MAX_LOCKS_PER_USER, spec_period_index, period_index};

verus! {

/// A single deposit awaiting maturity. Created by a lock operation, never
/// removed; `unlocked` flips to true exactly once and never reverts.
#[derive(Clone, Copy, PartialEq, Eq, Structural, Debug)]
pub struct LockPosition {
    pub id: u64,
    pub amount: u64,
    pub start: u64,
    pub period: Period,
    pub unlocked: bool,
}

/// One record per depositor: the ordered, append-only sequence of lock
/// positions (capacity [`MAX_LOCKS_PER_USER`]) and cumulative counters.
#[derive(Clone, Debug)]
pub struct UserLockData {
    pub owner: AccountId,
    pub locks: Vec<LockPosition>,
    pub total_donated: u64,
    pub htg_badge_count: u64,
}

impl UserLockData {
    /// The record never holds more positions than its capacity.
    pub open spec fn wf(&self) -> bool {
        self.locks@.len() <= MAX_LOCKS_PER_USER
    }

    pub fn new(owner: AccountId) -> (record: UserLockData)
        ensures
            record.owner == owner,
            record.locks@ == Seq::<LockPosition>::empty(),
            record.total_donated == 0,
            record.htg_badge_count == 0,
            record.wf(),
    {
        UserLockData { owner, locks: Vec::new(), total_donated: 0, htg_badge_count: 0 }
    }
}

/// The two user records are compared field by field, with the lock sequence
/// compared by contents.
pub open spec fn spec_user_unchanged(pre: UserLockData, post: UserLockData) -> bool {
    &&& post.owner == pre.owner
    &&& post.locks@ == pre.locks@
    &&& post.total_donated == pre.total_donated
    &&& post.htg_badge_count == pre.htg_badge_count
}

/// Sum of the amounts of the positions that are still locked.
pub open spec fn locked_sum(locks: Seq<LockPosition>) -> int
    decreases locks.len(),
{
    if locks.len() == 0 {
        0
    } else {
        locked_sum(locks.drop_last()) + if locks.last().unlocked {
            0
        } else {
            locks.last().amount as int
        }
    }
}

/// Maturity: the holding period has fully elapsed since the lock started.
pub open spec fn spec_is_matured(start: u64, duration: u64, now: u64) -> bool {
    now as int >= start as int + duration as int
}

pub fn is_matured(start: u64, period: Period, durations: &[u64; 4], current_time: u64) -> (matured:
    bool)
    ensures
        matured == spec_is_matured(start, durations@[spec_period_index(period)], current_time),
{
    let duration: u64 = durations[period_index(period)];
    current_time >= duration && start <= current_time - duration
}

/// The first position at or after `k` that carries `lock_id` and is still
/// locked, or -1 if there is none.
pub open spec fn spec_find_active_from(locks: Seq<LockPosition>, lock_id: u64, k: int) -> int
    decreases locks.len() - k,
{
    if k < 0 || k >= locks.len() {
        -1
    } else if locks[k].id == lock_id && !locks[k].unlocked {
        k
    } else {
        spec_find_active_from(locks, lock_id, k + 1)
    }
}

/// The first still-locked position carrying `lock_id`, or -1.
pub open spec fn spec_find_active(locks: Seq<LockPosition>, lock_id: u64) -> int {
    spec_find_active_from(locks, lock_id, 0)
}

/// Scan for the first still-locked position with the given id.
pub fn find_active_index(locks: &Vec<LockPosition>, lock_id: u64) -> (found: Option<usize>)
    ensures
        match found {
            Some(i) => i as int == spec_find_active(locks@, lock_id),
            None => spec_find_active(locks@, lock_id) == -1,
        },
{
    let mut k: usize = 0;
    while k < locks.len()
        invariant
            k <= locks@.len(),
            spec_find_active(locks@, lock_id) == spec_find_active_from(locks@, lock_id, k as int),
        decreases locks@.len() - k,
    {
        let position = locks[k];
        if position.id == lock_id && !position.unlocked {
            return Some(k);
        }
        k = k + 1;
    }
    None
}

} // verus!
