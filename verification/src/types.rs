//! Shared value types: identities, holding periods, error taxonomy and the
//! ledger's fixed policy constants.

use vstd::prelude::*;

verus! {

/// Identity of an account, as supplied (already verified) by the execution
/// environment. Equality against stored fields is the sole authorization
/// mechanism.
#[derive(Clone, Copy, PartialEq, Eq, Structural, Debug)]
pub struct AccountId {
    pub key: u64,
}

/// A user may hold at most this many lock positions; further lock attempts
/// are rejected rather than truncated.
pub const MAX_LOCKS_PER_USER: usize = 50;

/// Seconds a user must wait between two burn-to-give operations.
pub const BURN_COOLDOWN: u64 = 7200;

/// Burning at least this many base units earns a milestone badge.
pub const BURN_BADGE_THRESHOLD: u64 = 10000;

/// The four discrete holding periods a lock may choose.
#[derive(Clone, Copy, PartialEq, Eq, Structural, Debug)]
pub enum Period {
    D30,
    D60,
    D180,
    D355,
}

/// Position of a period in the per-period configuration arrays.
pub open spec fn spec_period_index(period: Period) -> int {
    match period {
        Period::D30 => 0,
        Period::D60 => 1,
        Period::D180 => 2,
        Period::D355 => 3,
    }
}

pub fn period_index(period: Period) -> (i: usize)
    ensures
        i as int == spec_period_index(period),
        i < 4,
{
    match period {
        Period::D30 => 0,
        Period::D60 => 1,
        Period::D180 => 2,
        Period::D355 => 3,
    }
}

/// The two longest holding periods qualify for a treasury-matched donation.
pub open spec fn spec_donation_eligible(period: Period) -> bool {
    period == Period::D180 || period == Period::D355
}

pub fn donation_eligible(period: Period) -> (eligible: bool)
    ensures
        eligible == spec_donation_eligible(period),
{
    matches!(period, Period::D180 | Period::D355)
}

/// Everything that can go wrong in an operation. Each failure aborts the
/// whole operation with no state change.
#[derive(Clone, Copy, PartialEq, Eq, Structural, Debug)]
pub enum EnginesError {
    InvalidAmount,
    AlreadyUnlocked,
    LockNotMatured,
    BadLockId,
    InsufficientMatchingTreasury,
    MathOverflow,
    AmountTooLarge,
    Paused,
    WaitForCooldown,
    TooManyLocks,
    Unauthorized,
}

} // verus!
