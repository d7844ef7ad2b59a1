//! The per-user burn ledger: cooldown timestamp, cumulative burned amount
//! and milestone badge count for the burn-to-give path.

use vstd::prelude::*;
use crate::types::AccountId;

verus! {

/// One record per burner. `last_burn_timestamp == 0` means the user has
/// never burned and is not subject to the cooldown.
#[derive(Clone, Copy, PartialEq, Eq, Structural, Debug)]
pub struct UserBurnData {
    pub owner: AccountId,
    pub last_burn_timestamp: u64,
    pub burn_badge_count: u64,
    pub total_burned: u64,
}

impl UserBurnData {
    pub fn new(owner: AccountId) -> (record: UserBurnData)
        ensures
            record.owner == owner,
            record.last_burn_timestamp == 0,
            record.burn_badge_count == 0,
            record.total_burned == 0,
    {
        UserBurnData { owner, last_burn_timestamp: 0, burn_badge_count: 0, total_burned: 0 }
    }
}

} // verus!
