//! Immutable fact records emitted by completed operations, for off-system
//! observers. They double as receipts: the amounts they carry are exactly
//! the transfers the surrounding environment must execute.

use vstd::prelude::*;
use crate::types::{AccountId, Period};

verus! {

#[derive(Clone, Copy, PartialEq, Eq, Structural, Debug)]
pub struct Initialized {
    pub authority: AccountId,
    pub zktc_mint: AccountId,
    pub zcw: AccountId,
}

#[derive(Clone, Copy, PartialEq, Eq, Structural, Debug)]
pub struct TokensLocked {
    pub user: AccountId,
    pub lock_id: u64,
    pub amount: u64,
    pub period: Period,
    pub timestamp: u64,
}

#[derive(Clone, Copy, PartialEq, Eq, Structural, Debug)]
pub struct TokensUnlocked {
    pub user: AccountId,
    pub lock_id: u64,
    pub returned_to_user: u64,
    pub donation_to_zcw: u64,
    pub matched: bool,
    pub match_amount: u64,
    pub badge_id: u64,
}

#[derive(Clone, Copy, PartialEq, Eq, Structural, Debug)]
pub struct UnlockedAllMatured {
    pub user: AccountId,
    pub unlocked_count: u32,
}

#[derive(Clone, Copy, PartialEq, Eq, Structural, Debug)]
pub struct BurnToGiveEvent {
    pub user: AccountId,
    pub amount: u64,
    pub timestamp: u64,
    pub badge_id: u64,
}

#[derive(Clone, Copy, PartialEq, Eq, Structural, Debug)]
pub struct MirroredDonation {
    pub founder: AccountId,
    pub amount: u64,
    pub zakat_pool: AccountId,
}

#[derive(Clone, Copy, PartialEq, Eq, Structural, Debug)]
pub struct ZcwUpdated {
    pub old_wallet: AccountId,
    pub new_wallet: AccountId,
}

#[derive(Clone, Copy, PartialEq, Eq, Structural, Debug)]
pub struct DonationRateUpdated {
    pub period: Period,
    pub old_rate: u16,
    pub new_rate: u16,
}

} // verus!
