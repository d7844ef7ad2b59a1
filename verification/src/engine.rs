//! The global ledger: aggregate counters, configuration and the authority
//! gate, together with every public operation of the engine.
//!
//! Operations take the vault's current balance and the current time as
//! arguments, mutate the ledger records in place, and return the event that
//! a completed operation emits. The amounts carried by the event are the
//! external transfers the caller must execute; a failed operation returns an
//! error and leaves every record unchanged.

use vstd::prelude::*;
use crate::types::{
    AccountId, Period, EnginesError, MAX_LOCKS_PER_USER, BURN_COOLDOWN, BURN_BADGE_THRESHOLD,
    spec_period_index, period_index, spec_donation_eligible, donation_eligible,
};
use crate::treasury::{spec_free_treasury, spec_available_excess, free_treasury, available_excess};
use crate::lock_ledger::{
    LockPosition, UserLockData, spec_user_unchanged, spec_is_matured, is_matured,
    spec_find_active, find_active_index,
};
use crate::burn_ledger::UserBurnData;
use crate::conservation::{UserOp, apply_user_op};
use crate::events::{
    Initialized, TokensLocked, TokensUnlocked, UnlockedAllMatured, BurnToGiveEvent,
    MirroredDonation, ZcwUpdated, DonationRateUpdated,
};

verus! {

/// One record per deployment: identities, aggregate counters, per-period
/// configuration and the pause flag.
#[derive(Clone, Debug)]
#[verifier::ext_equal]
pub struct EnginesState {
    pub authority: AccountId,
    pub zktc_mint: AccountId,
    pub zcw: AccountId,
    pub vault: AccountId,
    pub total_locked: u64,
    pub total_unlocked: u64,
    pub next_badge_id: u64,
    pub next_lock_id: u64,
    pub reserve_for_donation: u64,
    pub paused: bool,
    pub donation_rates: [u16; 4],
    pub scale: u16,
    pub period_durations: [u64; 4],
    pub uri_30_days: String,
    pub uri_60_days: String,
    pub uri_180_days: String,
    pub uri_365_days: String,
}

impl EnginesState {
    /// The percentage scale is fixed at initialization and never zero, so
    /// every donation split is well defined.
    pub open spec fn wf(&self) -> bool {
        self.scale > 0
    }

    /// Donation rate (basis points out of `scale`) for a period.
    pub open spec fn spec_rate(&self, period: Period) -> u16 {
        self.donation_rates@[spec_period_index(period)]
    }

    /// Holding duration of a period, in time units.
    pub open spec fn spec_duration(&self, period: Period) -> u64 {
        self.period_durations@[spec_period_index(period)]
    }

    /// The donation split of an amount: `floor(amount * rate / scale)`.
    pub open spec fn spec_donation(&self, amount: u64, period: Period) -> int {
        (amount as int * self.spec_rate(period) as int) / (self.scale as int)
    }

    /// Badge content reference for the milestone of a holding period.
    pub open spec fn spec_milestone_uri(&self, period: Period) -> String {
        match period {
            Period::D30 => self.uri_30_days,
            Period::D60 => self.uri_60_days,
            Period::D180 => self.uri_180_days,
            Period::D355 => self.uri_365_days,
        }
    }

    /// The capability check gating every administrative operation: only the
    /// stored authority may call them.
    pub open spec fn spec_is_authorized(&self, caller: AccountId) -> bool {
        caller == self.authority
    }

    pub fn is_authorized(&self, caller: AccountId) -> (authorized: bool)
        ensures
            authorized == self.spec_is_authorized(caller),
    {
        caller == self.authority
    }

    pub fn milestone_uri(&self, period: Period) -> (uri: &String)
        ensures
            *uri == self.spec_milestone_uri(period),
    {
        match period {
            Period::D30 => &self.uri_30_days,
            Period::D60 => &self.uri_60_days,
            Period::D180 => &self.uri_180_days,
            Period::D355 => &self.uri_365_days,
        }
    }
}

/// Identities and configuration are untouched by the given operation; only
/// counters and the pause flag may move.
pub open spec fn spec_config_unchanged(pre: EnginesState, post: EnginesState) -> bool {
    &&& post.authority == pre.authority
    &&& post.zktc_mint == pre.zktc_mint
    &&& post.zcw == pre.zcw
    &&& post.vault == pre.vault
    &&& post.donation_rates == pre.donation_rates
    &&& post.scale == pre.scale
    &&& post.period_durations == pre.period_durations
    &&& post.uri_30_days == pre.uri_30_days
    &&& post.uri_60_days == pre.uri_60_days
    &&& post.uri_180_days == pre.uri_180_days
    &&& post.uri_365_days == pre.uri_365_days
}

/// Create the deployment record with its fixed defaults: donation rates
/// 50/100/150/250 basis points out of 10000, period durations 60/120/180/240
/// time units, all counters at their starting values.
pub fn initialize(
    authority: AccountId,
    zktc_mint: AccountId,
    zcw: AccountId,
    vault: AccountId,
    uri_30_days: String,
    uri_60_days: String,
    uri_180_days: String,
    uri_365_days: String,
) -> (outcome: (EnginesState, Initialized))
    ensures
        outcome.0.authority == authority,
        outcome.0.zktc_mint == zktc_mint,
        outcome.0.zcw == zcw,
        outcome.0.vault == vault,
        outcome.0.total_locked == 0,
        outcome.0.total_unlocked == 0,
        outcome.0.next_badge_id == 1,
        outcome.0.next_lock_id == 1,
        outcome.0.reserve_for_donation == 0,
        !outcome.0.paused,
        outcome.0.donation_rates@ =~= seq![50u16, 100u16, 150u16, 250u16],
        outcome.0.scale == 10000,
        outcome.0.period_durations@ =~= seq![60u64, 120u64, 180u64, 240u64],
        outcome.0.uri_30_days == uri_30_days,
        outcome.0.uri_60_days == uri_60_days,
        outcome.0.uri_180_days == uri_180_days,
        outcome.0.uri_365_days == uri_365_days,
        outcome.0.wf(),
        outcome.1 == (Initialized { authority, zktc_mint, zcw }),
{
    let state = EnginesState {
        authority,
        zktc_mint,
        zcw,
        vault,
        total_locked: 0,
        total_unlocked: 0,
        next_badge_id: 1,
        next_lock_id: 1,
        reserve_for_donation: 0,
        paused: false,
        donation_rates: [50, 100, 150, 250],
        scale: 10000,
        period_durations: [60, 120, 180, 240],
        uri_30_days,
        uri_60_days,
        uri_180_days,
        uri_365_days,
    };
    let initialized = Initialized { authority: state.authority, zktc_mint: state.zktc_mint, zcw: state.zcw };
    (state, initialized)
}

/// Point the charitable destination at a new wallet. Authority only.
pub fn set_zcw(state: &mut EnginesState, caller: AccountId, new_zcw: AccountId) -> (outcome: Result<
    ZcwUpdated,
    EnginesError,
>)
    ensures
        match outcome {
            Ok(event) => {
                &&& caller == old(state).authority
                &&& final(state).zcw == new_zcw
                &&& final(state).authority == old(state).authority
                &&& final(state).zktc_mint == old(state).zktc_mint
                &&& final(state).vault == old(state).vault
                &&& final(state).total_locked == old(state).total_locked
                &&& final(state).total_unlocked == old(state).total_unlocked
                &&& final(state).next_badge_id == old(state).next_badge_id
                &&& final(state).next_lock_id == old(state).next_lock_id
                &&& final(state).reserve_for_donation == old(state).reserve_for_donation
                &&& final(state).paused == old(state).paused
                &&& final(state).donation_rates == old(state).donation_rates
                &&& final(state).scale == old(state).scale
                &&& final(state).period_durations == old(state).period_durations
                &&& final(state).uri_30_days == old(state).uri_30_days
                &&& final(state).uri_60_days == old(state).uri_60_days
                &&& final(state).uri_180_days == old(state).uri_180_days
                &&& final(state).uri_365_days == old(state).uri_365_days
                &&& event == (ZcwUpdated { old_wallet: old(state).zcw, new_wallet: new_zcw })
            },
            Err(error) => {
                &&& error == EnginesError::Unauthorized
                &&& caller != old(state).authority
                &&& *final(state) == *old(state)
            },
        },
{
    if !state.is_authorized(caller) {
        return Err(EnginesError::Unauthorized);
    }
    let old_zcw = state.zcw;
    state.zcw = new_zcw;
    Ok(ZcwUpdated { old_wallet: old_zcw, new_wallet: new_zcw })
}

/// Replace the donation rate of one period. Authority only.
pub fn set_donation_rate(
    state: &mut EnginesState,
    caller: AccountId,
    period: Period,
    new_rate: u16,
) -> (outcome: Result<DonationRateUpdated, EnginesError>)
    ensures
        match outcome {
            Ok(event) => {
                &&& caller == old(state).authority
                &&& final(state).donation_rates@ == old(state).donation_rates@.update(
                    spec_period_index(period),
                    new_rate,
                )
                &&& final(state).authority == old(state).authority
                &&& final(state).zktc_mint == old(state).zktc_mint
                &&& final(state).zcw == old(state).zcw
                &&& final(state).vault == old(state).vault
                &&& final(state).total_locked == old(state).total_locked
                &&& final(state).total_unlocked == old(state).total_unlocked
                &&& final(state).next_badge_id == old(state).next_badge_id
                &&& final(state).next_lock_id == old(state).next_lock_id
                &&& final(state).reserve_for_donation == old(state).reserve_for_donation
                &&& final(state).paused == old(state).paused
                &&& final(state).scale == old(state).scale
                &&& final(state).period_durations == old(state).period_durations
                &&& final(state).uri_30_days == old(state).uri_30_days
                &&& final(state).uri_60_days == old(state).uri_60_days
                &&& final(state).uri_180_days == old(state).uri_180_days
                &&& final(state).uri_365_days == old(state).uri_365_days
                &&& event == (DonationRateUpdated {
                    period,
                    old_rate: old(state).spec_rate(period),
                    new_rate,
                })
            },
            Err(error) => {
                &&& error == EnginesError::Unauthorized
                &&& caller != old(state).authority
                &&& *final(state) == *old(state)
            },
        },
{
    if !state.is_authorized(caller) {
        return Err(EnginesError::Unauthorized);
    }
    let i: usize = period_index(period);
    let old_rate: u16 = state.donation_rates[i];
    let rate_0: u16 = if i == 0 { new_rate } else { state.donation_rates[0] };
    let rate_1: u16 = if i == 1 { new_rate } else { state.donation_rates[1] };
    let rate_2: u16 = if i == 2 { new_rate } else { state.donation_rates[2] };
    let rate_3: u16 = if i == 3 { new_rate } else { state.donation_rates[3] };
    state.donation_rates = [rate_0, rate_1, rate_2, rate_3];
    proof {
        assert(state.donation_rates@ =~= old(state).donation_rates@.update(
            spec_period_index(period),
            new_rate,
        ));
    }
    Ok(DonationRateUpdated { period, old_rate, new_rate })
}

/// Pause or unpause the engine. Authority only; nothing else changes.
pub fn set_paused(state: &mut EnginesState, caller: AccountId, paused: bool) -> (outcome: Result<
    (),
    EnginesError,
>)
    ensures
        match outcome {
            Ok(_) => {
                &&& caller == old(state).authority
                &&& final(state).paused == paused
                &&& spec_config_unchanged(*old(state), *final(state))
                &&& final(state).total_locked == old(state).total_locked
                &&& final(state).total_unlocked == old(state).total_unlocked
                &&& final(state).next_badge_id == old(state).next_badge_id
                &&& final(state).next_lock_id == old(state).next_lock_id
                &&& final(state).reserve_for_donation == old(state).reserve_for_donation
            },
            Err(error) => {
                &&& error == EnginesError::Unauthorized
                &&& caller != old(state).authority
                &&& *final(state) == *old(state)
            },
        },
{
    if !state.is_authorized(caller) {
        return Err(EnginesError::Unauthorized);
    }
    state.paused = paused;
    Ok(())
}

/// Release part of the available excess to an arbitrary destination.
/// Authority only; the engine's own records do not change, so the caller
/// must execute the transfer of `amount` out of the vault on success.
pub fn withdraw_excess(
    state: &EnginesState,
    caller: AccountId,
    vault_balance: u64,
    amount: u64,
    _to: AccountId,
) -> (outcome: Result<(), EnginesError>)
    ensures
        outcome == (if caller != state.authority {
            Err::<(), EnginesError>(EnginesError::Unauthorized)
        } else if spec_available_excess(
            vault_balance as int,
            state.total_locked as int,
            state.reserve_for_donation as int,
        ) < amount as int {
            Err::<(), EnginesError>(EnginesError::InsufficientMatchingTreasury)
        } else {
            Ok::<(), EnginesError>(())
        }),
{
    if !state.is_authorized(caller) {
        return Err(EnginesError::Unauthorized);
    }
    let available: u64 = available_excess(vault_balance, state.total_locked, state.reserve_for_donation);
    if amount > available {
        return Err(EnginesError::InsufficientMatchingTreasury);
    }
    Ok(())
}

/// The six counters an unlock moves, drawn from the deployment record and
/// the user record. Folding the per-lock step over these values describes
/// `unlock_all_matured` exactly.
#[derive(Clone, Copy, PartialEq, Eq, Structural, Debug)]
pub struct LedgerTotals {
    pub total_locked: u64,
    pub total_unlocked: u64,
    pub reserve_for_donation: u64,
    pub next_badge_id: u64,
    pub total_donated: u64,
    pub htg_badge_count: u64,
}

/// The counters as they currently stand in the two records.
pub open spec fn spec_totals(state: EnginesState, user: UserLockData) -> LedgerTotals {
    LedgerTotals {
        total_locked: state.total_locked,
        total_unlocked: state.total_unlocked,
        reserve_for_donation: state.reserve_for_donation,
        next_badge_id: state.next_badge_id,
        total_donated: user.total_donated,
        htg_badge_count: user.htg_badge_count,
    }
}

/// One unlock, as a function: which error it reports, or the new lock
/// sequence, the new counters and the emitted event. `cfg` supplies rates,
/// scale and durations only; the moving counters are `totals`.
pub open spec fn spec_unlock_step(
    cfg: EnginesState,
    locks: Seq<LockPosition>,
    totals: LedgerTotals,
    owner: AccountId,
    vault_balance: u64,
    now: u64,
    i: int,
) -> Result<(Seq<LockPosition>, LedgerTotals, TokensUnlocked), EnginesError> {
    if !(0 <= i < locks.len()) {
        Err(EnginesError::BadLockId)
    } else {
        let position = locks[i];
        let eligible = spec_donation_eligible(position.period);
        let donation = cfg.spec_donation(position.amount, position.period);
        if position.unlocked {
            Err(EnginesError::AlreadyUnlocked)
        } else if !spec_is_matured(position.start, cfg.spec_duration(position.period), now) {
            Err(EnginesError::LockNotMatured)
        } else if donation > u64::MAX {
            Err(EnginesError::AmountTooLarge)
        } else if donation > position.amount {
            Err(EnginesError::MathOverflow)
        } else if totals.total_locked < position.amount {
            Err(EnginesError::MathOverflow)
        } else if totals.total_unlocked + (position.amount - donation) > u64::MAX {
            Err(EnginesError::MathOverflow)
        } else if eligible && spec_free_treasury(
            vault_balance as int,
            totals.total_locked - position.amount,
        ) < donation {
            Err(EnginesError::InsufficientMatchingTreasury)
        } else if eligible && totals.reserve_for_donation < donation {
            Err(EnginesError::MathOverflow)
        } else if totals.total_donated + donation > u64::MAX {
            Err(EnginesError::MathOverflow)
        } else if totals.htg_badge_count + 1 > u64::MAX {
            Err(EnginesError::MathOverflow)
        } else if totals.next_badge_id + 1 > u64::MAX {
            Err(EnginesError::MathOverflow)
        } else {
            let to_user = (position.amount - donation) as u64;
            Ok((
                locks.update(i, (LockPosition { unlocked: true, ..position })),
                (LedgerTotals {
                    total_locked: (totals.total_locked - position.amount) as u64,
                    total_unlocked: (totals.total_unlocked + to_user) as u64,
                    reserve_for_donation: if eligible {
                        (totals.reserve_for_donation - donation) as u64
                    } else {
                        totals.reserve_for_donation
                    },
                    next_badge_id: (totals.next_badge_id + 1) as u64,
                    total_donated: (totals.total_donated + donation) as u64,
                    htg_badge_count: (totals.htg_badge_count + 1) as u64,
                }),
                (TokensUnlocked {
                    user: owner,
                    lock_id: position.id,
                    returned_to_user: to_user,
                    donation_to_zcw: donation as u64,
                    matched: eligible,
                    match_amount: if eligible {
                        donation as u64
                    } else {
                        0
                    },
                    badge_id: totals.next_badge_id,
                }),
            ))
        }
    }
}

/// Unlock the position at `index`, atomically: recompute the donation split,
/// flip the position, move the aggregate counters, release the reservation
/// for matched periods and assign the badge. On any error nothing changes.
pub fn unlock_by_index(
    state: &mut EnginesState,
    user: &mut UserLockData,
    vault_balance: u64,
    now: u64,
    index: usize,
) -> (outcome: Result<TokensUnlocked, EnginesError>)
    requires
        old(state).wf(),
    ensures
        final(state).wf(),
        spec_config_unchanged(*old(state), *final(state)),
        final(state).paused == old(state).paused,
        final(state).next_lock_id == old(state).next_lock_id,
        final(user).owner == old(user).owner,
        final(user).locks@.len() == old(user).locks@.len(),
        match outcome {
            Ok(event) => {
                &&& spec_unlock_step(
                    *old(state),
                    old(user).locks@,
                    spec_totals(*old(state), *old(user)),
                    old(user).owner,
                    vault_balance,
                    now,
                    index as int,
                ) == Ok::<_, EnginesError>((
                    final(user).locks@,
                    spec_totals(*final(state), *final(user)),
                    event,
                ))
                &&& (final(user).locks@, final(state).total_locked as int) == apply_user_op(
                    old(user).locks@,
                    old(state).total_locked as int,
                    (UserOp::Unlock { index }),
                )
            },
            Err(error) => {
                &&& *final(state) == *old(state)
                &&& spec_user_unchanged(*old(user), *final(user))
                &&& spec_unlock_step(
                    *old(state),
                    old(user).locks@,
                    spec_totals(*old(state), *old(user)),
                    old(user).owner,
                    vault_balance,
                    now,
                    index as int,
                ) == Err::<(Seq<LockPosition>, LedgerTotals, TokensUnlocked), EnginesError>(error)
            },
        },
{
    if index >= user.locks.len() {
        return Err(EnginesError::BadLockId);
    }
    let position = user.locks[index];
    if position.unlocked {
        return Err(EnginesError::AlreadyUnlocked);
    }
    if !is_matured(position.start, position.period, &state.period_durations, now) {
        return Err(EnginesError::LockNotMatured);
    }
    let rate: u16 = state.donation_rates[period_index(position.period)];
    proof {
        assert((position.amount as int) * (rate as int) <= (u64::MAX as int) * (u16::MAX as int))
            by (nonlinear_arith)
            requires
                position.amount <= u64::MAX,
                rate <= u16::MAX,
        ;
    }
    let product: u128 = (position.amount as u128) * (rate as u128);
    let donation_wide: u128 = product / (state.scale as u128);
    if donation_wide > u64::MAX as u128 {
        return Err(EnginesError::AmountTooLarge);
    }
    let donation: u64 = donation_wide as u64;
    if donation > position.amount {
        return Err(EnginesError::MathOverflow);
    }
    let to_user: u64 = position.amount - donation;
    if state.total_locked < position.amount {
        return Err(EnginesError::MathOverflow);
    }
    let new_total_locked: u64 = state.total_locked - position.amount;
    if state.total_unlocked > u64::MAX - to_user {
        return Err(EnginesError::MathOverflow);
    }
    let new_total_unlocked: u64 = state.total_unlocked + to_user;
    let eligible: bool = donation_eligible(position.period);
    let mut new_reserve: u64 = state.reserve_for_donation;
    if eligible {
        if free_treasury(vault_balance, new_total_locked) < donation {
            return Err(EnginesError::InsufficientMatchingTreasury);
        }
        if state.reserve_for_donation < donation {
            return Err(EnginesError::MathOverflow);
        }
        new_reserve = state.reserve_for_donation - donation;
    }
    if user.total_donated > u64::MAX - donation {
        return Err(EnginesError::MathOverflow);
    }
    if user.htg_badge_count == u64::MAX {
        return Err(EnginesError::MathOverflow);
    }
    if state.next_badge_id == u64::MAX {
        return Err(EnginesError::MathOverflow);
    }
    let badge_id: u64 = state.next_badge_id;
    user.locks[index].unlocked = true;
    state.total_locked = new_total_locked;
    state.total_unlocked = new_total_unlocked;
    state.reserve_for_donation = new_reserve;
    state.next_badge_id = badge_id + 1;
    user.total_donated = user.total_donated + donation;
    user.htg_badge_count = user.htg_badge_count + 1;
    Ok(TokensUnlocked {
        user: user.owner,
        lock_id: position.id,
        returned_to_user: to_user,
        donation_to_zcw: donation,
        matched: eligible,
        match_amount: if eligible {
            donation
        } else {
            0
        },
        badge_id,
    })
}

/// Unlock one position, chosen by lock id. Fails if the engine is paused or
/// no still-locked position of this user carries the id; re-invoking with an
/// already-unlocked id deterministically fails rather than double-spending.
pub fn unlock_tokens(
    state: &mut EnginesState,
    user: &mut UserLockData,
    vault_balance: u64,
    now: u64,
    lock_id: u64,
) -> (outcome: Result<TokensUnlocked, EnginesError>)
    requires
        old(state).wf(),
    ensures
        final(state).wf(),
        spec_config_unchanged(*old(state), *final(state)),
        final(state).paused == old(state).paused,
        final(state).next_lock_id == old(state).next_lock_id,
        final(user).owner == old(user).owner,
        final(user).locks@.len() == old(user).locks@.len(),
        match outcome {
            Ok(event) => {
                &&& !old(state).paused
                &&& spec_find_active(old(user).locks@, lock_id) >= 0
                &&& spec_unlock_step(
                    *old(state),
                    old(user).locks@,
                    spec_totals(*old(state), *old(user)),
                    old(user).owner,
                    vault_balance,
                    now,
                    spec_find_active(old(user).locks@, lock_id),
                ) == Ok::<_, EnginesError>((
                    final(user).locks@,
                    spec_totals(*final(state), *final(user)),
                    event,
                ))
            },
            Err(error) => {
                &&& *final(state) == *old(state)
                &&& spec_user_unchanged(*old(user), *final(user))
                &&& if old(state).paused {
                    error == EnginesError::Paused
                } else if spec_find_active(old(user).locks@, lock_id) == -1 {
                    error == EnginesError::BadLockId
                } else {
                    spec_unlock_step(
                        *old(state),
                        old(user).locks@,
                        spec_totals(*old(state), *old(user)),
                        old(user).owner,
                        vault_balance,
                        now,
                        spec_find_active(old(user).locks@, lock_id),
                    ) == Err::<(Seq<LockPosition>, LedgerTotals, TokensUnlocked), EnginesError>(error)
                }
            },
        },
{
    if state.paused {
        return Err(EnginesError::Paused);
    }
    let found = find_active_index(&user.locks, lock_id);
    match found {
        None => Err(EnginesError::BadLockId),
        Some(index) => unlock_by_index(state, user, vault_balance, now, index),
    }
}

/// Which error a lock attempt reports, if any, given the records and the
/// vault balance at entry.
pub open spec fn spec_lock_check(
    state: EnginesState,
    user: UserLockData,
    vault_balance: u64,
    amount: u64,
    period: Period,
) -> Result<(), EnginesError> {
    let eligible = spec_donation_eligible(period);
    let donation = state.spec_donation(amount, period);
    if amount == 0 {
        Err(EnginesError::InvalidAmount)
    } else if state.paused {
        Err(EnginesError::Paused)
    } else if eligible && donation > u64::MAX {
        Err(EnginesError::AmountTooLarge)
    } else if eligible && spec_available_excess(
        vault_balance as int,
        state.total_locked as int,
        state.reserve_for_donation as int,
    ) < donation {
        Err(EnginesError::InsufficientMatchingTreasury)
    } else if state.next_lock_id + 1 > u64::MAX {
        Err(EnginesError::MathOverflow)
    } else if user.locks@.len() >= MAX_LOCKS_PER_USER {
        Err(EnginesError::TooManyLocks)
    } else if state.total_locked + amount > u64::MAX {
        Err(EnginesError::MathOverflow)
    } else {
        Ok(())
    }
}

/// Lock `amount` for `period`. For the two donation-eligible periods the
/// donation split is reserved out of the available excess before anything
/// else moves; the caller then executes the deposit of `amount` into the
/// vault. A fresh position is appended to the user's record.
pub fn lock_tokens(
    state: &mut EnginesState,
    user: &mut UserLockData,
    caller: AccountId,
    vault_balance: u64,
    now: u64,
    amount: u64,
    period: Period,
) -> (outcome: Result<TokensLocked, EnginesError>)
    requires
        old(state).wf(),
        old(user).wf(),
    ensures
        final(state).wf(),
        final(user).wf(),
        spec_config_unchanged(*old(state), *final(state)),
        final(state).paused == old(state).paused,
        match outcome {
            Ok(event) => {
                &&& spec_lock_check(*old(state), *old(user), vault_balance, amount, period)
                    == Ok::<(), EnginesError>(())
                &&& final(state).total_locked == old(state).total_locked + amount
                &&& final(state).next_lock_id == old(state).next_lock_id + 1
                &&& final(state).reserve_for_donation == old(state).reserve_for_donation
                    + if spec_donation_eligible(period) {
                        old(state).spec_donation(amount, period)
                    } else {
                        0
                    }
                &&& final(state).total_unlocked == old(state).total_unlocked
                &&& final(state).next_badge_id == old(state).next_badge_id
                &&& final(user).owner == caller
                &&& final(user).locks@ == old(user).locks@.push(
                    (LockPosition {
                        id: old(state).next_lock_id,
                        amount,
                        start: now,
                        period,
                        unlocked: false,
                    }),
                )
                &&& final(user).total_donated == old(user).total_donated
                &&& final(user).htg_badge_count == old(user).htg_badge_count
                &&& event == (TokensLocked {
                    user: caller,
                    lock_id: old(state).next_lock_id,
                    amount,
                    period,
                    timestamp: now,
                })
                &&& (final(user).locks@, final(state).total_locked as int) == apply_user_op(
                    old(user).locks@,
                    old(state).total_locked as int,
                    (UserOp::Lock {
                        position: (LockPosition {
                            id: old(state).next_lock_id,
                            amount,
                            start: now,
                            period,
                            unlocked: false,
                        }),
                    }),
                )
            },
            Err(error) => {
                &&& *final(state) == *old(state)
                &&& spec_user_unchanged(*old(user), *final(user))
                &&& spec_lock_check(*old(state), *old(user), vault_balance, amount, period)
                    == Err::<(), EnginesError>(error)
            },
        },
{
    if amount == 0 {
        return Err(EnginesError::InvalidAmount);
    }
    if state.paused {
        return Err(EnginesError::Paused);
    }
    let eligible: bool = donation_eligible(period);
    let mut new_reserve: u64 = state.reserve_for_donation;
    if eligible {
        let rate: u16 = state.donation_rates[period_index(period)];
        proof {
            assert((amount as int) * (rate as int) <= (u64::MAX as int) * (u16::MAX as int))
                by (nonlinear_arith)
                requires
                    amount <= u64::MAX,
                    rate <= u16::MAX,
            ;
        }
        let product: u128 = (amount as u128) * (rate as u128);
        let donation_wide: u128 = product / (state.scale as u128);
        if donation_wide > u64::MAX as u128 {
            return Err(EnginesError::AmountTooLarge);
        }
        let donation: u64 = donation_wide as u64;
        let available: u64 = available_excess(
            vault_balance,
            state.total_locked,
            state.reserve_for_donation,
        );
        if available < donation {
            return Err(EnginesError::InsufficientMatchingTreasury);
        }
        // The reservation cannot overflow: the available excess covers the
        // donation, so reserve + donation stays within the free treasury.
        assert(state.reserve_for_donation + donation <= u64::MAX);
        new_reserve = state.reserve_for_donation + donation;
    }
    if state.next_lock_id == u64::MAX {
        return Err(EnginesError::MathOverflow);
    }
    if user.locks.len() >= MAX_LOCKS_PER_USER {
        return Err(EnginesError::TooManyLocks);
    }
    if state.total_locked > u64::MAX - amount {
        return Err(EnginesError::MathOverflow);
    }
    let lock_id: u64 = state.next_lock_id;
    let position = LockPosition { id: lock_id, amount, start: now, period, unlocked: false };
    user.locks.push(position);
    user.owner = caller;
    state.reserve_for_donation = new_reserve;
    state.next_lock_id = lock_id + 1;
    state.total_locked = state.total_locked + amount;
    Ok(TokensLocked { user: caller, lock_id, amount, period, timestamp: now })
}

/// Which error a burn attempt reports, if any.
pub open spec fn spec_burn_check(
    state: EnginesState,
    burn_record: UserBurnData,
    vault_balance: u64,
    now: u64,
    amount: u64,
) -> Result<(), EnginesError> {
    if amount == 0 {
        Err(EnginesError::InvalidAmount)
    } else if state.paused {
        Err(EnginesError::Paused)
    } else if burn_record.last_burn_timestamp > 0 && (now as int) < burn_record.last_burn_timestamp
        + BURN_COOLDOWN {
        Err(EnginesError::WaitForCooldown)
    } else if spec_available_excess(
        vault_balance as int,
        state.total_locked as int,
        state.reserve_for_donation as int,
    ) < amount as int {
        Err(EnginesError::InsufficientMatchingTreasury)
    } else if burn_record.total_burned + amount > u64::MAX {
        Err(EnginesError::MathOverflow)
    } else if amount >= BURN_BADGE_THRESHOLD && state.next_badge_id + 1 > u64::MAX {
        Err(EnginesError::MathOverflow)
    } else if amount >= BURN_BADGE_THRESHOLD && burn_record.burn_badge_count + 1 > u64::MAX {
        Err(EnginesError::MathOverflow)
    } else {
        Ok(())
    }
}

/// Burn-to-give: forfeit `amount` to a write-off destination, mirrored
/// one-to-one by a treasury-funded donation to the charitable destination.
/// Subject to the cooldown and backed only by genuinely free excess; burning
/// at least [`BURN_BADGE_THRESHOLD`] earns a milestone badge. On success the
/// caller executes both transfers.
pub fn burn_to_give(
    state: &mut EnginesState,
    burn_record: &mut UserBurnData,
    caller: AccountId,
    vault_balance: u64,
    now: u64,
    amount: u64,
) -> (outcome: Result<(BurnToGiveEvent, MirroredDonation), EnginesError>)
    requires
        old(state).wf(),
    ensures
        final(state).wf(),
        spec_config_unchanged(*old(state), *final(state)),
        final(state).paused == old(state).paused,
        match outcome {
            Ok(events) => {
                &&& spec_burn_check(*old(state), *old(burn_record), vault_balance, now, amount)
                    == Ok::<(), EnginesError>(())
                &&& final(state).total_locked == old(state).total_locked
                &&& final(state).total_unlocked == old(state).total_unlocked
                &&& final(state).reserve_for_donation == old(state).reserve_for_donation
                &&& final(state).next_lock_id == old(state).next_lock_id
                &&& final(state).next_badge_id == old(state).next_badge_id
                    + if amount >= BURN_BADGE_THRESHOLD {
                        1int
                    } else {
                        0int
                    }
                &&& final(burn_record).owner == caller
                &&& final(burn_record).total_burned == old(burn_record).total_burned + amount
                &&& final(burn_record).last_burn_timestamp == now
                &&& final(burn_record).burn_badge_count == old(burn_record).burn_badge_count
                    + if amount >= BURN_BADGE_THRESHOLD {
                        1int
                    } else {
                        0int
                    }
                &&& events.0 == (BurnToGiveEvent {
                    user: caller,
                    amount,
                    timestamp: now,
                    badge_id: if amount >= BURN_BADGE_THRESHOLD {
                        old(state).next_badge_id
                    } else {
                        0
                    },
                })
                &&& events.1 == (MirroredDonation {
                    founder: old(state).authority,
                    amount,
                    zakat_pool: old(state).zcw,
                })
            },
            Err(error) => {
                &&& *final(state) == *old(state)
                &&& *final(burn_record) == *old(burn_record)
                &&& spec_burn_check(*old(state), *old(burn_record), vault_balance, now, amount)
                    == Err::<(), EnginesError>(error)
            },
        },
{
    if amount == 0 {
        return Err(EnginesError::InvalidAmount);
    }
    if state.paused {
        return Err(EnginesError::Paused);
    }
    if burn_record.last_burn_timestamp > 0 {
        // now >= last + cooldown, phrased without overflowing.
        let cooled_down: bool = now >= BURN_COOLDOWN && now - BURN_COOLDOWN
            >= burn_record.last_burn_timestamp;
        if !cooled_down {
            return Err(EnginesError::WaitForCooldown);
        }
    }
    let available: u64 = available_excess(vault_balance, state.total_locked, state.reserve_for_donation);
    if available < amount {
        return Err(EnginesError::InsufficientMatchingTreasury);
    }
    if burn_record.total_burned > u64::MAX - amount {
        return Err(EnginesError::MathOverflow);
    }
    let mut badge_id: u64 = 0;
    if amount >= BURN_BADGE_THRESHOLD {
        if state.next_badge_id == u64::MAX {
            return Err(EnginesError::MathOverflow);
        }
        if burn_record.burn_badge_count == u64::MAX {
            return Err(EnginesError::MathOverflow);
        }
        badge_id = state.next_badge_id;
        state.next_badge_id = state.next_badge_id + 1;
        burn_record.burn_badge_count = burn_record.burn_badge_count + 1;
    }
    burn_record.owner = caller;
    burn_record.total_burned = burn_record.total_burned + amount;
    burn_record.last_burn_timestamp = now;
    Ok((
        BurnToGiveEvent { user: caller, amount, timestamp: now, badge_id },
        MirroredDonation { founder: state.authority, amount, zakat_pool: state.zcw },
    ))
}

/// The still-locked, matured positions among the first `n`, in reverse
/// discovery order (highest index first) — the order in which
/// `unlock_all_matured` processes them.
pub open spec fn spec_matured_indices_rev(
    cfg: EnginesState,
    locks: Seq<LockPosition>,
    now: u64,
    n: int,
) -> Seq<int>
    decreases n,
{
    if n <= 0 {
        Seq::empty()
    } else {
        let tail = spec_matured_indices_rev(cfg, locks, now, n - 1);
        if n - 1 < locks.len() && !locks[n - 1].unlocked && spec_is_matured(
            locks[n - 1].start,
            cfg.spec_duration(locks[n - 1].period),
            now,
        ) {
            seq![n - 1] + tail
        } else {
            tail
        }
    }
}

/// Run the per-lock unlock step over a list of indices, threading the lock
/// sequence and the counters, and collecting the emitted events. The first
/// failing step aborts the whole fold.
pub open spec fn spec_unlock_fold(
    cfg: EnginesState,
    locks: Seq<LockPosition>,
    totals: LedgerTotals,
    owner: AccountId,
    vault_balance: u64,
    now: u64,
    idxs: Seq<int>,
) -> Result<(Seq<LockPosition>, LedgerTotals, Seq<TokensUnlocked>), EnginesError>
    decreases idxs.len(),
{
    if idxs.len() == 0 {
        Ok((locks, totals, Seq::empty()))
    } else {
        match spec_unlock_step(cfg, locks, totals, owner, vault_balance, now, idxs[0]) {
            Err(e) => Err(e),
            Ok(step) => match spec_unlock_fold(
                cfg,
                step.0,
                step.1,
                owner,
                vault_balance,
                now,
                idxs.skip(1),
            ) {
                Err(e) => Err(e),
                Ok(rest) => Ok((rest.0, rest.1, seq![step.2] + rest.2)),
            },
        }
    }
}

/// Membership in a sequence is membership in its head or in its tail.
proof fn lemma_contains_head_or_tail(s: Seq<int>, x: int)
    requires
        s.len() > 0,
    ensures
        s.contains(x) <==> (s[0] == x || s.skip(1).contains(x)),
{
    if s.contains(x) {
        let k = choose|k: int| 0 <= k < s.len() && s[k] == x;
        if k > 0 {
            assert(s.skip(1)[k - 1] == x);
            assert(s.skip(1).contains(x));
        }
    }
    if s.skip(1).contains(x) {
        let k = choose|k: int| 0 <= k < s.skip(1).len() && s.skip(1)[k] == x;
        assert(s[k + 1] == x);
        assert(s.contains(x));
    }
}

/// The matured indices below `n` are exactly the in-range positions that
/// are still locked and have matured.
proof fn lemma_matured_indices_iff(cfg: EnginesState, locks: Seq<LockPosition>, now: u64, n: int)
    requires
        n <= locks.len(),
    ensures
        forall|j: int|
            #[trigger] spec_matured_indices_rev(cfg, locks, now, n).contains(j) <==> (0 <= j < n
                && !locks[j].unlocked && spec_is_matured(
                locks[j].start,
                cfg.spec_duration(locks[j].period),
                now,
            )),
    decreases n,
{
    let idxs = spec_matured_indices_rev(cfg, locks, now, n);
    if n <= 0 {
        assert forall|j: int| !idxs.contains(j) by {
            assert(idxs.len() == 0);
        }
    } else {
        lemma_matured_indices_iff(cfg, locks, now, n - 1);
        let tail = spec_matured_indices_rev(cfg, locks, now, n - 1);
        if !locks[n - 1].unlocked && spec_is_matured(
            locks[n - 1].start,
            cfg.spec_duration(locks[n - 1].period),
            now,
        ) {
            assert(idxs == seq![n - 1] + tail);
            assert forall|j: int| idxs.contains(j) == (j == n - 1 || tail.contains(j)) by {
                lemma_contains_head_or_tail(idxs, j);
                assert(idxs[0] == n - 1);
                assert(idxs.skip(1) =~= tail);
            }
        }
    }
}

/// A successful fold flips exactly the listed positions to unlocked and
/// leaves every other field of every position alone.
proof fn lemma_unlock_fold_marks(
    cfg: EnginesState,
    locks: Seq<LockPosition>,
    totals: LedgerTotals,
    owner: AccountId,
    vault_balance: u64,
    now: u64,
    idxs: Seq<int>,
)
    ensures
        match spec_unlock_fold(cfg, locks, totals, owner, vault_balance, now, idxs) {
            Ok(res) => {
                &&& res.0.len() == locks.len()
                &&& forall|j: int|
                    0 <= j < locks.len() ==> #[trigger] res.0[j] == (if idxs.contains(j) {
                        LockPosition { unlocked: true, ..locks[j] }
                    } else {
                        locks[j]
                    })
            },
            Err(_) => true,
        },
    decreases idxs.len(),
{
    if idxs.len() == 0 {
        assert forall|j: int| !idxs.contains(j) by {}
    } else {
        match spec_unlock_step(cfg, locks, totals, owner, vault_balance, now, idxs[0]) {
            Err(_) => {},
            Ok(step) => {
                lemma_unlock_fold_marks(cfg, step.0, step.1, owner, vault_balance, now, idxs.skip(1));
                match spec_unlock_fold(cfg, step.0, step.1, owner, vault_balance, now, idxs.skip(1)) {
                    Err(_) => {},
                    Ok(rest) => {
                        let i = idxs[0];
                        assert forall|j: int|
                            0 <= j < locks.len() implies #[trigger] rest.0[j] == (if idxs.contains(
                            j,
                        ) {
                            LockPosition { unlocked: true, ..locks[j] }
                        } else {
                            locks[j]
                        }) by {
                            lemma_contains_head_or_tail(idxs, j);
                            if j == i {
                                assert(step.0[j] == (LockPosition { unlocked: true, ..locks[i] }));
                                if idxs.skip(1).contains(j) {
                                    assert(rest.0[j] == (LockPosition {
                                        unlocked: true,
                                        ..step.0[j]
                                    }));
                                } else {
                                    assert(rest.0[j] == step.0[j]);
                                }
                            } else {
                                assert(step.0[j] == locks[j]);
                            }
                        }
                    },
                }
            },
        }
    }
}

/// The matured indices below `n` depend only on the entries below `n` and on
/// the period durations.
proof fn lemma_matured_indices_agree(
    cfg1: EnginesState,
    cfg2: EnginesState,
    l1: Seq<LockPosition>,
    l2: Seq<LockPosition>,
    now: u64,
    n: int,
)
    requires
        cfg1.period_durations == cfg2.period_durations,
        l1.len() == l2.len(),
        forall|j: int| 0 <= j < n ==> l1[j] == l2[j],
    ensures
        spec_matured_indices_rev(cfg1, l1, now, n) == spec_matured_indices_rev(cfg2, l2, now, n),
    decreases n,
{
    if n > 0 {
        lemma_matured_indices_agree(cfg1, cfg2, l1, l2, now, n - 1);
    }
}

/// The unlock step reads only rates, scale and durations from the
/// configuration record, so two records that agree on those agree on the
/// step.
proof fn lemma_unlock_step_same_config(
    cfg1: EnginesState,
    cfg2: EnginesState,
    locks: Seq<LockPosition>,
    totals: LedgerTotals,
    owner: AccountId,
    vault_balance: u64,
    now: u64,
    i: int,
)
    requires
        cfg1.donation_rates == cfg2.donation_rates,
        cfg1.scale == cfg2.scale,
        cfg1.period_durations == cfg2.period_durations,
    ensures
        spec_unlock_step(cfg1, locks, totals, owner, vault_balance, now, i) == spec_unlock_step(
            cfg2,
            locks,
            totals,
            owner,
            vault_balance,
            now,
            i,
        ),
{
}

/// A successful fold unlocks exactly one position and emits exactly one
/// event per index, and never changes the number of positions.
proof fn lemma_unlock_fold_shape(
    cfg: EnginesState,
    locks: Seq<LockPosition>,
    totals: LedgerTotals,
    owner: AccountId,
    vault_balance: u64,
    now: u64,
    idxs: Seq<int>,
)
    ensures
        match spec_unlock_fold(cfg, locks, totals, owner, vault_balance, now, idxs) {
            Ok(res) => res.2.len() == idxs.len() && res.0.len() == locks.len(),
            Err(_) => true,
        },
    decreases idxs.len(),
{
    if idxs.len() != 0 {
        match spec_unlock_step(cfg, locks, totals, owner, vault_balance, now, idxs[0]) {
            Err(_) => {},
            Ok(step) => {
                lemma_unlock_fold_shape(cfg, step.0, step.1, owner, vault_balance, now, idxs.skip(1));
            },
        }
    }
}

/// An element-for-element copy of a lock vector, for the rollback snapshot.
fn copy_locks(source: &Vec<LockPosition>) -> (copy: Vec<LockPosition>)
    ensures
        copy@ == source@,
{
    let mut copy: Vec<LockPosition> = Vec::new();
    let mut k: usize = 0;
    while k < source.len()
        invariant
            k <= source@.len(),
            copy@ == source@.take(k as int),
        decreases source@.len() - k,
    {
        copy.push(source[k]);
        proof {
            assert(source@.take(k as int).push(source@[k as int]) =~= source@.take(k + 1));
        }
        k = k + 1;
    }
    proof {
        assert(source@.take(source@.len() as int) =~= source@);
    }
    copy
}

/// Unlock every matured, still-locked position of the user, in reverse
/// discovery order. Fails with the maturity error when nothing is eligible;
/// any per-lock failure aborts the whole operation with no state change.
/// The final state does not depend on the processing order: the per-lock
/// accounting is additive.
#[verifier::loop_isolation(false)]
pub fn unlock_all_matured(
    state: &mut EnginesState,
    user: &mut UserLockData,
    vault_balance: u64,
    now: u64,
) -> (outcome: Result<(Vec<TokensUnlocked>, UnlockedAllMatured), EnginesError>)
    requires
        old(state).wf(),
        old(user).wf(),
    ensures
        final(state).wf(),
        final(user).wf(),
        spec_config_unchanged(*old(state), *final(state)),
        final(state).paused == old(state).paused,
        final(state).next_lock_id == old(state).next_lock_id,
        final(user).owner == old(user).owner,
        final(user).locks@.len() == old(user).locks@.len(),
        match outcome {
            Ok(out) => {
                &&& !old(state).paused
                &&& spec_matured_indices_rev(
                    *old(state),
                    old(user).locks@,
                    now,
                    old(user).locks@.len() as int,
                ).len() > 0
                &&& spec_unlock_fold(
                    *old(state),
                    old(user).locks@,
                    spec_totals(*old(state), *old(user)),
                    old(user).owner,
                    vault_balance,
                    now,
                    spec_matured_indices_rev(
                        *old(state),
                        old(user).locks@,
                        now,
                        old(user).locks@.len() as int,
                    ),
                ) == Ok::<_, EnginesError>((
                    final(user).locks@,
                    spec_totals(*final(state), *final(user)),
                    out.0@,
                ))
                &&& out.0@.len() == spec_matured_indices_rev(
                    *old(state),
                    old(user).locks@,
                    now,
                    old(user).locks@.len() as int,
                ).len()
                &&& out.1 == (UnlockedAllMatured {
                    user: old(user).owner,
                    unlocked_count: out.0@.len() as u32,
                })
                &&& forall|j: int|
                    0 <= j < old(user).locks@.len() ==> #[trigger] final(user).locks@[j] == (
                    if !old(user).locks@[j].unlocked && spec_is_matured(
                        old(user).locks@[j].start,
                        old(state).spec_duration(old(user).locks@[j].period),
                        now,
                    ) {
                        LockPosition { unlocked: true, ..old(user).locks@[j] }
                    } else {
                        old(user).locks@[j]
                    })
            },
            Err(error) => {
                &&& *final(state) == *old(state)
                &&& spec_user_unchanged(*old(user), *final(user))
                &&& if old(state).paused {
                    error == EnginesError::Paused
                } else if spec_matured_indices_rev(
                    *old(state),
                    old(user).locks@,
                    now,
                    old(user).locks@.len() as int,
                ).len() == 0 {
                    error == EnginesError::LockNotMatured
                } else {
                    spec_unlock_fold(
                        *old(state),
                        old(user).locks@,
                        spec_totals(*old(state), *old(user)),
                        old(user).owner,
                        vault_balance,
                        now,
                        spec_matured_indices_rev(
                            *old(state),
                            old(user).locks@,
                            now,
                            old(user).locks@.len() as int,
                        ),
                    ) == Err::<(Seq<LockPosition>, LedgerTotals, Seq<TokensUnlocked>), EnginesError>(
                        error,
                    )
                }
            },
        },
{
    if state.paused {
        return Err(EnginesError::Paused);
    }
    let ghost cfg0: EnginesState = *old(state);
    let ghost locks0: Seq<LockPosition> = old(user).locks@;
    let ghost totals0: LedgerTotals = spec_totals(*old(state), *old(user));
    let ghost owner0: AccountId = old(user).owner;
    let ghost idxs_full: Seq<int> = spec_matured_indices_rev(cfg0, locks0, now, locks0.len() as int);

    let locks_snapshot: Vec<LockPosition> = copy_locks(&user.locks);
    let saved_total_locked: u64 = state.total_locked;
    let saved_total_unlocked: u64 = state.total_unlocked;
    let saved_reserve: u64 = state.reserve_for_donation;
    let saved_next_badge_id: u64 = state.next_badge_id;
    let saved_total_donated: u64 = user.total_donated;
    let saved_htg_badge_count: u64 = user.htg_badge_count;

    let mut events: Vec<TokensUnlocked> = Vec::new();
    let mut i: usize = user.locks.len();
    proof {
        match spec_unlock_fold(cfg0, locks0, totals0, owner0, vault_balance, now, idxs_full) {
            Ok(res) => {
                assert(Seq::<TokensUnlocked>::empty() + res.2 =~= res.2);
            },
            Err(_) => {},
        }
    }
    while i > 0
        invariant
            i <= locks0.len(),
            user.locks@.len() == locks0.len(),
            user.owner == owner0,
            spec_config_unchanged(cfg0, *state),
            state.paused == cfg0.paused,
            state.next_lock_id == cfg0.next_lock_id,
            locks_snapshot@ == locks0,
            forall|j: int| 0 <= j < i ==> user.locks@[j] == locks0[j],
            ({
                let full = spec_unlock_fold(cfg0, locks0, totals0, owner0, vault_balance, now, idxs_full);
                let rem = spec_unlock_fold(
                    cfg0,
                    user.locks@,
                    spec_totals(*state, *user),
                    owner0,
                    vault_balance,
                    now,
                    spec_matured_indices_rev(cfg0, user.locks@, now, i as int),
                );
                match rem {
                    Ok(res) => full == Ok::<_, EnginesError>((res.0, res.1, events@ + res.2)),
                    Err(e) => full == Err::<(Seq<LockPosition>, LedgerTotals, Seq<TokensUnlocked>), EnginesError>(e),
                }
            }),
        decreases i,
    {
        let idx: usize = i - 1;
        let position = user.locks[idx];
        let position_eligible: bool = !position.unlocked && is_matured(
            position.start,
            position.period,
            &state.period_durations,
            now,
        );
        if position_eligible {
            let ghost pre_state: EnginesState = *state;
            let ghost pre_locks: Seq<LockPosition> = user.locks@;
            let ghost pre_totals: LedgerTotals = spec_totals(*state, *user);
            let ghost events_pre: Seq<TokensUnlocked> = events@;
            let ghost rest_idxs: Seq<int> = spec_matured_indices_rev(cfg0, pre_locks, now, idx as int);
            proof {
                lemma_unlock_step_same_config(
                    pre_state,
                    cfg0,
                    pre_locks,
                    pre_totals,
                    owner0,
                    vault_balance,
                    now,
                    idx as int,
                );
                assert(spec_matured_indices_rev(cfg0, pre_locks, now, i as int) == seq![idx as int]
                    + rest_idxs);
                assert((seq![idx as int] + rest_idxs)[0] == idx as int);
                assert((seq![idx as int] + rest_idxs).skip(1) =~= rest_idxs);
            }
            let step_outcome = unlock_by_index(state, user, vault_balance, now, idx);
            match step_outcome {
                Ok(event) => {
                    events.push(event);
                    proof {
                        lemma_matured_indices_agree(cfg0, cfg0, user.locks@, pre_locks, now, idx as int);
                        match spec_unlock_fold(
                            cfg0,
                            user.locks@,
                            spec_totals(*state, *user),
                            owner0,
                            vault_balance,
                            now,
                            rest_idxs,
                        ) {
                            Ok(rest) => {
                                assert(events_pre + (seq![event] + rest.2) =~= events_pre.push(event)
                                    + rest.2);
                            },
                            Err(_) => {},
                        }
                    }
                },
                Err(error) => {
                    user.locks = copy_locks(&locks_snapshot);
                    state.total_locked = saved_total_locked;
                    state.total_unlocked = saved_total_unlocked;
                    state.reserve_for_donation = saved_reserve;
                    state.next_badge_id = saved_next_badge_id;
                    user.total_donated = saved_total_donated;
                    user.htg_badge_count = saved_htg_badge_count;
                    proof {
                        assert(*state =~= *old(state));
                    }
                    return Err(error);
                },
            }
        }
        i = idx;
    }
    proof {
        lemma_unlock_fold_shape(cfg0, locks0, totals0, owner0, vault_balance, now, idxs_full);
        lemma_unlock_fold_marks(cfg0, locks0, totals0, owner0, vault_balance, now, idxs_full);
        lemma_matured_indices_iff(cfg0, locks0, now, locks0.len() as int);
        assert(events@ + Seq::<TokensUnlocked>::empty() =~= events@);
    }
    if events.len() == 0 {
        proof {
            assert(*state =~= *old(state));
        }
        return Err(EnginesError::LockNotMatured);
    }
    let count: u32 = events.len() as u32;
    let summary = UnlockedAllMatured { user: user.owner, unlocked_count: count };
    Ok((events, summary))
}

} // verus!
