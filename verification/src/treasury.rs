//! Treasury accounting: pure functions over the vault's current balance that
//! bound every reservation, match and withdrawal.

use vstd::prelude::*;

verus! {

/// Funds in the vault that are not owed to any depositor.
pub open spec fn spec_free_treasury(vault_balance: int, total_locked: int) -> int {
    if vault_balance > total_locked {
        vault_balance - total_locked
    } else {
        0
    }
}

/// Funds free to reserve, match or withdraw right now: the free treasury
/// minus what is already earmarked for pending matched donations.
pub open spec fn spec_available_excess(
    vault_balance: int,
    total_locked: int,
    reserve_for_donation: int,
) -> int {
    let after_locked = spec_free_treasury(vault_balance, total_locked);
    if after_locked > reserve_for_donation {
        after_locked - reserve_for_donation
    } else {
        0
    }
}

pub fn free_treasury(vault_balance: u64, total_locked: u64) -> (excess: u64)
    ensures
        excess as int == spec_free_treasury(vault_balance as int, total_locked as int),
{
    if vault_balance > total_locked {
        vault_balance - total_locked
    } else {
        0
    }
}

pub fn available_excess(vault_balance: u64, total_locked: u64, reserve_for_donation: u64) -> (excess:
    u64)
    ensures
        excess as int == spec_available_excess(
            vault_balance as int,
            total_locked as int,
            reserve_for_donation as int,
        ),
{
    let after_locked: u64 = if vault_balance > total_locked {
        vault_balance - total_locked
    } else {
        0
    };
    if after_locked > reserve_for_donation {
        after_locked - reserve_for_donation
    } else {
        0
    }
}

/// Law: the available excess never exceeds the free treasury, which never
/// exceeds the vault balance; and both are zero as soon as the locked total
/// covers the whole balance.
pub proof fn lemma_treasury_bounds(vault_balance: int, total_locked: int, reserve_for_donation: int)
    requires
        vault_balance >= 0,
        total_locked >= 0,
        reserve_for_donation >= 0,
    ensures
        spec_available_excess(vault_balance, total_locked, reserve_for_donation)
            <= spec_free_treasury(vault_balance, total_locked),
        spec_free_treasury(vault_balance, total_locked) <= vault_balance,
        total_locked >= vault_balance ==> spec_free_treasury(vault_balance, total_locked) == 0
            && spec_available_excess(vault_balance, total_locked, reserve_for_donation) == 0,
{
}

/// Law: a lock that passes the excess check keeps the reserve within the free
/// treasury. If the reserve was covered by the free treasury before the lock,
/// then after reserving `donation` and depositing `amount` into the vault the
/// enlarged reserve is still covered.
pub proof fn lemma_lock_preserves_reservation_bound(
    vault_balance: int,
    total_locked: int,
    reserve_for_donation: int,
    amount: int,
    donation: int,
)
    requires
        vault_balance >= 0,
        total_locked >= 0,
        reserve_for_donation >= 0,
        amount >= 0,
        donation >= 0,
        reserve_for_donation <= spec_free_treasury(vault_balance, total_locked),
        spec_available_excess(vault_balance, total_locked, reserve_for_donation) >= donation,
    ensures
        reserve_for_donation + donation
            <= spec_free_treasury(vault_balance + amount, total_locked + amount),
{
}

/// Law: an unlock keeps the reserve within the free treasury. The unlock
/// releases `donation` from the reserve when matched (`donation == 0`
/// stands for the unmatched case), pays out `amount + donation` from the
/// vault in all (the depositor's share, the base donation, and the match),
/// and removes `amount` from the locked total.
pub proof fn lemma_unlock_preserves_reservation_bound(
    vault_balance: int,
    total_locked: int,
    reserve_for_donation: int,
    amount: int,
    donation: int,
)
    requires
        vault_balance >= 0,
        total_locked >= amount >= donation >= 0,
        reserve_for_donation >= donation,
        reserve_for_donation <= spec_free_treasury(vault_balance, total_locked),
    ensures
        reserve_for_donation - donation <= spec_free_treasury(
            vault_balance - amount - donation,
            total_locked - amount,
        ),
{
}

/// Law: paying `amount` of the available excess out of the vault — a burn's
/// mirrored donation, or an excess withdrawal — keeps the reserve within
/// the free treasury.
pub proof fn lemma_outflow_preserves_reservation_bound(
    vault_balance: int,
    total_locked: int,
    reserve_for_donation: int,
    amount: int,
)
    requires
        vault_balance >= 0,
        total_locked >= 0,
        amount >= 0,
        reserve_for_donation >= 0,
        reserve_for_donation <= spec_free_treasury(vault_balance, total_locked),
        spec_available_excess(vault_balance, total_locked, reserve_for_donation) >= amount,
    ensures
        reserve_for_donation <= spec_free_treasury(vault_balance - amount, total_locked),
{
}

} // verus!
