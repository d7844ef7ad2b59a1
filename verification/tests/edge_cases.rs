use engines::engine::{
    initialize, lock_tokens, set_donation_rate, unlock_by_index, unlock_tokens, EnginesState,
};
use engines::lock_ledger::UserLockData;
use engines::types::{AccountId, EnginesError, Period};

fn edge_state() -> EnginesState {
    let (state, _) = initialize(
        AccountId { key: 1 },
        AccountId { key: 2 },
        AccountId { key: 3 },
        AccountId { key: 4 },
        "uri-30".to_string(),
        "uri-60".to_string(),
        "uri-180".to_string(),
        "uri-365".to_string(),
    );
    state
}

#[test]
fn locked_sum_tracks_total_locked_through_a_sequence() {
    // The aggregate equals the sum of the user's still-locked positions
    // after every lock and unlock.
    let mut state = edge_state();
    let caller = AccountId { key: 9 };
    let mut user = UserLockData::new(caller);
    lock_tokens(&mut state, &mut user, caller, 0, 0, 100, Period::D30).unwrap();
    lock_tokens(&mut state, &mut user, caller, 0, 0, 200, Period::D60).unwrap();
    lock_tokens(&mut state, &mut user, caller, 0, 0, 300, Period::D30).unwrap();
    let still_locked = |user: &UserLockData| -> u64 {
        user.locks.iter().filter(|p| !p.unlocked).map(|p| p.amount).sum()
    };
    assert_eq!(state.total_locked, 600);
    assert_eq!(still_locked(&user), 600);
    unlock_tokens(&mut state, &mut user, 600, 60, 3).unwrap();
    assert_eq!(state.total_locked, 300);
    assert_eq!(still_locked(&user), 300);
    unlock_tokens(&mut state, &mut user, 600, 60, 1).unwrap();
    assert_eq!(state.total_locked, 200);
    assert_eq!(still_locked(&user), 200);
    unlock_tokens(&mut state, &mut user, 600, 120, 2).unwrap();
    assert_eq!(state.total_locked, 0);
    assert_eq!(still_locked(&user), 0);
}

#[test]
fn unlock_by_index_on_unlocked_position_fails() {
    let mut state = edge_state();
    let caller = AccountId { key: 9 };
    let mut user = UserLockData::new(caller);
    lock_tokens(&mut state, &mut user, caller, 0, 0, 100, Period::D30).unwrap();
    unlock_by_index(&mut state, &mut user, 100, 60, 0).unwrap();
    let again = unlock_by_index(&mut state, &mut user, 100, 60, 0);
    assert_eq!(again.unwrap_err(), EnginesError::AlreadyUnlocked);
}

#[test]
fn unlock_by_index_out_of_range_fails() {
    let mut state = edge_state();
    let caller = AccountId { key: 9 };
    let mut user = UserLockData::new(caller);
    let outcome = unlock_by_index(&mut state, &mut user, 100, 60, 3);
    assert_eq!(outcome.unwrap_err(), EnginesError::BadLockId);
}

#[test]
fn donation_rate_above_scale_makes_unlock_overflow() {
    // With a rate of 20000 out of 10000 the donation would exceed the
    // amount, which the unlock reports as an arithmetic failure.
    let mut state = edge_state();
    let caller = AccountId { key: 9 };
    let mut user = UserLockData::new(caller);
    lock_tokens(&mut state, &mut user, caller, 0, 0, 100, Period::D30).unwrap();
    set_donation_rate(&mut state, AccountId { key: 1 }, Period::D30, 20000).unwrap();
    let outcome = unlock_tokens(&mut state, &mut user, 100, 60, 1);
    assert_eq!(outcome.unwrap_err(), EnginesError::MathOverflow);
    assert!(!user.locks[0].unlocked);
    assert_eq!(state.total_locked, 100);
}

#[test]
fn donation_too_wide_for_transfer_is_rejected() {
    // A huge locked amount at the maximal rate yields a donation beyond the
    // transfer-native width.
    let mut state = edge_state();
    let caller = AccountId { key: 9 };
    let mut user = UserLockData::new(caller);
    lock_tokens(&mut state, &mut user, caller, 0, 0, u64::MAX, Period::D30).unwrap();
    set_donation_rate(&mut state, AccountId { key: 1 }, Period::D30, u16::MAX).unwrap();
    let outcome = unlock_tokens(&mut state, &mut user, 0, 60, 1);
    assert_eq!(outcome.unwrap_err(), EnginesError::AmountTooLarge);
    assert!(!user.locks[0].unlocked);
}

#[test]
fn donation_split_rounds_down() {
    // 999 at 50 basis points of 10000 gives floor(999 * 50 / 10000) = 4.
    let mut state = edge_state();
    let caller = AccountId { key: 9 };
    let mut user = UserLockData::new(caller);
    lock_tokens(&mut state, &mut user, caller, 0, 0, 999, Period::D30).unwrap();
    let event = unlock_tokens(&mut state, &mut user, 999, 60, 1).unwrap();
    assert_eq!(event.donation_to_zcw, 4);
    assert_eq!(event.returned_to_user, 995);
}
