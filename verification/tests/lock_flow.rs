use engines::engine::{initialize, lock_tokens, EnginesState};
use engines::lock_ledger::UserLockData;
use engines::types::{AccountId, EnginesError, Period, MAX_LOCKS_PER_USER};

fn fresh_state() -> EnginesState {
    let (state, _) = initialize(
        AccountId { key: 1 },
        AccountId { key: 2 },
        AccountId { key: 3 },
        AccountId { key: 4 },
        "uri-30".to_string(),
        "uri-60".to_string(),
        "uri-180".to_string(),
        "uri-365".to_string(),
    );
    state
}

#[test]
fn initialize_sets_defaults() {
    let state = fresh_state();
    assert_eq!(state.total_locked, 0);
    assert_eq!(state.total_unlocked, 0);
    assert_eq!(state.next_badge_id, 1);
    assert_eq!(state.next_lock_id, 1);
    assert_eq!(state.reserve_for_donation, 0);
    assert!(!state.paused);
    assert_eq!(state.donation_rates, [50, 100, 150, 250]);
    assert_eq!(state.scale, 10000);
    assert_eq!(state.period_durations, [60, 120, 180, 240]);
    assert_eq!(state.milestone_uri(Period::D355), "uri-365");
}

#[test]
fn lock_short_period_reserves_nothing() {
    let mut state = fresh_state();
    let caller = AccountId { key: 9 };
    let mut user = UserLockData::new(caller);
    let event = lock_tokens(&mut state, &mut user, caller, 0, 1000, 500, Period::D30).unwrap();
    assert_eq!(event.lock_id, 1);
    assert_eq!(event.amount, 500);
    assert_eq!(event.timestamp, 1000);
    assert_eq!(state.total_locked, 500);
    assert_eq!(state.reserve_for_donation, 0);
    assert_eq!(state.next_lock_id, 2);
    assert_eq!(user.locks.len(), 1);
    assert_eq!(user.locks[0].amount, 500);
    assert!(!user.locks[0].unlocked);
}

#[test]
fn lock_longest_period_reserves_donation() {
    // Locking 1_000_000 at the longest period with rate 250 out of 10000
    // reserves exactly 25000 from the available excess.
    let mut state = fresh_state();
    let caller = AccountId { key: 9 };
    let mut user = UserLockData::new(caller);
    let event =
        lock_tokens(&mut state, &mut user, caller, 25_000, 50, 1_000_000, Period::D355).unwrap();
    assert_eq!(event.amount, 1_000_000);
    assert_eq!(state.reserve_for_donation, 25_000);
    assert_eq!(state.total_locked, 1_000_000);
}

#[test]
fn second_reservation_beyond_excess_fails_and_leaves_reserve() {
    let mut state = fresh_state();
    let caller = AccountId { key: 9 };
    let mut user = UserLockData::new(caller);
    lock_tokens(&mut state, &mut user, caller, 25_000, 50, 1_000_000, Period::D355).unwrap();
    // The deposit moved 1_000_000 into the vault; the whole remaining excess
    // is already reserved, so an equal second lock cannot be backed.
    let outcome =
        lock_tokens(&mut state, &mut user, caller, 1_025_000, 60, 1_000_000, Period::D355);
    assert_eq!(outcome.unwrap_err(), EnginesError::InsufficientMatchingTreasury);
    assert_eq!(state.reserve_for_donation, 25_000);
    assert_eq!(state.total_locked, 1_000_000);
    assert_eq!(user.locks.len(), 1);
}

#[test]
fn lock_zero_amount_rejected() {
    let mut state = fresh_state();
    let caller = AccountId { key: 9 };
    let mut user = UserLockData::new(caller);
    let outcome = lock_tokens(&mut state, &mut user, caller, 1000, 50, 0, Period::D30);
    assert_eq!(outcome.unwrap_err(), EnginesError::InvalidAmount);
}

#[test]
fn lock_capacity_is_fifty() {
    let mut state = fresh_state();
    let caller = AccountId { key: 9 };
    let mut user = UserLockData::new(caller);
    for step in 0..MAX_LOCKS_PER_USER - 1 {
        lock_tokens(&mut state, &mut user, caller, 0, step as u64, 10, Period::D30).unwrap();
    }
    // The 50th lock succeeds, the 51st fails with the capacity error.
    let fiftieth = lock_tokens(&mut state, &mut user, caller, 0, 100, 10, Period::D30);
    assert!(fiftieth.is_ok());
    assert_eq!(user.locks.len(), 50);
    let fifty_first = lock_tokens(&mut state, &mut user, caller, 0, 101, 10, Period::D30);
    assert_eq!(fifty_first.unwrap_err(), EnginesError::TooManyLocks);
    assert_eq!(user.locks.len(), 50);
}

#[test]
fn lock_ids_increase_from_one() {
    let mut state = fresh_state();
    let caller = AccountId { key: 9 };
    let mut user = UserLockData::new(caller);
    let first = lock_tokens(&mut state, &mut user, caller, 0, 10, 5, Period::D60).unwrap();
    let second = lock_tokens(&mut state, &mut user, caller, 0, 11, 6, Period::D60).unwrap();
    assert_eq!(first.lock_id, 1);
    assert_eq!(second.lock_id, 2);
    assert_eq!(user.locks[0].id, 1);
    assert_eq!(user.locks[1].id, 2);
}
