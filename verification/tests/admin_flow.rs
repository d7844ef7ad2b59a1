use engines::burn_ledger::UserBurnData;
use engines::engine::{
    burn_to_give, initialize, lock_tokens, set_donation_rate, set_paused, set_zcw,
    unlock_all_matured, unlock_tokens, withdraw_excess, EnginesState,
};
use engines::lock_ledger::UserLockData;
use engines::types::{AccountId, EnginesError, Period};

fn authority() -> AccountId {
    AccountId { key: 1 }
}

fn state_for_admin() -> EnginesState {
    let (state, _) = initialize(
        authority(),
        AccountId { key: 2 },
        AccountId { key: 3 },
        AccountId { key: 4 },
        "uri-30".to_string(),
        "uri-60".to_string(),
        "uri-180".to_string(),
        "uri-365".to_string(),
    );
    state
}

#[test]
fn set_zcw_requires_authority() {
    let mut state = state_for_admin();
    let outcome = set_zcw(&mut state, AccountId { key: 99 }, AccountId { key: 5 });
    assert_eq!(outcome.unwrap_err(), EnginesError::Unauthorized);
    assert_eq!(state.zcw, AccountId { key: 3 });
    let event = set_zcw(&mut state, authority(), AccountId { key: 5 }).unwrap();
    assert_eq!(event.old_wallet, AccountId { key: 3 });
    assert_eq!(event.new_wallet, AccountId { key: 5 });
    assert_eq!(state.zcw, AccountId { key: 5 });
}

#[test]
fn set_donation_rate_changes_one_period() {
    let mut state = state_for_admin();
    let event = set_donation_rate(&mut state, authority(), Period::D180, 900).unwrap();
    assert_eq!(event.old_rate, 150);
    assert_eq!(event.new_rate, 900);
    assert_eq!(state.donation_rates, [50, 100, 900, 250]);
    let refused = set_donation_rate(&mut state, AccountId { key: 99 }, Period::D30, 1);
    assert_eq!(refused.unwrap_err(), EnginesError::Unauthorized);
    assert_eq!(state.donation_rates, [50, 100, 900, 250]);
}

#[test]
fn withdraw_excess_is_bounded_by_available() {
    let state = state_for_admin();
    assert!(withdraw_excess(&state, authority(), 1000, 1000, AccountId { key: 8 }).is_ok());
    let too_much = withdraw_excess(&state, authority(), 1000, 1001, AccountId { key: 8 });
    assert_eq!(too_much.unwrap_err(), EnginesError::InsufficientMatchingTreasury);
    let refused = withdraw_excess(&state, AccountId { key: 99 }, 1000, 1, AccountId { key: 8 });
    assert_eq!(refused.unwrap_err(), EnginesError::Unauthorized);
}

#[test]
fn paused_blocks_every_guarded_operation() {
    let mut state = state_for_admin();
    let caller = AccountId { key: 9 };
    let mut user = UserLockData::new(caller);
    let mut record = UserBurnData::new(caller);
    lock_tokens(&mut state, &mut user, caller, 0, 0, 100, Period::D30).unwrap();
    set_paused(&mut state, authority(), true).unwrap();
    assert!(state.paused);
    let lock_refused = lock_tokens(&mut state, &mut user, caller, 0, 10, 100, Period::D30);
    assert_eq!(lock_refused.unwrap_err(), EnginesError::Paused);
    let unlock_refused = unlock_tokens(&mut state, &mut user, 100, 60, 1);
    assert_eq!(unlock_refused.unwrap_err(), EnginesError::Paused);
    let unlock_all_refused = unlock_all_matured(&mut state, &mut user, 100, 60);
    assert_eq!(unlock_all_refused.unwrap_err(), EnginesError::Paused);
    let burn_refused = burn_to_give(&mut state, &mut record, caller, 1000, 60, 10);
    assert_eq!(burn_refused.unwrap_err(), EnginesError::Paused);
    // Unpausing re-enables the same operations at once.
    set_paused(&mut state, authority(), false).unwrap();
    assert!(unlock_tokens(&mut state, &mut user, 100, 60, 1).is_ok());
    assert!(burn_to_give(&mut state, &mut record, caller, 1000, 60, 10).is_ok());
}

#[test]
fn pause_toggle_changes_nothing_else() {
    let mut state = state_for_admin();
    let caller = AccountId { key: 9 };
    let mut user = UserLockData::new(caller);
    lock_tokens(&mut state, &mut user, caller, 100, 5, 100, Period::D180).unwrap();
    let locked = state.total_locked;
    let reserve = state.reserve_for_donation;
    let next_lock = state.next_lock_id;
    let next_badge = state.next_badge_id;
    let zcw = state.zcw;
    set_paused(&mut state, authority(), true).unwrap();
    set_paused(&mut state, authority(), false).unwrap();
    assert_eq!(state.total_locked, locked);
    assert_eq!(state.reserve_for_donation, reserve);
    assert_eq!(state.next_lock_id, next_lock);
    assert_eq!(state.next_badge_id, next_badge);
    assert_eq!(state.zcw, zcw);
    assert!(!state.paused);
}

#[test]
fn set_paused_requires_authority() {
    let mut state = state_for_admin();
    let outcome = set_paused(&mut state, AccountId { key: 99 }, true);
    assert_eq!(outcome.unwrap_err(), EnginesError::Unauthorized);
    assert!(!state.paused);
}
