use engines::burn_ledger::UserBurnData;
use engines::engine::{burn_to_give, initialize, EnginesState};
use engines::types::{AccountId, EnginesError, BURN_BADGE_THRESHOLD, BURN_COOLDOWN};

fn state_for_burn() -> EnginesState {
    let (state, _) = initialize(
        AccountId { key: 1 },
        AccountId { key: 2 },
        AccountId { key: 3 },
        AccountId { key: 4 },
        "uri-30".to_string(),
        "uri-60".to_string(),
        "uri-180".to_string(),
        "uri-365".to_string(),
    );
    state
}

#[test]
fn burn_within_cooldown_fails_then_succeeds_after() {
    let mut state = state_for_burn();
    let caller = AccountId { key: 9 };
    let mut record = UserBurnData::new(caller);
    burn_to_give(&mut state, &mut record, caller, 10_000, 1000, 100).unwrap();
    assert_eq!(record.last_burn_timestamp, 1000);
    // A second burn 7199 units later is still inside the 7200-unit cooldown.
    let too_soon = burn_to_give(&mut state, &mut record, caller, 10_000, 1000 + BURN_COOLDOWN - 1, 100);
    assert_eq!(too_soon.unwrap_err(), EnginesError::WaitForCooldown);
    assert_eq!(record.last_burn_timestamp, 1000);
    assert_eq!(record.total_burned, 100);
    // Exactly 7200 units later it succeeds and resets the cooldown clock.
    let on_time = burn_to_give(&mut state, &mut record, caller, 10_000, 1000 + BURN_COOLDOWN, 100);
    assert!(on_time.is_ok());
    assert_eq!(record.last_burn_timestamp, 1000 + BURN_COOLDOWN);
    assert_eq!(record.total_burned, 200);
}

#[test]
fn burn_mirrors_donation_one_to_one() {
    let mut state = state_for_burn();
    let caller = AccountId { key: 9 };
    let mut record = UserBurnData::new(caller);
    let (burn_event, mirror) = burn_to_give(&mut state, &mut record, caller, 5000, 50, 400).unwrap();
    assert_eq!(burn_event.amount, 400);
    assert_eq!(mirror.amount, 400);
    assert_eq!(mirror.zakat_pool, AccountId { key: 3 });
}

#[test]
fn burn_beyond_available_excess_fails() {
    let mut state = state_for_burn();
    let caller = AccountId { key: 9 };
    let mut record = UserBurnData::new(caller);
    let outcome = burn_to_give(&mut state, &mut record, caller, 300, 50, 400);
    assert_eq!(outcome.unwrap_err(), EnginesError::InsufficientMatchingTreasury);
    assert_eq!(record.total_burned, 0);
    assert_eq!(record.last_burn_timestamp, 0);
}

#[test]
fn burn_at_threshold_earns_badge() {
    let mut state = state_for_burn();
    let caller = AccountId { key: 9 };
    let mut record = UserBurnData::new(caller);
    let (burn_event, _) =
        burn_to_give(&mut state, &mut record, caller, 50_000, 50, BURN_BADGE_THRESHOLD).unwrap();
    assert_eq!(burn_event.badge_id, 1);
    assert_eq!(record.burn_badge_count, 1);
    assert_eq!(state.next_badge_id, 2);
}

#[test]
fn burn_below_threshold_earns_no_badge() {
    let mut state = state_for_burn();
    let caller = AccountId { key: 9 };
    let mut record = UserBurnData::new(caller);
    let (burn_event, _) =
        burn_to_give(&mut state, &mut record, caller, 50_000, 50, BURN_BADGE_THRESHOLD - 1).unwrap();
    assert_eq!(burn_event.badge_id, 0);
    assert_eq!(record.burn_badge_count, 0);
    assert_eq!(state.next_badge_id, 1);
}

#[test]
fn burn_zero_amount_rejected() {
    let mut state = state_for_burn();
    let caller = AccountId { key: 9 };
    let mut record = UserBurnData::new(caller);
    let outcome = burn_to_give(&mut state, &mut record, caller, 1000, 50, 0);
    assert_eq!(outcome.unwrap_err(), EnginesError::InvalidAmount);
}
