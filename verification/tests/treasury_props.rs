use engines::treasury::{available_excess, free_treasury};

#[test]
fn free_treasury_positive_excess() {
    assert_eq!(free_treasury(1000, 400), 600);
}

#[test]
fn free_treasury_zero_when_locked_covers_balance() {
    assert_eq!(free_treasury(400, 400), 0);
    assert_eq!(free_treasury(300, 400), 0);
}

#[test]
fn available_excess_subtracts_reserve() {
    assert_eq!(available_excess(1000, 400, 100), 500);
}

#[test]
fn available_excess_zero_when_reserve_covers_excess() {
    assert_eq!(available_excess(1000, 400, 600), 0);
    assert_eq!(available_excess(1000, 400, 700), 0);
}

#[test]
fn excess_is_bounded_by_free_treasury_and_balance() {
    let samples: Vec<(u64, u64, u64)> = vec![
        (0, 0, 0),
        (1000, 0, 0),
        (1000, 400, 100),
        (1000, 1000, 5),
        (1000, 2000, 0),
        (u64::MAX, 1, 1),
        (7, 3, 3),
    ];
    for (balance, locked, reserve) in samples {
        let free = free_treasury(balance, locked);
        let avail = available_excess(balance, locked, reserve);
        assert!(avail <= free);
        assert!(free <= balance);
        if locked >= balance {
            assert_eq!(free, 0);
            assert_eq!(avail, 0);
        }
    }
}
