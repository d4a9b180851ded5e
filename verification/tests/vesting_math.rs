use presale_vesting::vesting::calculate_vested_amount;

#[test]
fn nothing_vests_before_start() {
    assert_eq!(calculate_vested_amount(1000, 100, 1000, 100, 99), 0);
}

#[test]
fn vesting_steps_by_whole_intervals() {
    // 10 intervals of 100 seconds: at start nothing, after 250 seconds two
    // intervals have passed, so a fifth of the entitlement.
    assert_eq!(calculate_vested_amount(1000, 100, 1000, 100, 100), 0);
    assert_eq!(calculate_vested_amount(1000, 100, 1000, 100, 199), 0);
    assert_eq!(calculate_vested_amount(1000, 100, 1000, 100, 200), 100);
    assert_eq!(calculate_vested_amount(1000, 100, 1000, 100, 350), 200);
}

#[test]
fn vesting_floors_partial_amounts() {
    // 3 intervals, 10 tokens: one interval vests floor(10/3) = 3.
    assert_eq!(calculate_vested_amount(10, 0, 300, 100, 100), 3);
    assert_eq!(calculate_vested_amount(10, 0, 300, 100, 200), 6);
    assert_eq!(calculate_vested_amount(10, 0, 300, 100, 300), 10);
}

#[test]
fn vesting_saturates_at_entitlement() {
    assert_eq!(calculate_vested_amount(1000, 100, 1000, 100, 1_000_000), 1000);
    assert_eq!(calculate_vested_amount(u64::MAX, 0, 10, 1, 1_000_000), u64::MAX);
}

#[test]
fn degenerate_schedules_vest_nothing() {
    assert_eq!(calculate_vested_amount(1000, 100, 0, 100, 500), 0);
    assert_eq!(calculate_vested_amount(1000, 100, 1000, 0, 500), 0);
    assert_eq!(calculate_vested_amount(1000, 100, -1000, 100, 500), 0);
    assert_eq!(calculate_vested_amount(1000, 100, 1000, -100, 500), 0);
    // A period shorter than one interval has no whole interval to vest.
    assert_eq!(calculate_vested_amount(1000, 100, 50, 100, 500), 0);
}

#[test]
fn vesting_is_monotone_in_time() {
    let mut previous: u64 = 0;
    for step in 0..40i64 {
        let now: i64 = 100 + step * 37;
        let vested = calculate_vested_amount(12_345, 100, 1000, 100, now);
        assert!(vested >= previous);
        assert!(vested <= 12_345);
        previous = vested;
    }
}

#[test]
fn negative_timestamps_are_plain_seconds() {
    // Times before the epoch behave like any other instants.
    assert_eq!(calculate_vested_amount(1000, -1000, 1000, 100, -500), 500);
    assert_eq!(calculate_vested_amount(1000, -1000, 1000, 100, -1001), 0);
}
