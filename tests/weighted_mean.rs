use phoenix_bonds::errors::AccrualError;
use phoenix_bonds::types::ONE_NEAR;
use phoenix_bonds::weighted_mean::WeightedMeanLength;

const ONE_DAY_MS: u64 = 24 * 3600 * 1000;

fn run_weighted_mean_length_scenario() {
    let mut va = WeightedMeanLength::new();

    // day 1: two bonds of 1000 and 2000
    let ts = ONE_DAY_MS;
    va.insert(1000 * ONE_NEAR, ts).unwrap();
    va.insert(2000 * ONE_NEAR, ts).unwrap();
    assert_eq!(va.mean(ts), Ok(0));

    // day 2: mean is one day; a bond of 1000 brings it to 3/4 day
    let ts = 2 * ONE_DAY_MS;
    assert_eq!(va.mean(ts), Ok(ONE_DAY_MS));
    va.insert(1000 * ONE_NEAR, ts).unwrap();
    assert_eq!(va.mean(ts), Ok(3 * ONE_DAY_MS / 4));

    // day 6
    let ts = 6 * ONE_DAY_MS;
    assert_eq!(va.mean(ts), Ok(19 * ONE_DAY_MS / 4));
    va.insert(2000 * ONE_NEAR, ts).unwrap();
    assert_eq!(va.mean(ts), Ok(19 * ONE_DAY_MS / 6));

    // day 11: 2000 of age 10 days leave
    let ts = 11 * ONE_DAY_MS;
    assert_eq!(va.mean(ts), Ok(49 * ONE_DAY_MS / 6));
    va.remove(2000 * ONE_NEAR, 10 * ONE_DAY_MS, ts).unwrap();
    assert_eq!(va.mean(ts), Ok(29 * ONE_DAY_MS / 4));

    // day 16: 1000 of age 15 days leave
    let ts = 16 * ONE_DAY_MS;
    assert_eq!(va.mean(ts), Ok(49 * ONE_DAY_MS / 4));
    va.remove(1000 * ONE_NEAR, 15 * ONE_DAY_MS, ts).unwrap();
    assert_eq!(va.mean(ts), Ok(34 * ONE_DAY_MS / 3));

    // day 21
    let ts = 21 * ONE_DAY_MS;
    assert_eq!(va.mean(ts), Ok(49 * ONE_DAY_MS / 3));
}

#[test]
fn accrual_test_weighted_mean_length() {
    run_weighted_mean_length_scenario();
}

#[test]
fn weighted_mean_length_test_weighted_mean_length() {
    run_weighted_mean_length_scenario();
}

#[test]
fn mean_scenario_same_day_inserts() {
    let mut va = WeightedMeanLength::new();
    va.insert(1000, ONE_DAY_MS).unwrap();
    va.insert(2000, ONE_DAY_MS).unwrap();
    assert_eq!(va.mean(ONE_DAY_MS), Ok(0));
    assert_eq!(va.mean(2 * ONE_DAY_MS), Ok(ONE_DAY_MS));
    va.insert(1000, 2 * ONE_DAY_MS).unwrap();
    assert_eq!(va.mean(2 * ONE_DAY_MS), Ok(3 * ONE_DAY_MS / 4));
}

#[test]
fn mean_is_zero_without_weight() {
    let va = WeightedMeanLength::new();
    assert_eq!(va.mean(0), Ok(0));
    assert_eq!(va.mean(1_000_000), Ok(0));
}

#[test]
fn mean_grows_with_time_for_fixed_weights() {
    let mut va = WeightedMeanLength::new();
    va.insert(5, 10).unwrap();
    va.insert(7, 40).unwrap();
    let mut last = va.mean(40).unwrap();
    for ts in [41u64, 50, 1000, 1_000_000] {
        let m = va.mean(ts).unwrap();
        assert!(m >= last);
        last = m;
    }
}

#[test]
fn mean_rounds_to_nearest() {
    let mut va = WeightedMeanLength::new();
    // weighted sum 2 * 3 over a weight of 4 is 1.5, rounded up to 2
    va.insert(2, 0).unwrap();
    va.insert(2, 3).unwrap();
    assert_eq!(va.mean(3), Ok(2));
    let mut vb = WeightedMeanLength::new();
    vb.insert(3, 0).unwrap();
    vb.insert(1, 1).unwrap();
    // 3 * 1 / 4 = 0.75 rounds to 1
    assert_eq!(vb.mean(1), Ok(1));
}

#[test]
fn mean_before_last_update_is_bad_timestamp() {
    let mut va = WeightedMeanLength::new();
    va.insert(10, 100).unwrap();
    assert_eq!(va.mean(99), Err(AccrualError::BadTimestamp));
    assert_eq!(va.insert(10, 50), Err(AccrualError::BadTimestamp));
    assert_eq!(va.mean(100), Ok(0));
}

#[test]
fn remove_more_than_held_is_underflow() {
    let mut va = WeightedMeanLength::new();
    va.insert(10, 0).unwrap();
    assert_eq!(va.remove(11, 0, 5), Err(AccrualError::Underflow));
    // an age longer than the whole weighted sum allows
    assert_eq!(va.remove(10, 6, 5), Err(AccrualError::Underflow));
    assert_eq!(va.mean(5), Ok(5));
    va.remove(10, 5, 5).unwrap();
    assert_eq!(va.mean(5), Ok(0));
}

#[test]
fn insert_overflowing_weight_fails() {
    let mut va = WeightedMeanLength::new();
    va.insert(u128::MAX, 0).unwrap();
    assert_eq!(va.insert(1, 0), Err(AccrualError::Overflow));
}
