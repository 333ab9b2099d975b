use phoenix_bonds::accrual::{AccrualConfig, AccrualParameter};
use phoenix_bonds::errors::AccrualError;
use phoenix_bonds::legacy::AccrualParameterV1_0_0;
use phoenix_bonds::types::ONE_NEAR;
use phoenix_bonds::weighted_mean::WeightedMeanLength;

const ONE_DAY_MS: u64 = 24 * 3600 * 1000;
const HALF_DAY_MS: u64 = 12 * 3600 * 1000;
const INIT_ALPHA: u64 = 3 * ONE_DAY_MS;

fn prepare_accrual_param() -> AccrualParameter {
    AccrualParameter::new(INIT_ALPHA, 0, 15 * ONE_DAY_MS, ONE_DAY_MS, 100)
}

#[test]
fn test_accrual_param_basic() {
    let mut accrual = prepare_accrual_param();
    accrual.weighted_mean_insert(100 * ONE_NEAR, 0).unwrap();

    assert_eq!(accrual.current_alpha(ONE_DAY_MS), Ok(INIT_ALPHA));
    assert_eq!(accrual.current_alpha(14 * ONE_DAY_MS), Ok(INIT_ALPHA));
    assert_eq!(accrual.current_alpha(15 * ONE_DAY_MS), Ok(INIT_ALPHA));
    assert_eq!(accrual.current_alpha(16 * ONE_DAY_MS), Ok(INIT_ALPHA * 99 / 100));

    let ts = 18 * ONE_DAY_MS;
    assert_eq!(accrual.current_alpha(ts), Ok(251501500));
    // a second 100 at day 18 takes the mean to 9 days
    accrual.weighted_mean_insert(100 * ONE_NEAR, ts).unwrap();

    assert_eq!(accrual.current_alpha(19 * ONE_DAY_MS), Ok(251501500));

    let ts = 20 * ONE_DAY_MS;
    assert_eq!(accrual.current_alpha(ts), Ok(251501500));
    // removing the second 100 takes the mean to 20 days
    accrual.weighted_mean_remove(100 * ONE_NEAR, 2 * ONE_DAY_MS, ts).unwrap();
    assert_eq!(accrual.current_alpha(ts), Ok(251501500));

    assert_eq!(accrual.current_alpha(21 * ONE_DAY_MS), Ok(251501500 * 99 / 100));
}

#[test]
fn accrual_test_alpha_when_mean_length_below_target() {
    let mut accrual = prepare_accrual_param();
    accrual.weighted_mean_insert(100 * ONE_NEAR, 0).unwrap();

    let ts = 14 * ONE_DAY_MS;
    assert_eq!(accrual.current_alpha(ts), Ok(INIT_ALPHA));
    accrual.weighted_mean_insert(100 * ONE_NEAR, ts).unwrap();
    assert_eq!(accrual.current_alpha(ts), Ok(INIT_ALPHA));

    let ts = 22 * ONE_DAY_MS;
    assert_eq!(accrual.current_alpha(ts), Ok(INIT_ALPHA));
    accrual.weighted_mean_remove(100 * ONE_NEAR, 22 * ONE_DAY_MS, ts).unwrap();
    assert_eq!(accrual.current_alpha(ts), Ok(INIT_ALPHA));

    assert_eq!(accrual.current_alpha(29 * ONE_DAY_MS), Ok(INIT_ALPHA));
}

#[test]
fn accrual_test_alpha_when_mean_length_above_target() {
    let mut accrual = prepare_accrual_param();
    accrual.weighted_mean_insert(100 * ONE_NEAR, 0).unwrap();

    assert_eq!(accrual.current_alpha(16 * ONE_DAY_MS), Ok(99 * INIT_ALPHA / 100));

    let ts = 17 * ONE_DAY_MS + HALF_DAY_MS;
    assert_eq!(accrual.current_alpha(ts), Ok(254041920));
    accrual.weighted_mean_insert(ONE_NEAR, ts).unwrap();
    accrual.weighted_mean_insert(ONE_NEAR, ts).unwrap();
    assert_eq!(accrual.current_alpha(ts), Ok(254041920));

    let ts = 20 * ONE_DAY_MS + HALF_DAY_MS;
    assert_eq!(accrual.current_alpha(ts), Ok(246496620));
    accrual.weighted_mean_remove(ONE_NEAR, 3 * ONE_DAY_MS, ts).unwrap();
    assert_eq!(accrual.current_alpha(ts), Ok(246496620));

    assert_eq!(accrual.current_alpha(21 * ONE_DAY_MS + HALF_DAY_MS), Ok(244031653));

    // the insertions at day 17.5 left the mean at about 17.33 days, so the
    // crossing was back-dated to about day 15.17: 24 intervals by day 40
    let ts = 40 * ONE_DAY_MS;
    assert_eq!(accrual.current_alpha(ts), Ok(203647764));
    // removing the first 100 does not change alpha
    accrual.weighted_mean_remove(100 * ONE_NEAR, 40 * ONE_DAY_MS, ts).unwrap();
    assert_eq!(accrual.current_alpha(ts), Ok(203647764));

    assert_eq!(accrual.current_alpha(41 * ONE_DAY_MS), Ok(201611286));
}

#[test]
fn accrual_test_alpha_when_mean_length_increased_above_target() {
    let mut accrual = prepare_accrual_param();
    accrual.weighted_mean_insert(100 * ONE_NEAR, 0).unwrap();
    accrual.weighted_mean_insert(100 * ONE_NEAR, 14 * ONE_DAY_MS).unwrap();

    let ts = 16 * ONE_DAY_MS;
    accrual.weighted_mean_remove(100 * ONE_NEAR, 2 * ONE_DAY_MS, ts).unwrap();
    assert_eq!(accrual.current_alpha(ts), Ok(INIT_ALPHA));

    // the target was exceeded at day 16
    assert_eq!(accrual.current_alpha(17 * ONE_DAY_MS), Ok(99 * INIT_ALPHA / 100));
}

#[test]
fn accrual_test_alpha_when_mean_length_decreased_below_target() {
    let mut accrual = prepare_accrual_param();
    accrual.weighted_mean_insert(100 * ONE_NEAR, 0).unwrap();
    accrual.weighted_mean_insert(ONE_NEAR, 12 * ONE_DAY_MS).unwrap();

    let ts = 20 * ONE_DAY_MS + HALF_DAY_MS;
    assert_eq!(accrual.current_alpha(ts), Ok(246496620));
    accrual.weighted_mean_remove(100 * ONE_NEAR, 20 * ONE_DAY_MS + HALF_DAY_MS, ts).unwrap();

    // frozen at the value of day 20.5, when the mean fell below the target
    assert_eq!(accrual.current_alpha(23 * ONE_DAY_MS), Ok(246496620));
}

#[test]
fn controller_scenario_one_day_past_target() {
    let mut accrual = prepare_accrual_param();
    accrual.weighted_mean_insert(100, 0).unwrap();
    assert_eq!(accrual.current_alpha(16 * ONE_DAY_MS), Ok(INIT_ALPHA * 99 / 100));
    assert_eq!(accrual.current_alpha(15 * ONE_DAY_MS), Ok(INIT_ALPHA));
}

#[test]
fn alpha_never_below_floor() {
    let min_alpha = 2 * ONE_DAY_MS;
    let mut accrual = AccrualParameter::new(INIT_ALPHA, min_alpha, 15 * ONE_DAY_MS, ONE_DAY_MS, 5000);
    accrual.weighted_mean_insert(100, 0).unwrap();
    for day in [15u64, 16, 17, 20, 100, 10_000] {
        let a = accrual.current_alpha(day * ONE_DAY_MS).unwrap();
        assert!(a >= min_alpha);
    }
    assert_eq!(accrual.current_alpha(100 * ONE_DAY_MS), Ok(min_alpha));
}

#[test]
fn alpha_decay_without_rate_stays() {
    let mut accrual = AccrualParameter::new(INIT_ALPHA, 1, ONE_DAY_MS, 1, 0);
    accrual.weighted_mean_insert(100, 0).unwrap();
    assert_eq!(accrual.current_alpha(1000 * ONE_DAY_MS), Ok(INIT_ALPHA));
}

#[test]
fn crossing_down_freezes_alpha() {
    let mut accrual = prepare_accrual_param();
    accrual.weighted_mean_insert(100, 0).unwrap();
    let ts = 18 * ONE_DAY_MS;
    let before = accrual.current_alpha(ts).unwrap();
    assert_eq!(before, 251501500);
    // a large young bond takes the mean far below the target
    accrual.weighted_mean_insert(10_000, ts).unwrap();
    assert_eq!(accrual.alpha, before);
    assert_eq!(accrual.exceeds_target_at, 0);
    assert_eq!(accrual.current_alpha(ts), Ok(before));
    assert_eq!(accrual.current_alpha(ts), Ok(before));
    assert_eq!(accrual.current_alpha(ts + 5 * ONE_DAY_MS), Ok(before));
}

#[test]
fn alpha_before_last_update_is_bad_timestamp() {
    let mut accrual = prepare_accrual_param();
    accrual.weighted_mean_insert(100, 10).unwrap();
    assert_eq!(accrual.current_alpha(9), Err(AccrualError::BadTimestamp));
    assert_eq!(accrual.weighted_mean_remove(100, 0, 9), Err(AccrualError::BadTimestamp));
}

#[test]
fn accrual_config_validation() {
    let good = AccrualConfig {
        alpha: 10,
        min_alpha: 5,
        target_mean_length: 100,
        adjust_interval: 10,
        adjust_rate: 100,
    };
    assert_eq!(good.assert_valid(), Ok(()));
    let zero_min = AccrualConfig { min_alpha: 0, ..good };
    assert_eq!(zero_min.assert_valid(), Err(AccrualError::InvalidConfig));
    let low_alpha = AccrualConfig { alpha: 4, ..good };
    assert_eq!(low_alpha.assert_valid(), Err(AccrualError::InvalidConfig));
    let full_rate = AccrualConfig { adjust_rate: 10000, ..good };
    assert_eq!(full_rate.assert_valid(), Err(AccrualError::InvalidConfig));
    let no_interval = AccrualConfig { adjust_interval: 0, ..good };
    assert_eq!(no_interval.assert_valid(), Err(AccrualError::InvalidConfig));
    let no_target = AccrualConfig { target_mean_length: 0, ..good };
    assert_eq!(no_target.assert_valid(), Err(AccrualError::InvalidConfig));
}

#[test]
fn migration_starts_untracked() {
    let mut mean_length = WeightedMeanLength::new();
    mean_length.insert(100, 0).unwrap();
    let old = AccrualParameterV1_0_0 {
        alpha: INIT_ALPHA,
        min_alpha: 0,
        target_mean_length: 15 * ONE_DAY_MS,
        adjust_interval: ONE_DAY_MS,
        adjust_rate: 100,
        last_updated_at: 7 * ONE_DAY_MS,
        mean_length,
    };
    let p = AccrualParameter::from(old);
    assert_eq!(p.exceeds_target_at, 0);
    assert_eq!(p.alpha, INIT_ALPHA);
    // decay counts from the mean age's excess over the target
    assert_eq!(p.current_alpha(16 * ONE_DAY_MS), Ok(INIT_ALPHA * 99 / 100));
}

#[test]
fn insert_back_dates_crossing_from_new_mean() {
    let mut accrual = prepare_accrual_param();
    accrual.weighted_mean_insert(100, 0).unwrap();
    // at day 40 the mean is 40 days; 10 more at age 0 bring it to 400/11 days
    let ts = 40 * ONE_DAY_MS;
    accrual.weighted_mean_insert(10, ts).unwrap();
    let new_mean = accrual.mean_length.mean(ts).unwrap();
    assert_eq!(new_mean, (40 * ONE_DAY_MS * 100 + 55) / 110);
    assert_eq!(accrual.exceeds_target_at, ts - (new_mean - 15 * ONE_DAY_MS));
}

#[test]
fn removal_lifting_mean_exactly_to_target_starts_tracking() {
    let mut accrual = prepare_accrual_param();
    accrual.weighted_mean_insert(100, 0).unwrap();
    accrual.weighted_mean_insert(100, 2 * ONE_DAY_MS).unwrap();
    // at day 15 the mean is 14 days; removing the bond of age 13 days lifts
    // it to exactly 15 days
    let ts = 15 * ONE_DAY_MS;
    assert_eq!(accrual.mean_length.mean(ts), Ok(14 * ONE_DAY_MS));
    accrual.weighted_mean_remove(100, 13 * ONE_DAY_MS, ts).unwrap();
    assert_eq!(accrual.mean_length.mean(ts), Ok(15 * ONE_DAY_MS));
    assert_eq!(accrual.exceeds_target_at, ts);
    assert_eq!(accrual.current_alpha(16 * ONE_DAY_MS), Ok(INIT_ALPHA * 99 / 100));
}
