use phoenix_bonds::accrual::AccrualParameter;
use phoenix_bonds::bond_note::{BondNote, BondNotes};
use phoenix_bonds::contract::PhoenixBonds;
use phoenix_bonds::errors::BondError;
use phoenix_bonds::lost_found::LostAndFound;
use phoenix_bonds::pricing::{accrued_value, linear2near, near2linear, near2pnear, pnear2near};
use phoenix_bonds::types::{apply_basis_point, Balance, BasisPoint, Duration, ONE_NEAR, ONE_PNEAR};
use phoenix_bonds::wide::{div_floor, mul_div_round, wide_mul, Wide};

const ONE_DAY_MS: u64 = 24 * 3600 * 1000;
const ONE_LINEAR: Balance = ONE_NEAR;

/// A protocol with the given pools, alpha and tau.
fn new_contract(
    linear_balance: Balance,
    pending_pool_near_amount: Balance,
    permanent_pool_near_amount: Balance,
    treasury_pool_near_amount: Balance,
    alpha: Duration,
    tau: BasisPoint,
) -> PhoenixBonds {
    PhoenixBonds {
        owner_id: "foo".to_string(),
        linear_address: "bar".to_string(),
        paused: false,
        linear_balance,
        pending_pool_near_amount,
        permanent_pool_near_amount,
        treasury_pool_near_amount,
        tau,
        linear_lost_and_found: LostAndFound::new(),
        bond_notes: BondNotes::new(),
        bootstrap_ends_at: 1,
        accrual_param: AccrualParameter::new(alpha, 1, 15 * ONE_DAY_MS, ONE_DAY_MS, 100),
    }
}

fn new_note(bond_amount: Balance, created_at: u64) -> BondNote {
    BondNote::new(0, "foo".to_string(), bond_amount, created_at)
}

#[test]
fn test_reserve_pool_near_amount() {
    let contract = new_contract(
        1_000_000 * ONE_LINEAR,
        900_000 * ONE_NEAR,
        30_000 * ONE_NEAR,
        10_000 * ONE_NEAR,
        0,
        0,
    );
    let linear_price = 6 * ONE_NEAR / 5;
    assert_eq!(contract.reserve_pool_near_amount(linear_price), Some(260_000 * ONE_NEAR));
}

#[test]
fn test_pnear_price() {
    let contract = new_contract(
        1_000_000 * ONE_LINEAR,
        900_000 * ONE_NEAR,
        30_000 * ONE_NEAR,
        10_000 * ONE_NEAR,
        0,
        0,
    );
    let linear_price = 6 * ONE_NEAR / 5;
    // one unit while no claim token exists
    assert_eq!(contract.pnear_price(linear_price, 0), Some(ONE_NEAR));
    assert_eq!(contract.pnear_price(linear_price, 130_000 * ONE_PNEAR), Some(2 * ONE_NEAR));
}

#[test]
fn test_accrued_amount() {
    let alpha = 30 * ONE_DAY_MS;
    let contract = new_contract(0, 0, 0, 0, alpha, 0);
    assert_eq!(contract.accrued_amount(ONE_PNEAR, 0, 0), Ok(0));
    assert_eq!(contract.accrued_amount(ONE_PNEAR, ONE_DAY_MS, 0), Ok(32258064516129032258065));
    assert_eq!(
        contract.accrued_amount(ONE_PNEAR, 15 * ONE_DAY_MS, 0),
        Ok(333333333333333333333333)
    );
    assert_eq!(contract.accrued_amount(ONE_PNEAR, 30 * ONE_DAY_MS, 0), Ok(ONE_PNEAR / 2));
    assert_eq!(
        contract.accrued_amount(ONE_PNEAR, 60 * ONE_DAY_MS, 0),
        Ok(666666666666666666666667)
    );
}

#[test]
fn test_note_cap() {
    let contract = new_contract(
        1_000_000 * ONE_LINEAR,
        900_000 * ONE_NEAR,
        30_000 * ONE_NEAR,
        10_000 * ONE_NEAR,
        0,
        0,
    );
    let supply = 60_000 * ONE_PNEAR;
    let note = new_note(1000 * ONE_NEAR, ONE_DAY_MS);
    // the claim-token price is 1
    assert_eq!(contract.note_cap(&note, ONE_NEAR, supply), Some(note.bond_amount()));
    // the claim-token price is 4.33
    assert_eq!(
        contract.note_cap(&note, 6 * ONE_NEAR / 5, supply),
        Some(230769230769230769230769249)
    );
}

#[test]
fn test_note_accrued_pnear() {
    let contract = new_contract(
        1_000_000 * ONE_LINEAR,
        900_000 * ONE_NEAR,
        30_000 * ONE_NEAR,
        10_000 * ONE_NEAR,
        30 * ONE_DAY_MS,
        0,
    );
    let supply = 60_000 * ONE_PNEAR;
    let note = new_note(1000 * ONE_NEAR, ONE_DAY_MS);
    assert_eq!(
        contract.note_accrued_pnear(&note, ONE_NEAR, supply, 11 * ONE_DAY_MS),
        Ok(250 * ONE_PNEAR)
    );
    assert_eq!(
        contract.note_accrued_pnear(&note, 6 * ONE_NEAR / 5, supply, 30 * ONE_DAY_MS),
        Ok(113428943937418513689700139)
    );
}

#[test]
fn note_accrued_before_creation_is_bad_timestamp() {
    let contract = new_contract(0, 0, 0, 0, 30 * ONE_DAY_MS, 0);
    let note = new_note(1000 * ONE_NEAR, ONE_DAY_MS);
    assert_eq!(
        contract.note_accrued_pnear(&note, ONE_NEAR, 0, ONE_DAY_MS - 1),
        Err(BondError::BadTimestamp)
    );
}

#[test]
fn note_cap_net_of_tau() {
    // tau of 10% at a claim-token price of 1
    let contract = new_contract(0, 0, 0, 0, 1, 1000);
    let note = new_note(1000 * ONE_NEAR, 0);
    assert_eq!(contract.note_cap(&note, ONE_NEAR, 0), Some(900 * ONE_NEAR));
}

#[test]
fn accrued_curve_at_zero_and_alpha() {
    assert_eq!(accrued_value(1001, 0, 7), Some(0));
    assert_eq!(accrued_value(1000, 7, 7), Some(500));
    // half of an odd value rounds up
    assert_eq!(accrued_value(1001, 7, 7), Some(501));
    assert_eq!(accrued_value(5, 0, 0), None);
}

#[test]
fn accrued_curve_is_monotone_in_age() {
    let value = 123_456_789 * ONE_NEAR;
    let alpha = 30 * ONE_DAY_MS;
    let mut last = 0;
    for days in [0u64, 1, 2, 5, 10, 30, 60, 365, 10_000] {
        let a = accrued_value(value, days * ONE_DAY_MS, alpha).unwrap();
        assert!(a >= last);
        assert!(a <= value);
        last = a;
    }
}

#[test]
fn conversions_at_a_price() {
    let price = 6 * ONE_NEAR / 5;
    assert_eq!(linear2near(100 * ONE_NEAR, price), Some(120 * ONE_NEAR));
    assert_eq!(near2linear(120 * ONE_NEAR, price), Some(100 * ONE_NEAR));
    assert_eq!(pnear2near(3 * ONE_NEAR, 2 * ONE_NEAR), Some(6 * ONE_NEAR));
    assert_eq!(near2pnear(6 * ONE_NEAR, 2 * ONE_NEAR), Some(3 * ONE_NEAR));
    // 1 / 3 rounds down, 2 / 3 rounds up
    assert_eq!(near2linear(1, 3 * ONE_NEAR), Some(0));
    assert_eq!(near2linear(2, 3 * ONE_NEAR), Some(1));
    // no price, or a result beyond 128 bits
    assert_eq!(near2linear(1, 0), None);
    assert_eq!(near2pnear(u128::MAX, 1), None);
}

#[test]
fn wide_product_and_division() {
    let p = wide_mul(u128::MAX, u128::MAX);
    assert_eq!(p, Wide { hi: u128::MAX - 1, lo: 1 });
    assert_eq!(div_floor(&p, u128::MAX), (u128::MAX, 0));
    let q = wide_mul(1 << 100, 1 << 100);
    assert_eq!(q, Wide { hi: 1 << 72, lo: 0 });
    assert_eq!(div_floor(&q, 1 << 100), (1 << 100, 0));
    assert_eq!(div_floor(&Wide { hi: 1, lo: 5 }, 3), (u128::MAX / 3 + 2, 0));
    assert_eq!(div_floor(&Wide { hi: 0, lo: 7 }, 2), (3, 1));
    assert_eq!(mul_div_round(10, 10, 4), Some(25));
    assert_eq!(mul_div_round(10, 10, 8), Some(13));
    assert_eq!(mul_div_round(10, 10, 16), Some(6));
    assert_eq!(mul_div_round(u128::MAX, 2, 2), Some(u128::MAX));
    assert_eq!(mul_div_round(u128::MAX, 2, 1), None);
}

#[test]
fn basis_points() {
    assert_eq!(apply_basis_point(1000, 10000), 1000);
    assert_eq!(apply_basis_point(1000, 9900), 990);
    assert_eq!(apply_basis_point(999, 5), 0);
    assert_eq!(apply_basis_point(u128::MAX, 10000), u128::MAX);
    assert_eq!(apply_basis_point(259200000, 9900), 256608000);
}
