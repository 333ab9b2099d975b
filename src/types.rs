//! Units and constants shared by the engine.
use vstd::prelude::*;

verus! {

/// Timestamp in milliseconds.
pub type Timestamp = u64;

/// Time duration in milliseconds.
pub type Duration = u64;

/// A fraction in units of 1/10000.
pub type BasisPoint = u32;

/// An amount of a token in its smallest unit.
pub type Balance = u128;

pub const FULL_BASIS_POINT: u32 = 10000;

/// One whole principal-asset token (24 decimals).
pub const ONE_NEAR: u128 = 1_000_000_000_000_000_000_000_000;

/// One whole claim token (24 decimals).
pub const ONE_PNEAR: u128 = ONE_NEAR;

/// The fixed-point scale of exchange rates.
pub const PRICE_SCALE: u128 = ONE_NEAR;

/// The smallest bond, in principal units.
pub const MINIMUM_BOND_AMOUNT: u128 = ONE_NEAR / 10;

/// The storage deposit that each bond carries besides its principal.
pub const BOND_STORAGE_DEPOSIT: u128 = ONE_NEAR / 100;

/// The smallest bond paid in the staked asset.
pub const MINIMUM_BOND_LINEAR_AMOUNT: u128 = ONE_NEAR / 10 + ONE_NEAR / 100;

/// One tera-unit of execution budget.
pub const TGAS: u64 = 1_000_000_000_000;

pub const GAS_BOND: u64 = 20 * TGAS;
pub const GAS_BOND_CALLBACK: u64 = 50 * TGAS;
pub const GAS_DEPOSIT_AND_STAKE: u64 = 50 * TGAS;
pub const GAS_GET_LINEAR_PRICE: u64 = 20 * TGAS;
pub const GAS_FT_TRANSFER: u64 = 50 * TGAS;
pub const GAS_FT_TRANSFER_CALLBACK: u64 = 30 * TGAS;
pub const GAS_FT_TRANSFER_AND_CALLBACK: u64 = GAS_FT_TRANSFER + GAS_FT_TRANSFER_CALLBACK;
pub const GAS_CANCEL: u64 = 20 * TGAS;
pub const GAS_CANCEL_CALLBACK: u64 = 40 * TGAS + GAS_FT_TRANSFER_AND_CALLBACK;
pub const GAS_COMMIT: u64 = 20 * TGAS;
pub const GAS_COMMIT_CALLBACK: u64 = 50 * TGAS;
pub const GAS_REDEEM: u64 = 20 * TGAS;
pub const GAS_REDEEM_CALLBACK: u64 = 40 * TGAS + GAS_FT_TRANSFER_AND_CALLBACK;
pub const GAS_CLAIM: u64 = 20 * TGAS;
pub const GAS_WITHDRAW: u64 = 20 * TGAS;
pub const GAS_WITHDRAW_CALLBACK: u64 = 40 * TGAS + GAS_FT_TRANSFER_AND_CALLBACK;
pub const GAS_LINEAR_BOND_CALLBACK: u64 = 50 * TGAS;
pub const GAS_FT_ON_TRANSFER: u64 = 20 * TGAS + GAS_GET_LINEAR_PRICE + GAS_LINEAR_BOND_CALLBACK;

/// `value * point / 10000`, rounded down.
pub fn apply_basis_point(value: u128, point: u32) -> (r: u128)
    requires
        point <= FULL_BASIS_POINT,
    ensures
        r == value * point / 10000,
        r <= value,
{
    let q = value / 10000;
    let rem = value % 10000;
    proof {
        assert(q * point <= value) by (nonlinear_arith)
            requires
                q == value / 10000,
                point <= 10000,
                value >= 0,
        ;
        assert(rem * point <= 100_000_000) by (nonlinear_arith)
            requires
                rem < 10000,
                point <= 10000,
                rem >= 0,
        ;
        let r2 = rem * point;
        vstd::arithmetic::div_mod::lemma_fundamental_div_mod(r2, 10000);
        assert(value * point == 10000 * (q * point + r2 / 10000) + r2 % 10000) by (nonlinear_arith)
            requires
                value == 10000 * q + rem,
                r2 == rem * point,
                r2 == 10000 * (r2 / 10000) + r2 % 10000,
        ;
        vstd::arithmetic::div_mod::lemma_fundamental_div_mod_converse(
            value * point,
            10000,
            q * point + r2 / 10000,
            r2 % 10000,
        );
        assert(value * point / 10000 <= value) by (nonlinear_arith)
            requires
                point <= 10000,
                value >= 0,
                point >= 0,
        ;
    }
    q * (point as u128) + rem * (point as u128) / 10000
}

} // verus!
