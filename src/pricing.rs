//! Conversions between the principal, staked and claim assets at a
//! fixed-point exchange rate, and the accrual curve.
use crate::types::{Balance, Duration, PRICE_SCALE};
use crate::wide::{div_round, mul_div_round, mul_div_round_spec};
use vstd::arithmetic::div_mod::{lemma_fundamental_div_mod, lemma_fundamental_div_mod_converse};
use vstd::prelude::*;

verus! {

/// `a * b / c` rounded to the nearest integer, where `c` is not zero and the
/// result fits in `u128`.
pub open spec fn scaled(a: int, b: int, c: int) -> Option<int> {
    if c == 0 || mul_div_round_spec(a, b, c) > u128::MAX {
        None
    } else {
        Some(mul_div_round_spec(a, b, c))
    }
}

/// `a * b / c` rounded, where `c` is not zero and the result fits.
pub fn scale_by(a: u128, b: u128, c: u128) -> (r: Option<u128>)
    ensures
        r is Some <==> scaled(a as int, b as int, c as int) is Some,
        r is Some ==> r->0 == scaled(a as int, b as int, c as int)->0,
{
    if c == 0 {
        None
    } else {
        mul_div_round(a, b, c)
    }
}

/// Staked-asset amount worth `near_amount` of principal at `linear_price`
/// (principal per staked unit, scaled by 10^24).
pub fn near2linear(near_amount: Balance, linear_price: Balance) -> (r: Option<Balance>)
    ensures
        r is Some <==> scaled(near_amount as int, PRICE_SCALE as int, linear_price as int) is Some,
        r is Some ==> r->0 == scaled(
            near_amount as int,
            PRICE_SCALE as int,
            linear_price as int,
        )->0,
{
    scale_by(near_amount, PRICE_SCALE, linear_price)
}

/// Principal worth `linear_amount` of the staked asset at `linear_price`.
pub fn linear2near(linear_amount: Balance, linear_price: Balance) -> (r: Option<Balance>)
    ensures
        r is Some <==> scaled(linear_amount as int, linear_price as int, PRICE_SCALE as int) is Some,
        r is Some ==> r->0 == scaled(
            linear_amount as int,
            linear_price as int,
            PRICE_SCALE as int,
        )->0,
{
    scale_by(linear_amount, linear_price, PRICE_SCALE)
}

/// Principal worth `pnear_amount` claim tokens at `pnear_price`.
pub fn pnear2near(pnear_amount: Balance, pnear_price: Balance) -> (r: Option<Balance>)
    ensures
        r is Some <==> scaled(pnear_amount as int, pnear_price as int, PRICE_SCALE as int) is Some,
        r is Some ==> r->0 == scaled(
            pnear_amount as int,
            pnear_price as int,
            PRICE_SCALE as int,
        )->0,
{
    scale_by(pnear_amount, pnear_price, PRICE_SCALE)
}

/// Claim tokens worth `near_amount` of principal at `pnear_price`.
pub fn near2pnear(near_amount: Balance, pnear_price: Balance) -> (r: Option<Balance>)
    ensures
        r is Some <==> scaled(near_amount as int, PRICE_SCALE as int, pnear_price as int) is Some,
        r is Some ==> r->0 == scaled(
            near_amount as int,
            PRICE_SCALE as int,
            pnear_price as int,
        )->0,
{
    scale_by(near_amount, PRICE_SCALE, pnear_price)
}

/// The share of `value` vested at age `length` with parameter `alpha`:
/// `value * length / (length + alpha)`, rounded.
pub open spec fn accrued_spec(value: int, length: int, alpha: int) -> int {
    mul_div_round_spec(value, length, length + alpha)
}

/// A rounded quotient is the floor of `(2n + d) / 2d`.
proof fn lemma_div_round_floor(n: int, d: int)
    requires
        n >= 0,
        d > 0,
    ensures
        div_round(n, d) == (2 * n + d) / (2 * d),
{
    lemma_fundamental_div_mod(n, d);
    let q = n / d;
    let r = n % d;
    if 2 * r >= d {
        assert(2 * n + d == (2 * d) * (q + 1) + (2 * r - d)) by (nonlinear_arith)
            requires
                n == d * q + r,
        ;
        lemma_fundamental_div_mod_converse(2 * n + d, 2 * d, q + 1, 2 * r - d);
    } else {
        assert(2 * n + d == (2 * d) * q + (2 * r + d)) by (nonlinear_arith)
            requires
                n == d * q + r,
        ;
        lemma_fundamental_div_mod_converse(2 * n + d, 2 * d, q, 2 * r + d);
    }
}

/// Floor division respects `num1 / den1 <= num2 / den2` as fractions.
proof fn lemma_floor_monotone(num1: int, den1: int, num2: int, den2: int)
    requires
        num1 >= 0,
        num2 >= 0,
        den1 > 0,
        den2 > 0,
        num1 * den2 <= num2 * den1,
    ensures
        num1 / den1 <= num2 / den2,
{
    lemma_fundamental_div_mod(num1, den1);
    lemma_fundamental_div_mod(num2, den2);
    let f1 = num1 / den1;
    let f2 = num2 / den2;
    vstd::arithmetic::div_mod::lemma_mod_pos_bound(num1, den1);
    vstd::arithmetic::div_mod::lemma_mod_pos_bound(num2, den2);
    assert(f1 * den1 <= num1) by (nonlinear_arith)
        requires
            num1 == den1 * f1 + num1 % den1,
            num1 % den1 >= 0,
    ;
    assert(f1 * den1 * den2 <= num2 * den1) by (nonlinear_arith)
        requires
            f1 * den1 <= num1,
            num1 * den2 <= num2 * den1,
            den2 > 0,
    ;
    assert(f1 * den2 <= num2) by (nonlinear_arith)
        requires
            f1 * den1 * den2 <= num2 * den1,
            den1 > 0,
    ;
    assert(f1 < f2 + 1) by (nonlinear_arith)
        requires
            f1 * den2 <= num2,
            num2 == den2 * f2 + num2 % den2,
            num2 % den2 < den2,
            den2 > 0,
    ;
}

/// The vested share never exceeds `value`.
proof fn lemma_accrued_at_most_value(value: int, length: int, alpha: int)
    requires
        value >= 0,
        length >= 0,
        alpha >= 0,
        length + alpha > 0,
    ensures
        0 <= accrued_spec(value, length, alpha) <= value,
{
    let d = length + alpha;
    lemma_div_round_floor(value * length, d);
    assert(value * length >= 0) by (nonlinear_arith)
        requires
            value >= 0,
            length >= 0,
    ;
    assert((2 * (value * length) + d) * 2 <= (2 * value + 1) * (2 * d)) by (nonlinear_arith)
        requires
            d == length + alpha,
            value >= 0,
            alpha >= 0,
            length >= 0,
    ;
    lemma_floor_monotone(2 * (value * length) + d, 2 * d, 2 * value + 1, 2);
    assert((2 * value + 1) / 2 == value);
    vstd::arithmetic::div_mod::lemma_div_pos_is_pos(2 * (value * length) + d, 2 * d);
}

/// At age 0 nothing has vested.
pub proof fn lemma_accrued_zero_age(value: int, alpha: int)
    requires
        value >= 0,
        alpha > 0,
    ensures
        accrued_spec(value, 0, alpha) == 0,
{
    assert(value * 0 == 0);
    lemma_div_round_floor(0, alpha);
}

/// At age `alpha` half of `value` has vested, rounded up.
pub proof fn lemma_accrued_at_alpha(value: int, alpha: int)
    requires
        value >= 0,
        alpha > 0,
    ensures
        accrued_spec(value, alpha, alpha) == (value + 1) / 2,
        0 <= 2 * accrued_spec(value, alpha, alpha) - value <= 1,
{
    lemma_div_round_floor(value * alpha, alpha + alpha);
    let h = (value + 1) / 2;
    let e = (value + 1) % 2;
    lemma_fundamental_div_mod(value + 1, 2);
    assert(2 * (value * alpha) + (alpha + alpha) == (2 * (alpha + alpha)) * h + 2 * alpha * e)
        by (nonlinear_arith)
        requires
            value + 1 == 2 * h + e,
    ;
    assert(0 <= 2 * alpha * e < 2 * (alpha + alpha)) by (nonlinear_arith)
        requires
            0 <= e < 2,
            alpha > 0,
    ;
    lemma_fundamental_div_mod_converse(
        2 * (value * alpha) + (alpha + alpha),
        2 * (alpha + alpha),
        h,
        2 * alpha * e,
    );
}

/// For a fixed alpha, the vested share never decreases with age.
pub proof fn lemma_accrued_monotone(value: int, l1: int, l2: int, alpha: int)
    requires
        value >= 0,
        alpha > 0,
        0 <= l1 <= l2,
    ensures
        accrued_spec(value, l1, alpha) <= accrued_spec(value, l2, alpha),
{
    let d1 = l1 + alpha;
    let d2 = l2 + alpha;
    let n1 = value * l1;
    let n2 = value * l2;
    assert(n1 >= 0 && n2 >= 0) by (nonlinear_arith)
        requires
            value >= 0,
            l1 >= 0,
            l2 >= 0,
            n1 == value * l1,
            n2 == value * l2,
    ;
    lemma_div_round_floor(n1, d1);
    lemma_div_round_floor(n2, d2);
    assert(n1 * d2 <= n2 * d1) by (nonlinear_arith)
        requires
            n1 == value * l1,
            n2 == value * l2,
            d1 == l1 + alpha,
            d2 == l2 + alpha,
            value >= 0,
            alpha > 0,
            l1 <= l2,
    ;
    assert((2 * n1 + d1) * (2 * d2) <= (2 * n2 + d2) * (2 * d1)) by (nonlinear_arith)
        requires
            n1 * d2 <= n2 * d1,
    ;
    lemma_floor_monotone(2 * n1 + d1, 2 * d1, 2 * n2 + d2, 2 * d2);
}

/// The vested share of `value` at age `length` under `alpha`; `None` only
/// where both are 0.
pub fn accrued_value(value: Balance, length: Duration, alpha: Duration) -> (r: Option<Balance>)
    ensures
        r is Some <==> length + alpha > 0,
        r is Some ==> r->0 == accrued_spec(value as int, length as int, alpha as int),
{
    if length == 0 && alpha == 0 {
        return None;
    }
    proof {
        lemma_accrued_at_most_value(value as int, length as int, alpha as int);
    }
    mul_div_round(value, length as u128, length as u128 + alpha as u128)
}

} // verus!
