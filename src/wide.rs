//! Unsigned integers of 256 bits, wide enough to hold the product of two
//! `u128` values, and the rounded division that the pricing formulas need.
use vstd::arithmetic::power2::*;
use vstd::prelude::*;

verus! {

/// 2^64.
pub open spec fn base64() -> int {
    0x1_0000_0000_0000_0000
}

/// 2^128.
pub open spec fn base128() -> int {
    base64() * base64()
}

/// `n / d` rounded to the nearest integer, halves rounded up.
pub open spec fn div_round(n: int, d: int) -> int
    recommends
        n >= 0,
        d > 0,
{
    n / d + if 2 * (n % d) >= d {
        1int
    } else {
        0int
    }
}

/// `a * b / c` rounded to the nearest integer, halves rounded up.
pub open spec fn mul_div_round_spec(a: int, b: int, c: int) -> int {
    div_round(a * b, c)
}

/// A 256-bit unsigned integer: `hi * 2^128 + lo`.
#[derive(Clone, Copy, Debug, PartialEq, Eq)]
pub struct Wide {
    pub hi: u128,
    pub lo: u128,
}

impl Wide {
    pub open spec fn value(&self) -> int {
        self.hi * base128() + self.lo
    }

    pub fn from_u128(x: u128) -> (r: Wide)
        ensures
            r.value() == x,
    {
        Wide { hi: 0, lo: x }
    }

    /// `self <= other`.
    pub fn le(&self, other: &Wide) -> (r: bool)
        ensures
            r == (self.value() <= other.value()),
    {
        let ghost xh: int = self.hi as int;
        let ghost xl: int = self.lo as int;
        let ghost yh: int = other.hi as int;
        let ghost yl: int = other.lo as int;
        proof {
            if xh < yh {
                assert(xh * base128() + xl < yh * base128() + yl) by (nonlinear_arith)
                    requires
                        xh < yh,
                        0 <= xl < base128(),
                        0 <= yl,
                ;
            } else if xh > yh {
                assert(xh * base128() + xl > yh * base128() + yl) by (nonlinear_arith)
                    requires
                        xh > yh,
                        0 <= yl < base128(),
                        0 <= xl,
                ;
            }
        }
        self.hi < other.hi || (self.hi == other.hi && self.lo <= other.lo)
    }

    /// `self - other`, for `other <= self`.
    pub fn sub(&self, other: &Wide) -> (r: Wide)
        requires
            other.value() <= self.value(),
        ensures
            r.value() == self.value() - other.value(),
    {
        let ghost xh: int = self.hi as int;
        let ghost xl: int = self.lo as int;
        let ghost yh: int = other.hi as int;
        let ghost yl: int = other.lo as int;
        if self.lo >= other.lo {
            proof {
                assert(yh <= xh) by (nonlinear_arith)
                    requires
                        yh * base128() + yl <= xh * base128() + xl,
                        0 <= xl < base128(),
                        0 <= yl,
                ;
                assert((xh - yh) * base128() + (xl - yl) == xh * base128() + xl - (yh
                    * base128() + yl)) by (nonlinear_arith);
            }
            Wide { hi: self.hi - other.hi, lo: self.lo - other.lo }
        } else {
            proof {
                assert(yh < xh) by (nonlinear_arith)
                    requires
                        yh * base128() + yl <= xh * base128() + xl,
                        0 <= xl < yl < base128(),
                ;
                assert((xh - yh - 1) * base128() + (base128() - yl + xl) == xh * base128() + xl
                    - (yh * base128() + yl)) by (nonlinear_arith);
            }
            Wide { hi: self.hi - other.hi - 1, lo: (u128::MAX - other.lo) + self.lo + 1 }
        }
    }
}

/// The full product `a * b`.
pub fn wide_mul(a: u128, b: u128) -> (r: Wide)
    ensures
        r.value() == a * b,
{
    let a1 = a / 0x1_0000_0000_0000_0000;
    let a0 = a % 0x1_0000_0000_0000_0000;
    let b1 = b / 0x1_0000_0000_0000_0000;
    let b0 = b % 0x1_0000_0000_0000_0000;
    proof {
        assert(a1 < base64() && b1 < base64());
        assert(a0 * b0 < base128()) by (nonlinear_arith)
            requires
                0 <= a0 < base64(),
                0 <= b0 < base64(),
        ;
        assert(a0 * b1 < base128()) by (nonlinear_arith)
            requires
                0 <= a0 < base64(),
                0 <= b1 < base64(),
        ;
        assert(a1 * b0 < base128()) by (nonlinear_arith)
            requires
                0 <= a1 < base64(),
                0 <= b0 < base64(),
        ;
        assert(a1 * b1 < base128()) by (nonlinear_arith)
            requires
                0 <= a1 < base64(),
                0 <= b1 < base64(),
        ;
    }
    let p00 = a0 * b0;
    let p01 = a0 * b1;
    let p10 = a1 * b0;
    let p11 = a1 * b1;
    // the middle products, split into the parts below and above 2^64
    let mid_lo = p01 % 0x1_0000_0000_0000_0000 + p10 % 0x1_0000_0000_0000_0000;
    let mid_hi = p01 / 0x1_0000_0000_0000_0000 + p10 / 0x1_0000_0000_0000_0000;
    let c = mid_lo / 0x1_0000_0000_0000_0000;
    let m = mid_lo % 0x1_0000_0000_0000_0000;
    let t = m * 0x1_0000_0000_0000_0000;
    let (lo, carry) = if p00 > u128::MAX - t {
        (p00 - (u128::MAX - t) - 1, 1u128)
    } else {
        (t + p00, 0u128)
    };
    proof {
        let (ia, ib) = (a as int, b as int);
        assert(ia == a1 * base64() + a0);
        assert(ib == b1 * base64() + b0);
        assert(ia * ib == p11 * base128() + (p01 + p10) * base64() + p00) by (nonlinear_arith)
            requires
                ia == a1 * base64() + a0,
                ib == b1 * base64() + b0,
                p00 == a0 * b0,
                p01 == a0 * b1,
                p10 == a1 * b0,
                p11 == a1 * b1,
                base128() == base64() * base64(),
        ;
        assert(p01 + p10 == mid_hi * base64() + mid_lo);
        assert(mid_lo == c * base64() + m);
        assert(t + p00 == carry * base128() + lo);
        assert(ia * ib == (p11 + mid_hi + c + carry) * base128() + lo) by (nonlinear_arith)
            requires
                ia * ib == p11 * base128() + (p01 + p10) * base64() + p00,
                p01 + p10 == mid_hi * base64() + mid_lo,
                mid_lo == c * base64() + m,
                t == m * base64(),
                t + p00 == carry * base128() + lo,
                base128() == base64() * base64(),
        ;
        assert(ia * ib < base128() * base128()) by (nonlinear_arith)
            requires
                0 <= ia < base128(),
                0 <= ib < base128(),
        ;
        assert(p11 + mid_hi + c + carry < base128()) by (nonlinear_arith)
            requires
                ia * ib == (p11 + mid_hi + c + carry) * base128() + lo,
                ia * ib < base128() * base128(),
                lo >= 0,
        ;
    }
    let hi = p11 + mid_hi + c + carry;
    Wide { hi, lo }
}

/// Quotient and remainder of `n / d`, for a quotient that fits in `u128`.
pub fn div_floor(n: &Wide, d: u128) -> (r: (u128, u128))
    requires
        d > 0,
        n.hi < d,
    ensures
        r.0 * d + r.1 == n.value(),
        r.1 < d,
{
    proof {
        assert(n.value() < base128() * d) by (nonlinear_arith)
            requires
                n.value() == n.hi * base128() + n.lo,
                0 <= n.hi < d,
                0 <= n.lo < base128(),
        ;
        lemma2_to64();
        lemma2_to64_rest();
        lemma_pow2_adds(64, 63);
        lemma_pow2_adds(64, 64);
    }
    let mut q: u128 = 0;
    let mut step: u128 = 0x8000_0000_0000_0000_0000_0000_0000_0000;
    let ghost mut k: nat = 127;
    // q is built from its highest bit down: each round decides whether the
    // quotient reaches q + step
    loop
        invariant_except_break
            n.value() < (q + 2 * step) * d,
            q + 2 * step <= base128(),
        invariant
            d > 0,
            step as int == pow2(k),
            k <= 127,
            q * d <= n.value(),
        ensures
            q * d <= n.value() < (q + 1) * d,
        decreases k,
    {
        proof {
            lemma_pow2_pos(k);
        }
        let ghost q0 = q;
        let cand = q + step;
        let prod = wide_mul(cand, d);
        proof {
            assert(cand * d == q0 * d + step * d) by (nonlinear_arith)
                requires
                    cand == q0 + step,
            ;
            assert((q0 + 2 * step) * d == q0 * d + 2 * (step * d)) by (nonlinear_arith);
        }
        if prod.le(n) {
            q = cand;
        }
        proof {
            assert((q + step) * d == q * d + step * d) by (nonlinear_arith);
        }
        if step == 1 {
            break;
        }
        proof {
            lemma2_to64();
            assert(k > 0);
            lemma_pow2_unfold(k);
            k = (k - 1) as nat;
        }
        step = step / 2;
    }
    proof {
        assert(n.value() - q * d < d) by (nonlinear_arith)
            requires
                n.value() < (q + 1) * d,
        ;
    }
    let prod = wide_mul(q, d);
    let rem = n.sub(&prod);
    proof {
        assert(rem.hi == 0) by (nonlinear_arith)
            requires
                rem.value() == rem.hi * base128() + rem.lo,
                0 <= rem.value() < d,
                d < base128(),
                rem.hi >= 0,
                rem.lo >= 0,
        ;
    }
    (q, rem.lo)
}

/// `n / d` rounded to the nearest integer (halves up), or `None` where that
/// does not fit in `u128`.
pub fn div_round_wide(n: &Wide, d: u128) -> (r: Option<u128>)
    requires
        d > 0,
    ensures
        r is Some <==> div_round(n.value(), d as int) <= u128::MAX,
        r is Some ==> r->0 == div_round(n.value(), d as int),
{
    let ghost nv = n.value();
    if n.hi >= d {
        proof {
            assert(nv / (d as int) >= base128()) by (nonlinear_arith)
                requires
                    nv == n.hi * base128() + n.lo,
                    n.hi >= d,
                    d > 0,
                    n.lo >= 0,
            {
                vstd::arithmetic::div_mod::lemma_div_is_ordered(d * base128(), nv, d as int);
                vstd::arithmetic::div_mod::lemma_div_multiples_vanish(base128(), d as int);
            }
        }
        return None;
    }
    let (q, rem) = div_floor(n, d);
    proof {
        vstd::arithmetic::div_mod::lemma_fundamental_div_mod_converse(
            nv,
            d as int,
            q as int,
            rem as int,
        );
    }
    if rem >= d - rem {
        if q == u128::MAX {
            None
        } else {
            Some(q + 1)
        }
    } else {
        Some(q)
    }
}

/// `a * b / c` rounded to the nearest integer (halves up), or `None` where
/// that does not fit in `u128`.
pub fn mul_div_round(a: u128, b: u128, c: u128) -> (r: Option<u128>)
    requires
        c > 0,
    ensures
        r is Some <==> mul_div_round_spec(a as int, b as int, c as int) <= u128::MAX,
        r is Some ==> r->0 == mul_div_round_spec(a as int, b as int, c as int),
{
    let n = wide_mul(a, b);
    div_round_wide(&n, c)
}

} // verus!
