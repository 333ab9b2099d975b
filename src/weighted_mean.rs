//! Lazily evaluated volume-weighted mean age of the outstanding bonds.
use crate::errors::AccrualError;
use crate::types::{Balance, Duration, Timestamp};
use crate::wide::{div_round, div_round_wide, wide_mul, Wide};
use vstd::prelude::*;

verus! {

/// Sum of `amount * age` and of `amount` over the pending bonds, as of
/// `updated_at`. Ages grow by the time elapsed since then.
#[derive(Clone, Copy, Debug)]
pub struct WeightedMeanLength {
    weighted_sum: Wide,
    total_weight: u128,
    updated_at: Timestamp,
}

impl WeightedMeanLength {
    /// Sum of `amount * age` as of `updated_at`.
    pub closed spec fn weighted_sum(&self) -> int {
        self.weighted_sum.value()
    }

    /// Sum of the amounts.
    pub closed spec fn total_weight(&self) -> int {
        self.total_weight as int
    }

    pub closed spec fn updated_at(&self) -> int {
        self.updated_at as int
    }

    /// The mean age at `ts`: 0 without weight, else the rounded mean at the
    /// last update plus the time elapsed since.
    pub open spec fn mean_spec(&self, ts: int) -> int {
        if self.total_weight() == 0 {
            0
        } else {
            div_round(self.weighted_sum(), self.total_weight()) + (ts - self.updated_at())
        }
    }

    /// What `mean(ts)` returns.
    pub open spec fn mean_result(&self, ts: int) -> Result<u64, AccrualError> {
        if ts < self.updated_at() {
            Err(AccrualError::BadTimestamp)
        } else if self.mean_spec(ts) > u64::MAX {
            Err(AccrualError::Overflow)
        } else {
            Ok(self.mean_spec(ts) as u64)
        }
    }

    pub proof fn lemma_ranges(&self)
        ensures
            0 <= self.total_weight() <= u128::MAX,
            0 <= self.updated_at() <= u64::MAX,
            0 <= self.weighted_sum(),
    {
    }

    pub fn new() -> (r: Self)
        ensures
            r.weighted_sum() == 0,
            r.total_weight() == 0,
            r.updated_at() == 0,
    {
        WeightedMeanLength { weighted_sum: Wide::from_u128(0), total_weight: 0, updated_at: 0 }
    }

    /// The volume-weighted mean age at `ts`.
    pub fn mean(&self, ts: Timestamp) -> (r: Result<Duration, AccrualError>)
        ensures
            r == self.mean_result(ts as int),
            r is Ok ==> r->Ok_0 == self.mean_spec(ts as int),
    {
        if ts < self.updated_at {
            return Err(AccrualError::BadTimestamp);
        }
        proof {
            self.lemma_mean_non_decreasing(ts as int, ts as int);
        }
        if self.total_weight == 0 {
            return Ok(0);
        }
        let elapsed = ts - self.updated_at;
        match div_round_wide(&self.weighted_sum, self.total_weight) {
            None => Err(AccrualError::Overflow),
            Some(avg) => {
                if avg > (u64::MAX - elapsed) as u128 {
                    Err(AccrualError::Overflow)
                } else {
                    Ok(avg as u64 + elapsed)
                }
            },
        }
    }

    /// Adds `amount` of weight of age zero at `ts`, after rolling the sums
    /// forward to `ts`. On an error nothing changes.
    pub fn insert(&mut self, amount: Balance, ts: Timestamp) -> (r: Result<(), AccrualError>)
        ensures
            old(self).mean_result(ts as int) is Err ==> r == Err::<(), AccrualError>(
                old(self).mean_result(ts as int)->Err_0,
            ),
            old(self).mean_result(ts as int) is Ok && old(self).total_weight() + amount
                > u128::MAX ==> r == Err::<(), AccrualError>(AccrualError::Overflow),
            r is Err ==> *final(self) == *old(self),
            r is Ok <==> old(self).mean_result(ts as int) is Ok && old(self).total_weight()
                + amount <= u128::MAX,
            r is Ok ==> old(self).inserted(*final(self), amount as int, ts as int),
    {
        let m = match self.mean(ts) {
            Ok(m) => m,
            Err(e) => {
                return Err(e);
            },
        };
        if amount > u128::MAX - self.total_weight {
            return Err(AccrualError::Overflow);
        }
        self.weighted_sum = wide_mul(m as u128, self.total_weight);
        self.updated_at = ts;
        self.total_weight = self.total_weight + amount;
        Ok(())
    }

    /// Takes `amount` of weight of age `length` out at `ts`, after rolling the
    /// sums forward to `ts`. On an error nothing changes.
    pub fn remove(&mut self, amount: Balance, length: Duration, ts: Timestamp) -> (r: Result<
        (),
        AccrualError,
    >)
        ensures
            old(self).mean_result(ts as int) is Err ==> r == Err::<(), AccrualError>(
                old(self).mean_result(ts as int)->Err_0,
            ),
            old(self).mean_result(ts as int) is Ok && !old(self).can_remove(
                amount as int,
                length as int,
                ts as int,
            ) ==> r == Err::<(), AccrualError>(AccrualError::Underflow),
            r is Err ==> *final(self) == *old(self),
            r is Ok <==> old(self).mean_result(ts as int) is Ok && old(self).can_remove(
                amount as int,
                length as int,
                ts as int,
            ),
            r is Ok ==> old(self).removed(*final(self), amount as int, length as int, ts as int),
    {
        let m = match self.mean(ts) {
            Ok(m) => m,
            Err(e) => {
                return Err(e);
            },
        };
        let rolled = wide_mul(m as u128, self.total_weight);
        let taken = wide_mul(amount, length as u128);
        if amount > self.total_weight || !taken.le(&rolled) {
            return Err(AccrualError::Underflow);
        }
        self.weighted_sum = rolled.sub(&taken);
        self.updated_at = ts;
        self.total_weight = self.total_weight - amount;
        Ok(())
    }

    /// `new` is `self` after `insert(amount, ts)`.
    pub open spec fn inserted(&self, new: Self, amount: int, ts: int) -> bool {
        &&& new.weighted_sum() == self.mean_spec(ts) * self.total_weight()
        &&& new.total_weight() == self.total_weight() + amount
        &&& new.updated_at() == ts
    }

    /// `new` is `self` after `remove(amount, length, ts)`.
    pub open spec fn removed(&self, new: Self, amount: int, length: int, ts: int) -> bool {
        &&& new.weighted_sum() == self.mean_spec(ts) * self.total_weight() - amount * length
        &&& new.total_weight() == self.total_weight() - amount
        &&& new.updated_at() == ts
    }

    /// The mean age at `ts` right after `insert(amount, ts)`.
    pub open spec fn mean_after_insert(&self, amount: int, ts: int) -> int {
        if self.total_weight() + amount == 0 {
            0
        } else {
            div_round(self.mean_spec(ts) * self.total_weight(), self.total_weight() + amount)
        }
    }

    /// The mean age at `ts` right after `remove(amount, length, ts)`.
    pub open spec fn mean_after_remove(&self, amount: int, length: int, ts: int) -> int {
        if self.total_weight() - amount == 0 {
            0
        } else {
            div_round(
                self.mean_spec(ts) * self.total_weight() - amount * length,
                self.total_weight() - amount,
            )
        }
    }

    /// The weight and the weighted sum after rolling forward to `ts` are at
    /// least what a removal takes out.
    pub open spec fn can_remove(&self, amount: int, length: int, ts: int) -> bool {
        &&& amount <= self.total_weight()
        &&& amount * length <= self.mean_spec(ts) * self.total_weight()
    }

    /// For fixed weights the mean age never decreases as time passes, and it
    /// is never negative.
    pub proof fn lemma_mean_non_decreasing(&self, ts1: int, ts2: int)
        requires
            self.updated_at() <= ts1 <= ts2,
        ensures
            0 <= self.mean_spec(ts1) <= self.mean_spec(ts2),
    {
        if self.total_weight() != 0 {
            assert(div_round(self.weighted_sum(), self.total_weight()) >= 0) by {
                vstd::arithmetic::div_mod::lemma_div_pos_is_pos(
                    self.weighted_sum(),
                    self.total_weight(),
                );
            }
        }
    }

    /// The stored sums: the weighted sum, the total weight and the time of
    /// the last update.
    pub fn parts(&self) -> (r: (Wide, u128, Timestamp))
        ensures
            r.0.value() == self.weighted_sum(),
            r.1 == self.total_weight(),
            r.2 == self.updated_at(),
    {
        (self.weighted_sum, self.total_weight, self.updated_at)
    }

    /// A tracker holding the given sums.
    pub fn from_parts(weighted_sum: Wide, total_weight: u128, updated_at: Timestamp) -> (r: Self)
        ensures
            r.weighted_sum() == weighted_sum.value(),
            r.total_weight() == total_weight,
            r.updated_at() == updated_at,
    {
        WeightedMeanLength { weighted_sum, total_weight, updated_at }
    }
}

} // verus!
