//! The adaptive accrual-rate controller: alpha decays by a fixed rate per
//! interval for as long as the mean age of the pending bonds exceeds a
//! target, and is frozen when the mean age falls back below it.
use crate::errors::AccrualError;
use crate::types::{apply_basis_point, Balance, BasisPoint, Duration, Timestamp, FULL_BASIS_POINT};
use crate::weighted_mean::WeightedMeanLength;
use vstd::prelude::*;

verus! {

/// `alpha` after `n` decays by `rate` basis points, each rounded down.
pub open spec fn decay(alpha: int, rate: int, n: nat) -> int
    decreases n,
{
    if n == 0 {
        alpha
    } else {
        decay(alpha, rate, (n - 1) as nat) * (10000 - rate) / 10000
    }
}

pub open spec fn alpha_of(p: (int, int)) -> int {
    p.0
}

pub open spec fn exceeds_of(p: (int, int)) -> int {
    p.1
}

pub open spec fn pair_int(p: (u64, u64)) -> (int, int) {
    (p.0 as int, p.1 as int)
}

pub open spec fn max_int(a: int, b: int) -> int {
    if a >= b {
        a
    } else {
        b
    }
}

pub proof fn lemma_decay_step(alpha: int, rate: int, n: nat)
    requires
        alpha >= 0,
        0 <= rate <= 10000,
    ensures
        0 <= decay(alpha, rate, n + 1) <= decay(alpha, rate, n),
        0 <= decay(alpha, rate, n) <= alpha,
    decreases n,
{
    if n > 0 {
        lemma_decay_step(alpha, rate, (n - 1) as nat);
    }
    let x = decay(alpha, rate, n);
    assert(0 <= x * (10000 - rate) / 10000 <= x) by (nonlinear_arith)
        requires
            x >= 0,
            0 <= rate <= 10000,
    ;
}

pub proof fn lemma_decay_monotone(alpha: int, rate: int, i: nat, n: nat)
    requires
        alpha >= 0,
        0 <= rate <= 10000,
        i <= n,
    ensures
        decay(alpha, rate, n) <= decay(alpha, rate, i),
    decreases n,
{
    if n > i {
        lemma_decay_monotone(alpha, rate, i, (n - 1) as nat);
        lemma_decay_step(alpha, rate, (n - 1) as nat);
    }
}

pub proof fn lemma_decay_fixed(alpha: int, rate: int, i: nat, n: nat)
    requires
        i <= n,
        decay(alpha, rate, i + 1) == decay(alpha, rate, i),
    ensures
        decay(alpha, rate, n) == decay(alpha, rate, i),
    decreases n,
{
    if n > i {
        lemma_decay_fixed(alpha, rate, i, (n - 1) as nat);
    }
}

/// The accrual parameters chosen at initialisation.
#[derive(Clone, Copy, Debug, PartialEq, Eq, Structural)]
pub struct AccrualConfig {
    pub alpha: Duration,
    pub min_alpha: Duration,
    pub target_mean_length: Duration,
    pub adjust_interval: Duration,
    pub adjust_rate: BasisPoint,
}

impl AccrualConfig {
    pub open spec fn valid(&self) -> bool {
        &&& self.min_alpha > 0
        &&& self.alpha >= self.min_alpha
        &&& self.target_mean_length > 0
        &&& self.adjust_interval > 0
        &&& self.adjust_rate < FULL_BASIS_POINT
    }

    /// Accepts a configuration with `0 < min_alpha <= alpha`, a positive
    /// target and interval, and a rate below 10000 basis points.
    pub fn assert_valid(&self) -> (r: Result<(), AccrualError>)
        ensures
            r is Ok <==> self.valid(),
            r is Err ==> r == Err::<(), AccrualError>(AccrualError::InvalidConfig),
    {
        if self.min_alpha > 0 && self.alpha >= self.min_alpha && self.target_mean_length > 0
            && self.adjust_interval > 0 && self.adjust_rate < FULL_BASIS_POINT {
            Ok(())
        } else {
            Err(AccrualError::InvalidConfig)
        }
    }
}

/// The accrual controller and the mean-age tracker it owns.
#[derive(Clone, Copy, Debug)]
pub struct AccrualParameter {
    /// alpha as last frozen
    pub alpha: Duration,
    /// the floor of alpha
    pub min_alpha: Duration,
    /// the mean age above which alpha decays
    pub target_mean_length: Duration,
    /// alpha decays once per interval while the mean age exceeds the target
    pub adjust_interval: Duration,
    /// how much alpha decays per interval
    pub adjust_rate: BasisPoint,
    /// when the mean age rose above the target; 0 while it is not above
    pub exceeds_target_at: Timestamp,
    /// volume-weighted mean age of the pending bonds
    pub mean_length: WeightedMeanLength,
}

impl AccrualParameter {
    pub open spec fn wf(&self) -> bool {
        &&& self.alpha >= self.min_alpha
        &&& self.adjust_interval > 0
        &&& self.adjust_rate < FULL_BASIS_POINT
        &&& self.exceeds_target_at <= self.mean_length.updated_at()
    }

    /// alpha projected to `ts`, where the mean age at `ts` is `m`.
    pub open spec fn projected_alpha(&self, m: int, ts: int) -> int {
        if m < self.target_mean_length {
            self.alpha as int
        } else {
            let exceed = if self.exceeds_target_at == 0 {
                m - self.target_mean_length
            } else {
                ts - self.exceeds_target_at
            };
            max_int(
                self.min_alpha as int,
                decay(
                    self.alpha as int,
                    self.adjust_rate as int,
                    (exceed / (self.adjust_interval as int)) as nat,
                ),
            )
        }
    }

    /// A projection of alpha lies between the floor and the stored alpha.
    pub proof fn lemma_projected_range(&self, m: int, ts: int)
        requires
            self.wf(),
        ensures
            self.min_alpha <= self.projected_alpha(m, ts) <= self.alpha,
    {
        if m >= self.target_mean_length {
            let exceed = if self.exceeds_target_at == 0 {
                m - self.target_mean_length
            } else {
                ts - self.exceeds_target_at
            };
            lemma_decay_step(
                self.alpha as int,
                self.adjust_rate as int,
                (exceed / (self.adjust_interval as int)) as nat,
            );
        }
    }

    /// What `current_alpha(ts)` returns.
    pub open spec fn alpha_result(&self, ts: int) -> Result<u64, AccrualError> {
        match self.mean_length.mean_result(ts) {
            Err(e) => Err(e),
            Ok(m) => Ok(self.projected_alpha(m as int, ts) as u64),
        }
    }

    pub fn new(
        init_alpha: Duration,
        min_alpha: Duration,
        target_mean_length: Duration,
        adjust_interval: Duration,
        adjust_rate: BasisPoint,
    ) -> (r: AccrualParameter)
        requires
            init_alpha >= min_alpha,
            adjust_interval > 0,
            adjust_rate < FULL_BASIS_POINT,
        ensures
            r.wf(),
            r.alpha == init_alpha,
            r.min_alpha == min_alpha,
            r.target_mean_length == target_mean_length,
            r.adjust_interval == adjust_interval,
            r.adjust_rate == adjust_rate,
            r.exceeds_target_at == 0,
            r.mean_length.total_weight() == 0,
            r.mean_length.weighted_sum() == 0,
            r.mean_length.updated_at() == 0,
    {
        AccrualParameter {
            alpha: init_alpha,
            min_alpha,
            target_mean_length,
            adjust_interval,
            adjust_rate,
            exceeds_target_at: 0,
            mean_length: WeightedMeanLength::new(),
        }
    }

    /// A controller holding the given parameters and state; `None` exactly
    /// where they break its invariant.
    pub fn from_parts(
        alpha: Duration,
        min_alpha: Duration,
        target_mean_length: Duration,
        adjust_interval: Duration,
        adjust_rate: BasisPoint,
        exceeds_target_at: Timestamp,
        mean_length: WeightedMeanLength,
    ) -> (r: Option<AccrualParameter>)
        ensures
            r is Some <==> alpha >= min_alpha && adjust_interval > 0 && adjust_rate
                < FULL_BASIS_POINT && exceeds_target_at <= mean_length.updated_at(),
            r is Some ==> r->0.wf() && r->0 == (AccrualParameter {
                alpha,
                min_alpha,
                target_mean_length,
                adjust_interval,
                adjust_rate,
                exceeds_target_at,
                mean_length,
            }),
    {
        let (_, _, updated_at) = mean_length.parts();
        if alpha >= min_alpha && adjust_interval > 0 && adjust_rate < FULL_BASIS_POINT
            && exceeds_target_at <= updated_at {
            Some(
                AccrualParameter {
                    alpha,
                    min_alpha,
                    target_mean_length,
                    adjust_interval,
                    adjust_rate,
                    exceeds_target_at,
                    mean_length,
                },
            )
        } else {
            None
        }
    }

    /// alpha projected to `ts`, without changing the stored state.
    pub fn current_alpha(&self, ts: Timestamp) -> (r: Result<Duration, AccrualError>)
        requires
            self.wf(),
        ensures
            r == self.alpha_result(ts as int),
            r is Ok ==> self.min_alpha <= r->Ok_0 <= self.alpha,
    {
        let m = match self.mean_length.mean(ts) {
            Ok(m) => m,
            Err(e) => {
                return Err(e);
            },
        };
        if m < self.target_mean_length {
            return Ok(self.alpha);
        }
        let exceed: u64 = if self.exceeds_target_at == 0 {
            m - self.target_mean_length
        } else {
            ts - self.exceeds_target_at
        };
        let n: u64 = exceed / self.adjust_interval;
        let ghost rate = self.adjust_rate as int;
        let ghost a0 = self.alpha as int;
        let mut adjusted: u64 = self.alpha;
        let mut i: u64 = 0;
        // once alpha reaches the floor, or a decay step leaves it unchanged,
        // the remaining steps cannot change the result
        while i < n
            invariant
                i <= n,
                adjusted as int == decay(a0, rate, i as nat),
                0 <= rate < 10000,
                a0 >= 0,
                self.adjust_rate == rate,
            ensures
                max_int(self.min_alpha as int, adjusted as int) == max_int(
                    self.min_alpha as int,
                    decay(a0, rate, n as nat),
                ),
            decreases n - i,
        {
            proof {
                lemma_decay_step(a0, rate, i as nat);
                lemma_decay_monotone(a0, rate, i as nat, n as nat);
            }
            if adjusted <= self.min_alpha {
                break;
            }
            let next = apply_basis_point(adjusted as u128, FULL_BASIS_POINT - self.adjust_rate);
            if next == adjusted as u128 {
                proof {
                    lemma_decay_fixed(a0, rate, i as nat, n as nat);
                }
                break;
            }
            adjusted = next as u64;
            i = i + 1;
        }
        proof {
            lemma_decay_step(a0, rate, n as nat);
        }
        if adjusted > self.min_alpha {
            Ok(adjusted)
        } else {
            Ok(self.min_alpha)
        }
    }

    /// alpha and `exceeds_target_at` after a mutation at `ts` that moved the
    /// mean age from `old_mean` to `new_mean`, where alpha projected to `ts`
    /// before it was `alpha_before`; `None` where the back-dated crossing
    /// would lie before time 0.
    pub open spec fn settle(
        &self,
        alpha_before: int,
        old_mean: int,
        new_mean: int,
        ts: int,
        removal: bool,
    ) -> Option<(int, int)> {
        let target = self.target_mean_length as int;
        // crossing down: freeze the decay accrued so far
        let (a1, e1) = if old_mean > target && new_mean < target {
            (alpha_before, 0int)
        } else {
            (self.alpha as int, self.exceeds_target_at as int)
        };
        // a removal that lifts the mean from below the target to it or
        // above crosses it now
        let e2 = if removal && old_mean < target && new_mean >= target {
            ts
        } else {
            e1
        };
        if e2 == 0 && new_mean > target {
            if !removal {
                // above the target after an insertion but untracked: back-date
                // the crossing by how far the new mean lies above the target
                if new_mean - target > ts {
                    None
                } else {
                    Some((a1, ts - (new_mean - target)))
                }
            } else if old_mean < target || old_mean - target > ts {
                // the mean grew above the target with time alone: it crossed
                // when the mean age was last equal to the target
                None
            } else {
                Some((a1, ts - (old_mean - target)))
            }
        } else {
            Some((a1, e2))
        }
    }

    /// alpha and `exceeds_target_at` after `weighted_mean_insert(amount, ts)`,
    /// or its error.
    pub open spec fn insert_outcome(&self, amount: int, ts: int) -> Result<(int, int), AccrualError> {
        match self.mean_length.mean_result(ts) {
            Err(e) => Err(e),
            Ok(m) => if self.mean_length.total_weight() + amount > u128::MAX {
                Err(AccrualError::Overflow)
            } else if self.mean_length.mean_after_insert(amount, ts) > u64::MAX {
                Err(AccrualError::Overflow)
            } else {
                match self.settle(
                    self.projected_alpha(m as int, ts),
                    m as int,
                    self.mean_length.mean_after_insert(amount, ts),
                    ts,
                    false,
                ) {
                    None => Err(AccrualError::BadTimestamp),
                    Some(p) => Ok(p),
                }
            },
        }
    }

    /// alpha and `exceeds_target_at` after
    /// `weighted_mean_remove(amount, length, ts)`, or its error.
    pub open spec fn remove_outcome(&self, amount: int, length: int, ts: int) -> Result<
        (int, int),
        AccrualError,
    > {
        match self.mean_length.mean_result(ts) {
            Err(e) => Err(e),
            Ok(m) => if !self.mean_length.can_remove(amount, length, ts) {
                Err(AccrualError::Underflow)
            } else if self.mean_length.mean_after_remove(amount, length, ts) > u64::MAX {
                Err(AccrualError::Overflow)
            } else {
                match self.settle(
                    self.projected_alpha(m as int, ts),
                    m as int,
                    self.mean_length.mean_after_remove(amount, length, ts),
                    ts,
                    true,
                ) {
                    None => Err(AccrualError::BadTimestamp),
                    Some(p) => Ok(p),
                }
            },
        }
    }

    /// The fixed parameters of `self` and `new` agree.
    pub open spec fn same_params(&self, new: &Self) -> bool {
        &&& new.min_alpha == self.min_alpha
        &&& new.target_mean_length == self.target_mean_length
        &&& new.adjust_interval == self.adjust_interval
        &&& new.adjust_rate == self.adjust_rate
    }

    /// `new` is `self` after a successful `weighted_mean_insert(amount, ts)`.
    pub open spec fn inserted(&self, new: &Self, amount: int, ts: int) -> bool {
        &&& self.insert_outcome(amount, ts) is Ok
        &&& new.alpha == alpha_of(self.insert_outcome(amount, ts)->Ok_0)
        &&& new.exceeds_target_at == exceeds_of(self.insert_outcome(amount, ts)->Ok_0)
        &&& self.mean_length.inserted(new.mean_length, amount, ts)
        &&& self.same_params(new)
    }

    /// `new` is `self` after a successful
    /// `weighted_mean_remove(amount, length, ts)`.
    pub open spec fn removed(&self, new: &Self, amount: int, length: int, ts: int) -> bool {
        &&& self.remove_outcome(amount, length, ts) is Ok
        &&& new.alpha == alpha_of(self.remove_outcome(amount, length, ts)->Ok_0)
        &&& new.exceeds_target_at == exceeds_of(self.remove_outcome(amount, length, ts)->Ok_0)
        &&& self.mean_length.removed(new.mean_length, amount, length, ts)
        &&& self.same_params(new)
    }

    fn settle_exec(
        &self,
        alpha_before: Duration,
        old_mean: Duration,
        new_mean: Duration,
        ts: Timestamp,
        removal: bool,
    ) -> (r: Option<(Duration, Timestamp)>)
        ensures
            r is Some <==> self.settle(
                alpha_before as int,
                old_mean as int,
                new_mean as int,
                ts as int,
                removal,
            ) is Some,
            r is Some ==> pair_int(r->0) == self.settle(
                alpha_before as int,
                old_mean as int,
                new_mean as int,
                ts as int,
                removal,
            )->0,
    {
        let target = self.target_mean_length;
        let mut alpha = self.alpha;
        let mut exceeds = self.exceeds_target_at;
        if old_mean > target && new_mean < target {
            alpha = alpha_before;
            exceeds = 0;
        }
        if removal && old_mean < target && new_mean >= target {
            exceeds = ts;
        }
        if exceeds == 0 && new_mean > target {
            if !removal {
                if new_mean - target > ts {
                    return None;
                }
                exceeds = ts - (new_mean - target);
            } else {
                if old_mean < target || old_mean - target > ts {
                    return None;
                }
                exceeds = ts - (old_mean - target);
            }
        }
        Some((alpha, exceeds))
    }

    /// Adds a bond of `amount` at `ts` to the mean age, and freezes or
    /// starts the decay where the mean age crosses the target. On an error
    /// nothing changes.
    pub fn weighted_mean_insert(&mut self, amount: Balance, ts: Timestamp) -> (r: Result<
        (),
        AccrualError,
    >)
        requires
            old(self).wf(),
        ensures
            final(self).wf(),
            r is Ok <==> old(self).insert_outcome(amount as int, ts as int) is Ok,
            r is Err ==> r->Err_0 == old(self).insert_outcome(amount as int, ts as int)->Err_0
                && *final(self) == *old(self),
            r is Ok ==> old(self).inserted(&*final(self), amount as int, ts as int),
    {
        let alpha_before = match self.current_alpha(ts) {
            Ok(a) => a,
            Err(e) => {
                return Err(e);
            },
        };
        let old_mean = match self.mean_length.mean(ts) {
            Ok(m) => m,
            Err(e) => {
                return Err(e);
            },
        };
        let mut tracker = self.mean_length;
        match tracker.insert(amount, ts) {
            Ok(()) => {},
            Err(e) => {
                return Err(e);
            },
        }
        let new_mean = match tracker.mean(ts) {
            Ok(m) => m,
            Err(e) => {
                return Err(e);
            },
        };
        proof {
            self.lemma_projected_range(old_mean as int, ts as int);
            assert(alpha_before == self.projected_alpha(old_mean as int, ts as int));
            assert(new_mean == self.mean_length.mean_after_insert(amount as int, ts as int));
        }
        match self.settle_exec(alpha_before, old_mean, new_mean, ts, false) {
            None => Err(AccrualError::BadTimestamp),
            Some((alpha, exceeds)) => {
                self.alpha = alpha;
                self.exceeds_target_at = exceeds;
                self.mean_length = tracker;
                Ok(())
            },
        }
    }

    /// Takes a bond of `amount` and age `length` out of the mean age at
    /// `ts`, and freezes or starts the decay where the mean age crosses the
    /// target. On an error nothing changes.
    pub fn weighted_mean_remove(&mut self, amount: Balance, length: Duration, ts: Timestamp) -> (r:
        Result<(), AccrualError>)
        requires
            old(self).wf(),
        ensures
            final(self).wf(),
            r is Ok <==> old(self).remove_outcome(amount as int, length as int, ts as int) is Ok,
            r is Err ==> r->Err_0 == old(self).remove_outcome(
                amount as int,
                length as int,
                ts as int,
            )->Err_0 && *final(self) == *old(self),
            r is Ok ==> old(self).removed(&*final(self), amount as int, length as int, ts as int),
    {
        let alpha_before = match self.current_alpha(ts) {
            Ok(a) => a,
            Err(e) => {
                return Err(e);
            },
        };
        let old_mean = match self.mean_length.mean(ts) {
            Ok(m) => m,
            Err(e) => {
                return Err(e);
            },
        };
        let mut tracker = self.mean_length;
        match tracker.remove(amount, length, ts) {
            Ok(()) => {},
            Err(e) => {
                return Err(e);
            },
        }
        let new_mean = match tracker.mean(ts) {
            Ok(m) => m,
            Err(e) => {
                return Err(e);
            },
        };
        proof {
            self.lemma_projected_range(old_mean as int, ts as int);
            assert(alpha_before == self.projected_alpha(old_mean as int, ts as int));
            assert(new_mean == self.mean_length.mean_after_remove(
                amount as int,
                length as int,
                ts as int,
            ));
        }
        match self.settle_exec(alpha_before, old_mean, new_mean, ts, true) {
            None => Err(AccrualError::BadTimestamp),
            Some((alpha, exceeds)) => {
                self.alpha = alpha;
                self.exceeds_target_at = exceeds;
                self.mean_length = tracker;
                Ok(())
            },
        }
    }
}

/// Whatever the state, alpha projected to any time is at least its floor
/// (and at most the stored alpha).
pub proof fn lemma_alpha_above_floor(p: AccrualParameter, ts: int)
    requires
        p.wf(),
    ensures
        p.alpha_result(ts) is Ok ==> p.min_alpha <= p.alpha_result(ts)->Ok_0 <= p.alpha,
{
    if p.mean_length.mean_result(ts) is Ok {
        p.lemma_projected_range(p.mean_length.mean_result(ts)->Ok_0 as int, ts);
    }
}

/// An insertion or removal that takes the mean age from above the target to
/// below it freezes alpha at its projection just before the change, and
/// `current_alpha` then returns that same value at every later time for as
/// long as the mean age stays below the target.
pub proof fn lemma_crossing_down_freezes(
    before: AccrualParameter,
    after: AccrualParameter,
    amount: int,
    length: int,
    ts: int,
    removal: bool,
)
    requires
        before.wf(),
        removal ==> before.removed(&after, amount, length, ts),
        !removal ==> before.inserted(&after, amount, ts),
        before.mean_length.mean_spec(ts) > before.target_mean_length,
        after.mean_length.mean_spec(ts) < after.target_mean_length,
    ensures
        before.alpha_result(ts) is Ok,
        after.alpha == before.alpha_result(ts)->Ok_0,
        after.exceeds_target_at == 0,
        after.alpha_result(ts) == before.alpha_result(ts),
        forall|ts2: int|
            ts2 >= ts && #[trigger] after.mean_length.mean_spec(ts2) < after.target_mean_length
                ==> after.alpha_result(ts2) == Ok::<u64, AccrualError>(after.alpha),
{
    let m = before.mean_length.mean_result(ts)->Ok_0;
    before.lemma_projected_range(m as int, ts);
    assert forall|ts2: int|
        ts2 >= ts && #[trigger] after.mean_length.mean_spec(ts2)
            < after.target_mean_length implies after.alpha_result(ts2) == Ok::<u64, AccrualError>(
        after.alpha,
    ) by {
        after.mean_length.lemma_mean_non_decreasing(ts2, ts2);
    }
    after.mean_length.lemma_mean_non_decreasing(ts, ts);
}

} // verus!
