//! The accrual state as laid out before `exceeds_target_at` existed, and
//! its conversion to the current layout, applied once at upgrade time.
use crate::accrual::AccrualParameter;
use crate::types::{BasisPoint, Duration, Timestamp};
use crate::weighted_mean::WeightedMeanLength;
use vstd::prelude::*;

verus! {

pub struct AccrualParameterV1_0_0 {
    pub alpha: Duration,
    pub min_alpha: Duration,
    pub target_mean_length: Duration,
    pub adjust_interval: Duration,
    pub adjust_rate: BasisPoint,
    /// when alpha was last updated; retired
    pub last_updated_at: Timestamp,
    pub mean_length: WeightedMeanLength,
}

/// The retired layout does not record when the mean age rose above the
/// target, and `last_updated_at` does not determine it. The converted state
/// starts untracked (`exceeds_target_at` 0), so the decay is counted from the
/// mean age's excess over the target, as for a mean age that was never
/// observed crossing: an approximation, not a reconstruction.
impl From<AccrualParameterV1_0_0> for AccrualParameter {
    fn from(val: AccrualParameterV1_0_0) -> (r: Self) {
        AccrualParameter {
            alpha: val.alpha,
            min_alpha: val.min_alpha,
            target_mean_length: val.target_mean_length,
            adjust_interval: val.adjust_interval,
            adjust_rate: val.adjust_rate,
            exceeds_target_at: 0,
            mean_length: val.mean_length,
        }
    }
}

impl vstd::std_specs::convert::FromSpecImpl<AccrualParameterV1_0_0> for AccrualParameter {
    open spec fn obeys_from_spec() -> bool {
        true
    }

    open spec fn from_spec(val: AccrualParameterV1_0_0) -> Self {
        migrated(val)
    }
}

/// The current layout of `val`: the same parameters and mean age, with the
/// crossing time untracked. Setting `exceeds_target_at` to 0 is a known
/// approximation: the retired layout cannot tell when the mean age rose
/// above the target, so a state migrated while above it restarts its decay
/// count from the mean age's excess rather than from the true crossing.
pub open spec fn migrated(val: AccrualParameterV1_0_0) -> AccrualParameter {
    AccrualParameter {
        alpha: val.alpha,
        min_alpha: val.min_alpha,
        target_mean_length: val.target_mean_length,
        adjust_interval: val.adjust_interval,
        adjust_rate: val.adjust_rate,
        exceeds_target_at: 0,
        mean_length: val.mean_length,
    }
}

/// A converted state keeps the controller's invariant wherever the old one
/// had alpha at or above its floor, a positive interval and a rate below
/// 10000 basis points.
pub proof fn lemma_migration_keeps_invariant(val: AccrualParameterV1_0_0)
    requires
        val.alpha >= val.min_alpha,
        val.adjust_interval > 0,
        val.adjust_rate < 10000,
    ensures
        migrated(val).wf(),
{
    val.mean_length.lemma_ranges();
}

} // verus!
