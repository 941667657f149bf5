//! Maintenance of the conversion rate that a chain stores: when the stored
//! rate has drifted too far from a fresh estimate, it is set anew.

use crate::fixed::{fixed_of_rational, fixed_saturating_from_rational, saturate_u128, FixedU128};
use vstd::prelude::*;

verus! {

/// How far two inner values lie apart.
pub open spec fn distance(a: u128, b: u128) -> int {
    if a < b {
        b - a
    } else {
        a - b
    }
}

/// The drift of the estimate from the stored rate, as a share of the stored
/// rate: a fixed-point number, rounded down and saturating.
pub open spec fn relative_drift(stored: FixedU128, estimate: FixedU128) -> int
    recommends
        stored.inner != 0,
{
    saturate_u128(fixed_of_rational(distance(stored.inner, estimate.inner), stored.inner as int))
}

/// Whether the stored rate is set anew: its drift from the estimate exceeds
/// the tolerance. A stored rate of zero is replaced by any other estimate.
pub open spec fn needs_update(stored: FixedU128, estimate: FixedU128, tolerance: FixedU128) -> bool {
    if stored.inner == 0 {
        estimate.inner != 0
    } else {
        relative_drift(stored, estimate) > tolerance.inner
    }
}

/// Compares the rate that the chain stores with a fresh estimate and gives
/// the rate to store instead, if the drift exceeds `tolerance`.
pub fn select_conversion_rate_update(
    stored: FixedU128,
    estimate: FixedU128,
    tolerance: FixedU128,
) -> (update: Option<FixedU128>)
    ensures
        update == (if needs_update(stored, estimate, tolerance) {
            Some(estimate)
        } else {
            None
        }),
{
    if stored.inner == 0 {
        if estimate.inner != 0 {
            Some(estimate)
        } else {
            None
        }
    } else {
        let difference = if stored.inner < estimate.inner {
            estimate.inner - stored.inner
        } else {
            stored.inner - estimate.inner
        };
        let drift = fixed_saturating_from_rational(difference, stored.inner);
        if drift.inner > tolerance.inner {
            Some(estimate)
        } else {
            None
        }
    }
}

/// A stored rate that equals the estimate is never set anew.
pub proof fn lemma_equal_rates_need_no_update(rate: FixedU128, tolerance: FixedU128)
    ensures
        !needs_update(rate, rate, tolerance),
{
    if rate.inner != 0 {
    }
}

} // verus!
