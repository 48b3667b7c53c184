//! Validity-free correction models: the entries of the absolute-time
//! resolver.

use vstd::prelude::*;

use crate::correction::TimeCorrection;
use crate::duration::Duration;
use crate::epoch::{epoch_from_time_of_week, time_of_week_instant_nanos, Epoch};
use crate::polynomial::Polynomial;
use crate::timescale::TimeScale;

verus! {

/// A correction model without a validity window: a quadratic [`Polynomial`]
/// anchored to a reference instant, describing the offset of the left-hand
/// scale against the right-hand scale. Used by [`crate::GnssAbsoluteTime`],
/// which models the current best-known state of the scales rather than an
/// append-only history.
#[derive(Debug, Clone, Copy, PartialEq, Eq, Structural)]
pub struct TimePolynomial {
    /// The scale the polynomial corrects from.
    pub lhs_timescale: TimeScale,
    /// The scale the polynomial corrects into.
    pub rhs_timescale: TimeScale,
    /// The instant the polynomial is anchored to.
    pub ref_epoch: Epoch,
    /// The offset model.
    pub polynomial: Polynomial,
}

impl TimePolynomial {
    /// The equivalent [`TimeCorrection`] entry, with a zero-width validity
    /// window: in the always-lenient resolver the window is never consulted.
    pub open spec fn as_correction(self) -> TimeCorrection {
        TimeCorrection {
            lhs_timescale: self.lhs_timescale,
            rhs_timescale: self.rhs_timescale,
            ref_epoch: self.ref_epoch,
            validity_period: Duration { nanos: 0 },
            polynomial: self.polynomial,
        }
    }

    /// Defines a new model from a reference instant expressed as a week
    /// counter and elapsed nanoseconds within that week.
    pub fn from_reference_time_of_week_nanos(
        ref_week: u32,
        ref_tow_nanos: u64,
        lhs_timescale: TimeScale,
        rhs_timescale: TimeScale,
        polynomial: Polynomial,
    ) -> (r: TimePolynomial)
        ensures
            r.lhs_timescale == lhs_timescale,
            r.rhs_timescale == rhs_timescale,
            r.polynomial == polynomial,
            r.ref_epoch.time_scale == lhs_timescale,
            lhs_timescale != TimeScale::ET && lhs_timescale != TimeScale::TDB
                ==> r.ref_epoch.nanos as int == time_of_week_instant_nanos(
                lhs_timescale.code(),
                ref_week,
                ref_tow_nanos,
            ),
    {
        let ref_epoch = epoch_from_time_of_week(ref_week, ref_tow_nanos, lhs_timescale);
        TimePolynomial { lhs_timescale, rhs_timescale, ref_epoch, polynomial }
    }

    /// Defines a new model from a reference instant expressed as a week
    /// counter and elapsed seconds within that week.
    pub fn from_reference_time_of_week_seconds(
        ref_week: u32,
        ref_tow: u64,
        lhs_timescale: TimeScale,
        rhs_timescale: TimeScale,
        polynomial: Polynomial,
    ) -> (r: TimePolynomial)
        requires
            ref_tow <= 18_446_744_073,
        ensures
            r.lhs_timescale == lhs_timescale,
            r.rhs_timescale == rhs_timescale,
            r.polynomial == polynomial,
            r.ref_epoch.time_scale == lhs_timescale,
            lhs_timescale != TimeScale::ET && lhs_timescale != TimeScale::TDB
                ==> r.ref_epoch.nanos as int == time_of_week_instant_nanos(
                lhs_timescale.code(),
                ref_week,
                (ref_tow * 1_000_000_000) as u64,
            ),
    {
        proof {
            assert((ref_tow as int) * 1_000_000_000 <= 0xffff_ffff_ffff_ffff) by (nonlinear_arith)
                requires
                    ref_tow <= 18_446_744_073,
            ;
        }
        Self::from_reference_time_of_week_nanos(
            ref_week,
            ref_tow * 1_000_000_000,
            lhs_timescale,
            rhs_timescale,
            polynomial,
        )
    }
}

} // verus!
