//! Correction entries: a quadratic model anchored to a reference instant,
//! bounded by a validity window.

use vstd::prelude::*;

use crate::duration::Duration;
use crate::epoch::{epoch_from_time_of_week, time_of_week_instant_nanos, Epoch};
use crate::polynomial::Polynomial;
use crate::timescale::TimeScale;
use crate::timeshift::TimeCorrectionError;

verus! {

/// A correction entry: the offset between two time scales, modelled by a
/// quadratic [`Polynomial`] anchored to a reference instant, authoritative
/// within a validity window centred on that instant.
///
/// The polynomial describes the offset of the left-hand scale against the
/// right-hand scale; the reference instant is conventionally expressed in
/// the left-hand scale.
#[derive(Debug, Clone, Copy, PartialEq, Eq, Structural)]
pub struct TimeCorrection {
    /// The scale the polynomial corrects from.
    pub lhs_timescale: TimeScale,
    /// The scale the polynomial corrects into.
    pub rhs_timescale: TimeScale,
    /// The instant the polynomial is anchored to.
    pub ref_epoch: Epoch,
    /// Half-width of the window, centred on the reference instant, within
    /// which this entry is authoritative.
    pub validity_period: Duration,
    /// The offset model.
    pub polynomial: Polynomial,
}

/// The absolute difference between an instant and an entry's reference
/// instant, in nanoseconds.
pub open spec fn ref_distance(c: TimeCorrection, t: Epoch) -> int {
    if t.nanos >= c.ref_epoch.nanos {
        t.nanos - c.ref_epoch.nanos
    } else {
        c.ref_epoch.nanos - t.nanos
    }
}

/// True when entry `c` is within its validity window at instant `t`:
/// `|t - reference| < validity period`.
pub open spec fn applies_at(c: TimeCorrection, t: Epoch) -> bool {
    ref_distance(c, t) < c.validity_period.nanos
}

impl TimeCorrection {
    /// True when the entry's instants and coefficients lie within the range
    /// the correction arithmetic supports.
    pub open spec fn in_range(self) -> bool {
        self.ref_epoch.in_range() && self.polynomial.in_range()
    }

    /// Defines a new entry from a reference instant, which must be expressed
    /// in the source scale: the source scale is read off its tag.
    pub fn from_reference_epoch(
        ref_epoch: Epoch,
        validity_period: Duration,
        rhs_timescale: TimeScale,
        polynomial: Polynomial,
    ) -> (r: TimeCorrection)
        ensures
            r == (TimeCorrection {
                lhs_timescale: ref_epoch.time_scale,
                rhs_timescale,
                ref_epoch,
                validity_period,
                polynomial,
            }),
    {
        TimeCorrection {
            lhs_timescale: ref_epoch.time_scale,
            rhs_timescale,
            ref_epoch,
            validity_period,
            polynomial,
        }
    }

    /// Defines a new entry from all of its parts, checking that the
    /// reference instant's scale tag agrees with the declared source scale.
    pub fn new(
        lhs_timescale: TimeScale,
        rhs_timescale: TimeScale,
        ref_epoch: Epoch,
        validity_period: Duration,
        polynomial: Polynomial,
    ) -> (r: Result<TimeCorrection, TimeCorrectionError>)
        ensures
            ref_epoch.time_scale == lhs_timescale ==> r == Ok::<_, TimeCorrectionError>(
                TimeCorrection {
                    lhs_timescale,
                    rhs_timescale,
                    ref_epoch,
                    validity_period,
                    polynomial,
                },
            ),
            ref_epoch.time_scale != lhs_timescale ==> r == Err::<TimeCorrection, _>(
                TimeCorrectionError::MalformedConstruction(lhs_timescale, ref_epoch.time_scale),
            ),
    {
        if ref_epoch.time_scale == lhs_timescale {
            Ok(
                TimeCorrection {
                    lhs_timescale,
                    rhs_timescale,
                    ref_epoch,
                    validity_period,
                    polynomial,
                },
            )
        } else {
            Err(TimeCorrectionError::MalformedConstruction(lhs_timescale, ref_epoch.time_scale))
        }
    }

    /// Defines a new entry from a reference instant expressed as a week
    /// counter and elapsed nanoseconds within that week.
    pub fn from_reference_time_of_week_nanos(
        ref_week: u32,
        ref_tow_nanos: u64,
        validity_period: Duration,
        lhs_timescale: TimeScale,
        rhs_timescale: TimeScale,
        polynomial: Polynomial,
    ) -> (r: TimeCorrection)
        ensures
            r.lhs_timescale == lhs_timescale,
            r.rhs_timescale == rhs_timescale,
            r.validity_period == validity_period,
            r.polynomial == polynomial,
            r.ref_epoch.time_scale == lhs_timescale,
            lhs_timescale != TimeScale::ET && lhs_timescale != TimeScale::TDB
                ==> r.ref_epoch.nanos as int == time_of_week_instant_nanos(
                lhs_timescale.code(),
                ref_week,
                ref_tow_nanos,
            ),
    {
        let ref_epoch = epoch_from_time_of_week(ref_week, ref_tow_nanos, lhs_timescale);
        TimeCorrection { lhs_timescale, rhs_timescale, ref_epoch, validity_period, polynomial }
    }

    /// Defines a new entry from a reference instant expressed as a week
    /// counter and elapsed seconds within that week.
    pub fn from_reference_time_of_week_seconds(
        ref_week: u32,
        ref_tow: u64,
        validity_period: Duration,
        lhs_timescale: TimeScale,
        rhs_timescale: TimeScale,
        polynomial: Polynomial,
    ) -> (r: TimeCorrection)
        requires
            ref_tow <= 18_446_744_073,
        ensures
            r.lhs_timescale == lhs_timescale,
            r.rhs_timescale == rhs_timescale,
            r.validity_period == validity_period,
            r.polynomial == polynomial,
            r.ref_epoch.time_scale == lhs_timescale,
            lhs_timescale != TimeScale::ET && lhs_timescale != TimeScale::TDB
                ==> r.ref_epoch.nanos as int == time_of_week_instant_nanos(
                lhs_timescale.code(),
                ref_week,
                (ref_tow * 1_000_000_000) as u64,
            ),
    {
        proof {
            assert((ref_tow as int) * 1_000_000_000 <= 0xffff_ffff_ffff_ffff) by (nonlinear_arith)
                requires
                    ref_tow <= 18_446_744_073,
            ;
        }
        Self::from_reference_time_of_week_nanos(
            ref_week,
            ref_tow * 1_000_000_000,
            validity_period,
            lhs_timescale,
            rhs_timescale,
            polynomial,
        )
    }

    /// True when this entry should apply at the given instant, according to
    /// its publication validity period.
    pub fn applies(&self, now: Epoch) -> (b: bool)
        ensures
            b == applies_at(*self, now),
    {
        match now.nanos.checked_sub(self.ref_epoch.nanos) {
            Some(dt) => {
                if dt >= 0 {
                    dt < self.validity_period.nanos
                } else if dt == i128::MIN {
                    false
                } else {
                    -dt < self.validity_period.nanos
                }
            },
            None => false,
        }
    }

    /// The first instant at which this entry applies: the reference instant
    /// minus the validity period.
    pub fn validity_period_start(&self) -> (r: Epoch)
        requires
            self.ref_epoch.in_range(),
            self.validity_period.in_range(),
        ensures
            r.time_scale == self.ref_epoch.time_scale,
            r.nanos == self.ref_epoch.nanos - self.validity_period.nanos,
    {
        Epoch {
            time_scale: self.ref_epoch.time_scale,
            nanos: self.ref_epoch.nanos - self.validity_period.nanos,
        }
    }

    /// The last instant at which this entry applies: the reference instant
    /// plus the validity period.
    pub fn validity_period_end(&self) -> (r: Epoch)
        requires
            self.ref_epoch.in_range(),
            self.validity_period.in_range(),
        ensures
            r.time_scale == self.ref_epoch.time_scale,
            r.nanos == self.ref_epoch.nanos + self.validity_period.nanos,
    {
        Epoch {
            time_scale: self.ref_epoch.time_scale,
            nanos: self.ref_epoch.nanos + self.validity_period.nanos,
        }
    }
}

} // verus!
