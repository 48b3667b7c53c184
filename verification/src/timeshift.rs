//! Errors of the time-correction core, and the capability trait that
//! timestamp-bearing entities implement to delegate precise correction.

use vstd::prelude::*;

use crate::database::TimeCorrectionsDB;
use crate::epoch::Epoch;
use crate::search::{correction_reachable, lookup};
use crate::timescale::TimeScale;

verus! {

/// Failure of a precise time-scale correction.
#[derive(Debug, Clone, Copy, PartialEq, Eq, Structural)]
pub enum TimeCorrectionError {
    /// No direct or composable indirect correction model connects the two
    /// scales (source first, target second); in a strict-validity store this
    /// also covers models whose validity window has lapsed. The caller may
    /// retry once new entries arrive, or fall back to a coarse shift.
    NoCorrectionAvailable(TimeScale, TimeScale),
    /// An entry was supplied whose reference instant's scale tag (second)
    /// disagrees with its declared source scale (first): a programmer error
    /// caught at construction time.
    MalformedConstruction(TimeScale, TimeScale),
}

/// Failure of a week-anchored time-offset interpolation.
#[derive(Debug, Clone, Copy, PartialEq, Eq, Structural)]
pub enum TimeOffsetError {
    /// Week-anchored polynomial terms only apply within their own week; the
    /// queried instant falls in a different week than the reference.
    OutdatedWeeklyPolynomials,
}

/// The capability a timestamp-bearing entity implements to transpose its
/// instants into other time scales: a coarse relabelling that always
/// succeeds, and a precise correction that delegates to a
/// [`TimeCorrectionsDB`] and fails as a whole when any contained instant's
/// scale pair is unreachable.
pub trait Timeshift: Sized {
    /// Coarse transposition into the desired scale, without mutable access:
    /// every contained instant is relabelled, ignoring systematic offsets.
    fn timeshift(&self, timescale: TimeScale) -> Self;

    /// Coarse transposition into the desired scale, in place.
    fn timeshift_mut(&mut self, timescale: TimeScale);

    /// Precise transposition into the desired scale, without mutable
    /// access, taking the actual time-scale states of `db` into account.
    fn precise_correction(&self, db: &TimeCorrectionsDB, target: TimeScale) -> Result<
        Self,
        TimeCorrectionError,
    >;

    /// Precise transposition into the desired scale, in place, taking the
    /// actual time-scale states of `db` into account.
    fn precise_correction_mut(&mut self, db: &TimeCorrectionsDB, target: TimeScale) -> Result<
        (),
        TimeCorrectionError,
    >;
}

impl Timeshift for Epoch {
    /// The coarse shift of a bare instant: [`Epoch::to_time_scale`].
    fn timeshift(&self, timescale: TimeScale) -> (r: Epoch)
        ensures
            r.time_scale == timescale,
            r.nanos == self.nanos,
    {
        self.to_time_scale(timescale)
    }

    /// Relabels this instant in place.
    fn timeshift_mut(&mut self, timescale: TimeScale)
        ensures
            final(self).time_scale == timescale,
            final(self).nanos == old(self).nanos,
    {
        *self = self.to_time_scale(timescale);
    }

    /// The precise correction of a bare instant: the store's three-tier
    /// search, with its failure reported as
    /// [`TimeCorrectionError::NoCorrectionAvailable`] carrying the source
    /// and target scales.
    fn precise_correction(&self, db: &TimeCorrectionsDB, target: TimeScale) -> (r: Result<
        Epoch,
        TimeCorrectionError,
    >)
        ensures
            correction_reachable(db.is_strict(), db.entries(), *self, target) ==> r == Ok::<
                _,
                TimeCorrectionError,
            >(lookup(db.is_strict(), db.entries(), *self, target).unwrap()),
            !correction_reachable(db.is_strict(), db.entries(), *self, target) ==> r == Err::<
                Epoch,
                _,
            >(TimeCorrectionError::NoCorrectionAvailable(self.time_scale, target)),
    {
        match db.precise_epoch_correction(*self, target) {
            Some(corrected) => Ok(corrected),
            None => Err(TimeCorrectionError::NoCorrectionAvailable(self.time_scale, target)),
        }
    }

    /// Precisely corrects this instant in place.
    fn precise_correction_mut(&mut self, db: &TimeCorrectionsDB, target: TimeScale) -> (r: Result<
        (),
        TimeCorrectionError,
    >)
        ensures
            correction_reachable(db.is_strict(), db.entries(), *old(self), target) ==> r
                == Ok::<(), TimeCorrectionError>(()) && Some(*final(self)) == lookup(
                db.is_strict(),
                db.entries(),
                *old(self),
                target,
            ),
            !correction_reachable(db.is_strict(), db.entries(), *old(self), target) ==> r == Err::<
                (),
                _,
            >(TimeCorrectionError::NoCorrectionAvailable(old(self).time_scale, target))
                && *final(self) == *old(self),
    {
        match db.precise_epoch_correction(*self, target) {
            Some(corrected) => {
                *self = corrected;
                Ok(())
            },
            None => Err(TimeCorrectionError::NoCorrectionAvailable(self.time_scale, target)),
        }
    }
}

} // verus!
