//! Absolute instants tagged with a time scale.

use vstd::prelude::*;

use crate::timescale::TimeScale;

verus! {

/// Largest magnitude, in nanoseconds from the origin, of an instant that the
/// correction arithmetic supports. Instants further out than roughly 73 years
/// from the origin are never selected as correction candidates, so that the
/// polynomial evaluation provably stays inside 128-bit integers.
pub const MAX_INSTANT_NANOS: i128 = 0x2000_0000_0000_0000;

/// Largest instant difference that a polynomial may be evaluated at.
pub const MAX_DT_NANOS: i128 = 2 * MAX_INSTANT_NANOS;

/// An absolute point in time with 1-nanosecond resolution, tagged with the
/// [`TimeScale`] it is expressed in.
///
/// `nanos` counts nanoseconds on a single absolute timeline, positive after
/// the origin (2000-01-01T00:00:00 TAI by the week-number constructors'
/// convention) and negative before it. Retagging an instant into another
/// scale (a "coarse" shift) changes the label only, never `nanos`: the
/// systematic sub-second bias between two scales is exactly what the
/// correction store applies.
#[derive(Debug, Clone, Copy, PartialEq, Eq, Structural)]
pub struct Epoch {
    /// The [`TimeScale`] this instant is expressed in.
    pub time_scale: TimeScale,
    /// Nanoseconds from the origin on the absolute timeline.
    pub nanos: i128,
}

impl Epoch {
    /// True when the instant lies within the range the correction
    /// arithmetic supports.
    pub open spec fn in_range(self) -> bool {
        -MAX_INSTANT_NANOS <= self.nanos <= MAX_INSTANT_NANOS
    }

    /// Builds an instant from its absolute nanosecond count and scale tag.
    pub fn new(nanos: i128, time_scale: TimeScale) -> (r: Epoch)
        ensures
            r == (Epoch { time_scale, nanos }),
    {
        Epoch { time_scale, nanos }
    }

    /// Coarse shift: relabels this instant into another scale without
    /// applying any systematic offset. The absolute time is unchanged.
    pub fn to_time_scale(&self, ts: TimeScale) -> (r: Epoch)
        ensures
            r == (Epoch { time_scale: ts, nanos: self.nanos }),
    {
        Epoch { time_scale: ts, nanos: self.nanos }
    }

    /// True when the instant lies within the supported range; the executable
    /// counterpart of [`Epoch::in_range`].
    pub fn is_in_range(&self) -> (b: bool)
        ensures
            b == self.in_range(),
    {
        -MAX_INSTANT_NANOS <= self.nanos && self.nanos <= MAX_INSTANT_NANOS
    }
}

/// The instant, in nanoseconds from this library's origin, that lies `week`
/// weeks plus `tow_nanos` nanoseconds into the week numbering of the scale
/// with code `scale_code`. The value is fixed by the outside time library;
/// nothing more is assumed of it here.
pub uninterp spec fn time_of_week_instant_nanos(scale_code: int, week: u32, tow_nanos: u64) -> int;

/// Relies on hifitime's `Epoch::from_time_of_week` (and epoch subtraction to
/// re-express the result on this library's absolute timeline): the instant a
/// given week counter plus nanoseconds-in-week denote in a scale's week
/// numbering. Outside the ET and TDB scales the conversion is integer
/// arithmetic over built-in constants and the leap-second table, so the
/// result depends on the arguments alone; the ET and TDB conversions round
/// through platform floating point, so for them only the scale tag is
/// stated.
#[verifier::external_body]
pub(crate) fn epoch_from_time_of_week(week: u32, tow_nanos: u64, scale: TimeScale) -> (r: Epoch)
    ensures
        r.time_scale == scale,
        scale != TimeScale::ET && scale != TimeScale::TDB ==> r.nanos as int
            == time_of_week_instant_nanos(scale.code(), week, tow_nanos),
{
    let ts = match scale {
        TimeScale::TAI => hifitime::TimeScale::TAI,
        TimeScale::TT => hifitime::TimeScale::TT,
        TimeScale::ET => hifitime::TimeScale::ET,
        TimeScale::TDB => hifitime::TimeScale::TDB,
        TimeScale::UTC => hifitime::TimeScale::UTC,
        TimeScale::GPST => hifitime::TimeScale::GPST,
        TimeScale::GST => hifitime::TimeScale::GST,
        TimeScale::BDT => hifitime::TimeScale::BDT,
        TimeScale::QZSST => hifitime::TimeScale::QZSST,
    };
    let e = hifitime::Epoch::from_time_of_week(week, tow_nanos, ts);
    let base = hifitime::Epoch::from_gregorian_tai_at_midnight(2000, 1, 1);
    Epoch { time_scale: scale, nanos: (e - base).total_nanoseconds() }
}

} // verus!
