//! Signed time spans with 1-nanosecond resolution.

use vstd::prelude::*;

use crate::epoch::MAX_INSTANT_NANOS;

verus! {

/// A signed span of time, counted in nanoseconds.
#[derive(Debug, Clone, Copy, PartialEq, Eq, Structural)]
pub struct Duration {
    /// Length of the span in nanoseconds; negative spans point backward.
    pub nanos: i128,
}

impl Duration {
    /// True when the span's magnitude stays within the range the correction
    /// arithmetic supports.
    pub open spec fn in_range(self) -> bool {
        -MAX_INSTANT_NANOS <= self.nanos <= MAX_INSTANT_NANOS
    }

    /// The zero-length span.
    pub fn zero() -> (r: Duration)
        ensures
            r == (Duration { nanos: 0 }),
    {
        Duration { nanos: 0 }
    }

    /// Builds a span from a nanosecond count.
    pub fn from_nanoseconds(nanos: i128) -> (r: Duration)
        ensures
            r == (Duration { nanos }),
    {
        Duration { nanos }
    }

    /// Builds a span from a second count.
    pub fn from_seconds(seconds: i64) -> (r: Duration)
        ensures
            r.nanos == seconds * 1_000_000_000,
    {
        proof {
            assert(-0x2000_0000_0000_0000_0000_0000 <= (seconds as int) * 1_000_000_000
                <= 0x2000_0000_0000_0000_0000_0000) by (nonlinear_arith)
                requires
                    i64::MIN <= seconds <= i64::MAX,
            ;
        }
        Duration { nanos: (seconds as i128) * 1_000_000_000 }
    }

    /// Builds a span from an hour count.
    pub fn from_hours(hours: i64) -> (r: Duration)
        ensures
            r.nanos == hours * 3_600_000_000_000,
    {
        proof {
            assert(-0x200_0000_0000_0000_0000_0000_0000 <= (hours as int) * 3_600_000_000_000
                <= 0x200_0000_0000_0000_0000_0000_0000) by (nonlinear_arith)
                requires
                    i64::MIN <= hours <= i64::MAX,
            ;
        }
        Duration { nanos: (hours as i128) * 3_600_000_000_000 }
    }
}

} // verus!
