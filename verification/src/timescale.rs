//! Time scale identifiers.

use vstd::prelude::*;

verus! {

/// A named timekeeping system. Time scales are closed, equality-comparable
/// domain values; the correction store keys its entries by pairs of them.
#[derive(Debug, Clone, Copy, PartialEq, Eq, Structural)]
pub enum TimeScale {
    /// Temps Atomique International.
    TAI,
    /// Terrestrial Time.
    TT,
    /// Ephemeris Time.
    ET,
    /// Dynamic Barycentric Time.
    TDB,
    /// Universal Coordinated Time.
    UTC,
    /// GPS Time.
    GPST,
    /// Galileo Time.
    GST,
    /// BeiDou Time.
    BDT,
    /// QZSS Time.
    QZSST,
}

impl TimeScale {
    /// A distinct numeric code for each scale, used to key facts that an
    /// outside library states per scale.
    pub open spec fn code(self) -> int {
        match self {
            TimeScale::TAI => 0,
            TimeScale::TT => 1,
            TimeScale::ET => 2,
            TimeScale::TDB => 3,
            TimeScale::UTC => 4,
            TimeScale::GPST => 5,
            TimeScale::GST => 6,
            TimeScale::BDT => 7,
            TimeScale::QZSST => 8,
        }
    }
}

} // verus!
