//! Input product types the quality-control layer may manage.

use vstd::prelude::*;

use crate::errors::QcScopeError;
use crate::strutil::{eq_ignore_ascii_case, lower_seq, trim_ascii, trim_spec};

verus! {

/// The product types a dataset may hold.
#[derive(Debug, Copy, Clone, PartialEq, Eq, PartialOrd, Ord, Hash, Structural)]
pub enum QcProductType {
    /// GNSS carrier signal observation, as contained in Observation RINEX
    /// data.
    Observation,
    /// Broadcast navigation message, as contained in Navigation RINEX files.
    BroadcastNavigation,
    /// High-precision orbital SP3 product.
    HighPrecisionOrbit,
    /// High-precision Clock RINEX product.
    HighPrecisionClockRINEX,
}

/// The product type a description denotes: the description is trimmed,
/// lowered to ASCII lowercase, and matched against the known names.
pub open spec fn product_type_spec(s: Seq<char>) -> Result<QcProductType, QcScopeError> {
    let lowered = lower_seq(trim_spec(s));
    if lowered == "sp3"@ {
        Ok(QcProductType::HighPrecisionOrbit)
    } else if lowered == "obs"@ || lowered == "observation"@ {
        Ok(QcProductType::Observation)
    } else if lowered == "nav"@ || lowered == "brdc"@ || lowered == "navigation"@ {
        Ok(QcProductType::BroadcastNavigation)
    } else if lowered == "clk"@ || lowered == "clock"@ {
        Ok(QcProductType::HighPrecisionClockRINEX)
    } else {
        Err(QcScopeError::UnknownProductType)
    }
}

impl QcProductType {
    /// Parses a product-type description, case-insensitively.
    pub fn from_str(s: &str) -> (r: Result<QcProductType, QcScopeError>)
        ensures
            r == product_type_spec(s@),
    {
        let trimmed = trim_ascii(s);
        if eq_ignore_ascii_case(trimmed, "sp3") {
            Ok(QcProductType::HighPrecisionOrbit)
        } else if eq_ignore_ascii_case(trimmed, "obs") || eq_ignore_ascii_case(
            trimmed,
            "observation",
        ) {
            Ok(QcProductType::Observation)
        } else if eq_ignore_ascii_case(trimmed, "nav") || eq_ignore_ascii_case(trimmed, "brdc")
            || eq_ignore_ascii_case(trimmed, "navigation") {
            Ok(QcProductType::BroadcastNavigation)
        } else if eq_ignore_ascii_case(trimmed, "clk") || eq_ignore_ascii_case(trimmed, "clock") {
            Ok(QcProductType::HighPrecisionClockRINEX)
        } else {
            Err(QcScopeError::UnknownProductType)
        }
    }
}

} // verus!
