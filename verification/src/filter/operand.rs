//! The second-generation mask operand.

use vstd::prelude::*;

use crate::errors::QcFilterError;
use crate::strutil::{chars_eq, trim_ascii, trim_spec};

verus! {

/// How a mask is applied to the values it tests.
#[derive(Debug, Clone, Copy, PartialEq, Eq, Structural)]
pub enum QcMaskOperand {
    /// Greater than, symbolized by `>`.
    GreaterThan,
    /// Greater or equals, symbolized by `>=`.
    GreaterEquals,
    /// Lower than, symbolized by `<`.
    LowerThan,
    /// Lower or equals, symbolized by `<=`.
    LowerEquals,
    /// Equals, symbolized by `=`; implied whenever the operand is omitted.
    Equals,
    /// Not equals, symbolized by `!=`.
    NotEquals,
}

/// The operand a description denotes, after trimming. Unlike the
/// first-generation [`crate::MaskOperand`], negation is symbolized by a
/// bare `!`.
pub open spec fn qc_mask_operand_spec(s: Seq<char>) -> Result<QcMaskOperand, QcFilterError> {
    let t = trim_spec(s);
    if t == ">"@ {
        Ok(QcMaskOperand::GreaterThan)
    } else if t == "!"@ {
        Ok(QcMaskOperand::NotEquals)
    } else if t == "<"@ {
        Ok(QcMaskOperand::LowerThan)
    } else if t == "="@ {
        Ok(QcMaskOperand::Equals)
    } else if t == ">="@ {
        Ok(QcMaskOperand::GreaterEquals)
    } else if t == "<="@ {
        Ok(QcMaskOperand::LowerEquals)
    } else {
        Err(QcFilterError::InvalidOperand)
    }
}

/// The opposite operand: the one selecting exactly the values this operand
/// rejects.
pub open spec fn qc_mask_operand_not(op: QcMaskOperand) -> QcMaskOperand {
    match op {
        QcMaskOperand::Equals => QcMaskOperand::NotEquals,
        QcMaskOperand::NotEquals => QcMaskOperand::Equals,
        QcMaskOperand::GreaterEquals => QcMaskOperand::LowerEquals,
        QcMaskOperand::GreaterThan => QcMaskOperand::LowerThan,
        QcMaskOperand::LowerThan => QcMaskOperand::GreaterThan,
        QcMaskOperand::LowerEquals => QcMaskOperand::GreaterEquals,
    }
}

impl Default for QcMaskOperand {
    /// The implied operand: equality.
    fn default() -> (r: QcMaskOperand)
        ensures
            r == QcMaskOperand::Equals,
    {
        QcMaskOperand::Equals
    }
}

impl QcMaskOperand {
    /// Parses a mask-operand symbol.
    pub fn from_str(s: &str) -> (r: Result<QcMaskOperand, QcFilterError>)
        ensures
            r == qc_mask_operand_spec(s@),
    {
        let trimmed = trim_ascii(s);
        if chars_eq(trimmed, ">") {
            Ok(QcMaskOperand::GreaterThan)
        } else if chars_eq(trimmed, "!") {
            Ok(QcMaskOperand::NotEquals)
        } else if chars_eq(trimmed, "<") {
            Ok(QcMaskOperand::LowerThan)
        } else if chars_eq(trimmed, "=") {
            Ok(QcMaskOperand::Equals)
        } else if chars_eq(trimmed, ">=") {
            Ok(QcMaskOperand::GreaterEquals)
        } else if chars_eq(trimmed, "<=") {
            Ok(QcMaskOperand::LowerEquals)
        } else {
            Err(QcFilterError::InvalidOperand)
        }
    }

    /// The opposite operand.
    pub fn not(self) -> (r: QcMaskOperand)
        ensures
            r == qc_mask_operand_not(self),
    {
        match self {
            QcMaskOperand::Equals => QcMaskOperand::NotEquals,
            QcMaskOperand::NotEquals => QcMaskOperand::Equals,
            QcMaskOperand::GreaterEquals => QcMaskOperand::LowerEquals,
            QcMaskOperand::GreaterThan => QcMaskOperand::LowerThan,
            QcMaskOperand::LowerThan => QcMaskOperand::GreaterThan,
            QcMaskOperand::LowerEquals => QcMaskOperand::GreaterEquals,
        }
    }
}

} // verus!
