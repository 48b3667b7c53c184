//! The first-generation mask operand.

use vstd::prelude::*;

use crate::errors::QcFilterError;
use crate::strutil::{chars_eq, trim_ascii, trim_spec};

verus! {

/// How a mask is applied to the values it tests.
#[derive(Debug, Clone, PartialEq, Eq, Structural)]
pub enum MaskOperand {
    /// Greater than, symbolized by `>`.
    GreaterThan,
    /// Greater or equals, symbolized by `>=`.
    GreaterEquals,
    /// Lower than, symbolized by `<`.
    LowerThan,
    /// Lower or equals, symbolized by `<=`.
    LowerEquals,
    /// Equals, symbolized by `=`; implied whenever the operand is omitted.
    Equals,
    /// Not equals, symbolized by `!=`.
    NotEquals,
}

/// The operand a description denotes, after trimming.
pub open spec fn mask_operand_spec(s: Seq<char>) -> Result<MaskOperand, QcFilterError> {
    let t = trim_spec(s);
    if t == ">"@ {
        Ok(MaskOperand::GreaterThan)
    } else if t == "<"@ {
        Ok(MaskOperand::LowerThan)
    } else if t == "="@ {
        Ok(MaskOperand::Equals)
    } else if t == "!="@ {
        Ok(MaskOperand::NotEquals)
    } else if t == ">="@ {
        Ok(MaskOperand::GreaterEquals)
    } else if t == "<="@ {
        Ok(MaskOperand::LowerEquals)
    } else {
        Err(QcFilterError::InvalidOperand)
    }
}

/// The opposite operand: the one selecting exactly the values this operand
/// rejects.
pub open spec fn mask_operand_not(op: MaskOperand) -> MaskOperand {
    match op {
        MaskOperand::Equals => MaskOperand::NotEquals,
        MaskOperand::NotEquals => MaskOperand::Equals,
        MaskOperand::GreaterEquals => MaskOperand::LowerEquals,
        MaskOperand::GreaterThan => MaskOperand::LowerThan,
        MaskOperand::LowerThan => MaskOperand::GreaterThan,
        MaskOperand::LowerEquals => MaskOperand::GreaterEquals,
    }
}

impl MaskOperand {
    /// Parses a mask-operand symbol.
    pub fn from_str(s: &str) -> (r: Result<MaskOperand, QcFilterError>)
        ensures
            r == mask_operand_spec(s@),
    {
        let trimmed = trim_ascii(s);
        if chars_eq(trimmed, ">") {
            Ok(MaskOperand::GreaterThan)
        } else if chars_eq(trimmed, "<") {
            Ok(MaskOperand::LowerThan)
        } else if chars_eq(trimmed, "=") {
            Ok(MaskOperand::Equals)
        } else if chars_eq(trimmed, "!=") {
            Ok(MaskOperand::NotEquals)
        } else if chars_eq(trimmed, ">=") {
            Ok(MaskOperand::GreaterEquals)
        } else if chars_eq(trimmed, "<=") {
            Ok(MaskOperand::LowerEquals)
        } else {
            Err(QcFilterError::InvalidOperand)
        }
    }

    /// The opposite operand.
    pub fn not(self) -> (r: MaskOperand)
        ensures
            r == mask_operand_not(self),
    {
        match self {
            MaskOperand::Equals => MaskOperand::NotEquals,
            MaskOperand::NotEquals => MaskOperand::Equals,
            MaskOperand::GreaterEquals => MaskOperand::LowerEquals,
            MaskOperand::GreaterThan => MaskOperand::LowerThan,
            MaskOperand::LowerThan => MaskOperand::GreaterThan,
            MaskOperand::LowerEquals => MaskOperand::GreaterEquals,
        }
    }
}

} // verus!
