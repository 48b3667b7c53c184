//! The operand attached to a selection step.

use vstd::prelude::*;

use crate::errors::QcSelectionError;
use crate::strutil::{chars_eq, trim_ascii, trim_spec};

verus! {

/// The comparison a selection step applies to its item.
#[derive(Debug, Clone, Copy, PartialEq, Eq, Structural)]
pub enum QcSelectionStepOperand {
    /// Greater than, symbolized by `>`.
    GreaterThan,
    /// Greater or equals, symbolized by `>=`.
    GreaterEquals,
    /// Lower than, symbolized by `<`.
    LowerThan,
    /// Lower or equals, symbolized by `<=`.
    LowerEquals,
    /// Equals, symbolized by `=`; implied whenever the operand is omitted.
    Equals,
    /// Not equals, symbolized by `!=`.
    NotEquals,
}

/// The operand a description denotes, after trimming; negation is
/// symbolized by a bare `!`.
pub open spec fn selection_operand_spec(s: Seq<char>) -> Result<
    QcSelectionStepOperand,
    QcSelectionError,
> {
    let t = trim_spec(s);
    if t == ">"@ {
        Ok(QcSelectionStepOperand::GreaterThan)
    } else if t == "!"@ {
        Ok(QcSelectionStepOperand::NotEquals)
    } else if t == "<"@ {
        Ok(QcSelectionStepOperand::LowerThan)
    } else if t == "="@ {
        Ok(QcSelectionStepOperand::Equals)
    } else if t == ">="@ {
        Ok(QcSelectionStepOperand::GreaterEquals)
    } else if t == "<="@ {
        Ok(QcSelectionStepOperand::LowerEquals)
    } else {
        Err(QcSelectionError::InvalidOperand)
    }
}

/// The opposite operand: the one selecting exactly the values this operand
/// rejects.
pub open spec fn selection_operand_not(op: QcSelectionStepOperand) -> QcSelectionStepOperand {
    match op {
        QcSelectionStepOperand::Equals => QcSelectionStepOperand::NotEquals,
        QcSelectionStepOperand::NotEquals => QcSelectionStepOperand::Equals,
        QcSelectionStepOperand::GreaterEquals => QcSelectionStepOperand::LowerEquals,
        QcSelectionStepOperand::GreaterThan => QcSelectionStepOperand::LowerThan,
        QcSelectionStepOperand::LowerThan => QcSelectionStepOperand::GreaterThan,
        QcSelectionStepOperand::LowerEquals => QcSelectionStepOperand::GreaterEquals,
    }
}

impl Default for QcSelectionStepOperand {
    /// The implied operand: equality.
    fn default() -> (r: QcSelectionStepOperand)
        ensures
            r == QcSelectionStepOperand::Equals,
    {
        QcSelectionStepOperand::Equals
    }
}

impl QcSelectionStepOperand {
    /// Parses a selection-operand symbol.
    pub fn from_str(s: &str) -> (r: Result<QcSelectionStepOperand, QcSelectionError>)
        ensures
            r == selection_operand_spec(s@),
    {
        let trimmed = trim_ascii(s);
        if chars_eq(trimmed, ">") {
            Ok(QcSelectionStepOperand::GreaterThan)
        } else if chars_eq(trimmed, "!") {
            Ok(QcSelectionStepOperand::NotEquals)
        } else if chars_eq(trimmed, "<") {
            Ok(QcSelectionStepOperand::LowerThan)
        } else if chars_eq(trimmed, "=") {
            Ok(QcSelectionStepOperand::Equals)
        } else if chars_eq(trimmed, ">=") {
            Ok(QcSelectionStepOperand::GreaterEquals)
        } else if chars_eq(trimmed, "<=") {
            Ok(QcSelectionStepOperand::LowerEquals)
        } else {
            Err(QcSelectionError::InvalidOperand)
        }
    }

    /// The symbol this operand is described by.
    pub fn symbol(&self) -> (r: &'static str)
        ensures
            match self {
                QcSelectionStepOperand::Equals => r@ == "="@,
                QcSelectionStepOperand::LowerThan => r@ == "<"@,
                QcSelectionStepOperand::NotEquals => r@ == "!="@,
                QcSelectionStepOperand::GreaterThan => r@ == ">"@,
                QcSelectionStepOperand::LowerEquals => r@ == "<="@,
                QcSelectionStepOperand::GreaterEquals => r@ == ">="@,
            },
    {
        match self {
            QcSelectionStepOperand::Equals => "=",
            QcSelectionStepOperand::LowerThan => "<",
            QcSelectionStepOperand::NotEquals => "!=",
            QcSelectionStepOperand::GreaterThan => ">",
            QcSelectionStepOperand::LowerEquals => "<=",
            QcSelectionStepOperand::GreaterEquals => ">=",
        }
    }

    /// The opposite operand.
    pub fn not(self) -> (r: QcSelectionStepOperand)
        ensures
            r == selection_operand_not(self),
    {
        match self {
            QcSelectionStepOperand::Equals => QcSelectionStepOperand::NotEquals,
            QcSelectionStepOperand::NotEquals => QcSelectionStepOperand::Equals,
            QcSelectionStepOperand::GreaterEquals => QcSelectionStepOperand::LowerEquals,
            QcSelectionStepOperand::GreaterThan => QcSelectionStepOperand::LowerThan,
            QcSelectionStepOperand::LowerThan => QcSelectionStepOperand::GreaterThan,
            QcSelectionStepOperand::LowerEquals => QcSelectionStepOperand::GreaterEquals,
        }
    }
}

} // verus!
