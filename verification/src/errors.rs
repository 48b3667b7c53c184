//! Error definitions of the parsing and pipeline-description layers.

use vstd::prelude::*;

verus! {

/// Errors while parsing a [`crate::QcScope`].
#[derive(Debug, Clone, Copy, PartialEq, Eq, Structural)]
pub enum QcScopeError {
    /// The description matches no scope form.
    InvalidScope,
    /// The description names no known product type.
    UnknownProductType,
}

/// Errors while describing a selection method.
#[derive(Debug, Clone, Copy, PartialEq, Eq, Structural)]
pub enum QcSelectionError {
    /// The selection step is empty.
    EmptyStep,
    /// The step's item cannot be interpreted.
    InvalidItem,
    /// The step's operand cannot be interpreted.
    InvalidOperand,
}

/// Errors while designing a processing pipeline.
#[derive(Debug, Clone, Copy, PartialEq, Eq, Structural)]
pub enum QcPipelineError {
    /// The pipeline description is empty.
    EmptyPipeline,
    /// The pipeline's scope cannot be interpreted.
    InvalidScope(QcScopeError),
    /// The pipeline's selection cannot be interpreted.
    InvalidSelection(QcSelectionError),
    /// The pipeline's operand cannot be interpreted.
    InvalidOperand,
}

/// Errors while parsing an angle description.
#[derive(Debug, Clone, Copy, PartialEq, Eq, Structural)]
pub enum QcAngleParsingError {
    /// The unit is neither degrees nor radians.
    InvalidUnit,
    /// The numeric value cannot be interpreted.
    InvalidValue,
}

/// Errors while parsing a scaling description.
#[derive(Debug, Clone, Copy, PartialEq, Eq, Structural)]
pub enum QcScalingParsingError {
    /// A numeric component cannot be interpreted.
    InvalidNumber,
}

/// Errors while parsing a filter description.
#[derive(Debug, Clone, Copy, PartialEq, Eq, Structural)]
pub enum QcFilterError {
    /// The mask operand cannot be interpreted.
    InvalidOperand,
    /// The decimation filter cannot be interpreted.
    InvalidDecimFilter,
    /// The modulo factor cannot be interpreted.
    InvalidModuloFilter,
    /// The downsampling interval cannot be interpreted.
    InvalidDuration,
    /// The mask filter cannot be interpreted.
    InvalidMaskFilter,
}

} // verus!
