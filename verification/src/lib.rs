//! Quality-control traits and a verified time-correction core.
//!
//! The heart of this crate translates absolute timestamps between
//! independent time scales through a store of quadratic correction
//! models, each anchored to a reference instant.

mod absolute;
mod correction;
mod database;
mod duration;
mod epoch;
mod errors;
mod filter;
mod laws;
mod merge;
mod pipeline;
mod polynomial;
mod products;
mod repair;
mod scope;
mod search;
mod strutil;
mod time_polynomial;
mod timeshift;
mod timescale;

pub use absolute::{
    model_kept_past, model_kept_weekly, other_scale_pair, resolver_entries, GnssAbsoluteTime,
};
pub use correction::{applies_at, ref_distance, TimeCorrection};
pub use database::{kept_past, kept_weekly, TimeCorrectionsDB, WEEK_NANOS};
pub use duration::Duration;
pub use filter::mask::{mask_operand_not, mask_operand_spec, MaskOperand};
pub use filter::operand::{qc_mask_operand_not, qc_mask_operand_spec, QcMaskOperand};
pub use laws::{
    lemma_constant_offset, lemma_direct_round_trip, lemma_indirect_composition, lemma_merge_associative,
    lemma_merge_content_law, lemma_reverse_symmetry, lemma_single_forward, lemma_single_reverse,
    lemma_strict_validity,
};
pub use errors::{
    QcAngleParsingError, QcFilterError, QcPipelineError, QcScalingParsingError, QcScopeError,
    QcSelectionError,
};
pub use merge::{Merge, MergeError};
pub use epoch::{time_of_week_instant_nanos, Epoch, MAX_DT_NANOS, MAX_INSTANT_NANOS};
pub use polynomial::{lemma_tdiv_1g_close, offset_nanos, tdiv_1g, Polynomial, MAX_COEF_NANOS, MAX_OFFSET_NANOS};
pub use pipeline::parser::{token_views, tokenize_from, tokenize_spec, Parser, Token, TokenView};
pub use pipeline::operand::{
    selection_operand_not, selection_operand_spec, QcSelectionStepOperand,
};
pub use products::{product_type_spec, QcProductType};
pub use repair::QcRepair;
pub use scope::{scope_spec, QcScope, ScopeView};
pub use search::{
    apply_bb, apply_ff, apply_forward, apply_reverse, bb_pred, correction_reachable, dt_nanos_at,
    ff_pred, first_j, first_pair, first_pair_at, fwd_pred, lookup, mid_nanos_bb, mid_nanos_ff,
    nearest_in, rev_pred, usable,
};
pub use strutil::{
    after_prefix, chars_eq, eq_ignore_ascii_case, is_ascii_space, lower_char, lower_seq,
    trim_ascii, trim_spec,
};
pub use time_polynomial::TimePolynomial;
pub use timescale::TimeScale;
pub use timeshift::{TimeCorrectionError, TimeOffsetError, Timeshift};
