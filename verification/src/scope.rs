//! Scopes: the part of a dataset an operation focuses on.

use vstd::prelude::*;

use crate::errors::QcScopeError;
use crate::products::{product_type_spec, QcProductType};
use crate::strutil::{after_prefix, trim_ascii, trim_spec};

verus! {

/// The part of a dataset an operation may focus on.
///
/// A scope is described by a product-type name (any form
/// [`QcProductType::from_str`] accepts), or one of the prefixed forms
/// `ag:`/`agency:` for a publishing agency, `op:`/`operator:` for an
/// operator, and `file:` for a file name.
#[derive(Debug, Clone, PartialEq)]
pub enum QcScope {
    /// The whole dataset: the non-restrictive scope.
    All,
    /// One product type (file type).
    ProductType(QcProductType),
    /// One file, by name.
    FileName(String),
    /// One agency (publisher), by name.
    Agency(String),
    /// One operator (person), by name; "observer" in RINEX terminology.
    Operator(String),
}

/// The mathematical shape of a [`QcScope`], with character sequences for
/// the name payloads.
pub enum ScopeView {
    /// The non-restrictive scope.
    All,
    /// One product type.
    ProductType(QcProductType),
    /// One file, by name.
    FileName(Seq<char>),
    /// One agency, by name.
    Agency(Seq<char>),
    /// One operator, by name.
    Operator(Seq<char>),
}

impl View for QcScope {
    type V = ScopeView;

    open spec fn view(&self) -> ScopeView {
        match self {
            QcScope::All => ScopeView::All,
            QcScope::ProductType(p) => ScopeView::ProductType(*p),
            QcScope::FileName(name) => ScopeView::FileName(name@),
            QcScope::Agency(name) => ScopeView::Agency(name@),
            QcScope::Operator(name) => ScopeView::Operator(name@),
        }
    }
}

impl Default for QcScope {
    /// The non-restrictive scope.
    fn default() -> (r: QcScope)
        ensures
            r == QcScope::All,
    {
        QcScope::All
    }
}

/// The scope a description denotes: a product-type name, or one of the
/// prefixed forms with a non-empty payload, tried in this order.
pub open spec fn scope_spec(s: Seq<char>) -> Result<ScopeView, QcScopeError> {
    let t = trim_spec(s);
    if product_type_spec(t) is Ok {
        Ok(ScopeView::ProductType(product_type_spec(t).unwrap()))
    } else if t.len() > "ag:"@.len() && t.take("ag:"@.len() as int) == "ag:"@ {
        Ok(ScopeView::Agency(t.skip("ag:"@.len() as int)))
    } else if t.len() > "agency:"@.len() && t.take("agency:"@.len() as int) == "agency:"@ {
        Ok(ScopeView::Agency(t.skip("agency:"@.len() as int)))
    } else if t.len() > "operator:"@.len() && t.take("operator:"@.len() as int) == "operator:"@ {
        Ok(ScopeView::Operator(t.skip("operator:"@.len() as int)))
    } else if t.len() > "op:"@.len() && t.take("op:"@.len() as int) == "op:"@ {
        Ok(ScopeView::Operator(t.skip("op:"@.len() as int)))
    } else if t.len() > "file:"@.len() && t.take("file:"@.len() as int) == "file:"@ {
        Ok(ScopeView::FileName(t.skip("file:"@.len() as int)))
    } else {
        Err(QcScopeError::InvalidScope)
    }
}

impl QcScope {
    /// Parses a scope description.
    pub fn from_str(s: &str) -> (r: Result<QcScope, QcScopeError>)
        ensures
            match r {
                Ok(scope) => scope_spec(s@) matches Ok(v) && scope@ == v,
                Err(e) => scope_spec(s@) == Err::<ScopeView, QcScopeError>(e),
            },
    {
        let trimmed = trim_ascii(s);
        if let Ok(product) = QcProductType::from_str(trimmed) {
            return Ok(QcScope::ProductType(product));
        }
        if let Some(rest) = after_prefix(trimmed, "ag:") {
            if !rest.is_empty() {
                return Ok(QcScope::Agency(rest.to_owned()));
            }
        }
        if let Some(rest) = after_prefix(trimmed, "agency:") {
            if !rest.is_empty() {
                return Ok(QcScope::Agency(rest.to_owned()));
            }
        }
        if let Some(rest) = after_prefix(trimmed, "operator:") {
            if !rest.is_empty() {
                return Ok(QcScope::Operator(rest.to_owned()));
            }
        }
        if let Some(rest) = after_prefix(trimmed, "op:") {
            if !rest.is_empty() {
                return Ok(QcScope::Operator(rest.to_owned()));
            }
        }
        if let Some(rest) = after_prefix(trimmed, "file:") {
            if !rest.is_empty() {
                return Ok(QcScope::FileName(rest.to_owned()));
            }
        }
        Err(QcScopeError::InvalidScope)
    }
}

} // verus!
