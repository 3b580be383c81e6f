//! Error taxonomy, one tagged type per layer: validation errors are found
//! before any database mutation, lookup errors come from the catalog, and
//! mutation errors come from the pruning statement itself.

use crate::granularity::{granularity_label, Granularity};
use crate::text::{render_i64, signed_dec_digits};
use vstd::prelude::*;

verus! {

/// A policy or a granularity label was rejected before anything was done
/// to the database.  Each variant carries the offending value.
#[derive(Debug, Clone)]
pub enum ValidationError {
    /// The requested retention amount was not positive.
    InvalidAmount(i64),
    /// A policy was requested for a table that is not time-partitioned.
    InvalidGranularity(Granularity),
    /// The granularity cannot be turned into a fixed-length cutoff.
    UnsupportedGranularity(Granularity),
    /// A catalog label outside the fixed vocabulary.
    UnknownGranularity(String),
}

/// The catalog could not answer for a table: it does not exist, or the
/// catalog itself failed.  Carries the store's own description.
#[derive(Debug, Clone)]
pub struct LookupError {
    pub detail: String,
}

/// The pruning statement was submitted and the store refused it.
#[derive(Debug, Clone)]
pub struct MutationError {
    pub detail: String,
}

/// A per-table failure, folded from whichever layer it arose in.
#[derive(Debug, Clone)]
pub enum TableError {
    Validation(ValidationError),
    Lookup(LookupError),
    Mutation(MutationError),
}

pub open spec fn invalid_amount_message(a: int) -> Seq<char> {
    "invalid amount "@ + signed_dec_digits(a)
}

pub open spec fn invalid_granularity_message(g: Granularity) -> Seq<char> {
    "invalid granularity "@ + granularity_label(g)
}

pub open spec fn unsupported_granularity_message(g: Granularity) -> Seq<char> {
    "unsupported granularity "@ + granularity_label(g)
}

pub open spec fn unknown_granularity_message(label: Seq<char>) -> Seq<char> {
    "unknown granularity value: '"@ + label + "'"@
}

pub open spec fn validation_message(e: ValidationError) -> Seq<char> {
    match e {
        ValidationError::InvalidAmount(a) => invalid_amount_message(a as int),
        ValidationError::InvalidGranularity(g) => invalid_granularity_message(g),
        ValidationError::UnsupportedGranularity(g) => unsupported_granularity_message(g),
        ValidationError::UnknownGranularity(label) => unknown_granularity_message(label@),
    }
}

pub open spec fn lookup_failed_message(detail: Seq<char>) -> Seq<char> {
    "catalog lookup failed: "@ + detail
}

pub open spec fn statement_failed_message(detail: Seq<char>) -> Seq<char> {
    "pruning statement failed: "@ + detail
}

pub open spec fn table_error_message(e: TableError) -> Seq<char> {
    match e {
        TableError::Validation(v) => validation_message(v),
        TableError::Lookup(l) => lookup_failed_message(l.detail@),
        TableError::Mutation(m) => statement_failed_message(m.detail@),
    }
}

impl ValidationError {
    /// The human-readable line reported for this rejection.
    pub fn message(&self) -> (r: String)
        ensures
            r@ == validation_message(*self),
    {
        match self {
            ValidationError::InvalidAmount(a) => {
                let mut s = "invalid amount ".to_owned();
                s.append(render_i64(*a).as_str());
                s
            },
            ValidationError::InvalidGranularity(g) => {
                let mut s = "invalid granularity ".to_owned();
                s.append(crate::granularity::format_granularity(*g).as_str());
                s
            },
            ValidationError::UnsupportedGranularity(g) => {
                let mut s = "unsupported granularity ".to_owned();
                s.append(crate::granularity::format_granularity(*g).as_str());
                s
            },
            ValidationError::UnknownGranularity(label) => {
                let mut s = "unknown granularity value: '".to_owned();
                s.append(label.as_str());
                s.append("'");
                s
            },
        }
    }
}

impl LookupError {
    /// The human-readable line reported for this lookup failure.
    pub fn message(&self) -> (r: String)
        ensures
            r@ == lookup_failed_message(self.detail@),
    {
        let mut s = "catalog lookup failed: ".to_owned();
        s.append(self.detail.as_str());
        s
    }
}

impl MutationError {
    /// The human-readable line reported for this statement failure.
    pub fn message(&self) -> (r: String)
        ensures
            r@ == statement_failed_message(self.detail@),
    {
        let mut s = "pruning statement failed: ".to_owned();
        s.append(self.detail.as_str());
        s
    }
}

impl TableError {
    /// The human-readable line for whichever layer failed.
    pub fn message(&self) -> (r: String)
        ensures
            r@ == table_error_message(*self),
    {
        match self {
            TableError::Validation(v) => v.message(),
            TableError::Lookup(l) => l.message(),
            TableError::Mutation(m) => m.message(),
        }
    }
}

} // verus!
