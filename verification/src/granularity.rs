//! The partitioning unit of a table, together with its exact, case-sensitive
//! textual vocabulary as the catalog stores it.

use crate::errors::ValidationError;
use crate::text::str_eq;
use vstd::prelude::*;

verus! {

/// The unit by which a table's partitions are bucketed.  `Unpartitioned`
/// stands for the catalog label `NONE`: the table is not time-partitioned
/// and there is nothing to prune.
#[derive(Debug, Clone, Copy, PartialEq, Eq, Structural)]
pub enum Granularity {
    Unpartitioned,
    Year,
    Month,
    Day,
    Hour,
}

/// The catalog's textual form of a granularity.
pub open spec fn granularity_label(g: Granularity) -> Seq<char> {
    match g {
        Granularity::Unpartitioned => "NONE"@,
        Granularity::Year => "YEAR"@,
        Granularity::Month => "MONTH"@,
        Granularity::Day => "DAY"@,
        Granularity::Hour => "HOUR"@,
    }
}

/// Which granularity, if any, a catalog label denotes.  Anything outside
/// the five fixed strings denotes none: no fuzzy matching, no default.
pub open spec fn granularity_of_label(s: Seq<char>) -> Option<Granularity> {
    if s == "NONE"@ {
        Some(Granularity::Unpartitioned)
    } else if s == "YEAR"@ {
        Some(Granularity::Year)
    } else if s == "MONTH"@ {
        Some(Granularity::Month)
    } else if s == "DAY"@ {
        Some(Granularity::Day)
    } else if s == "HOUR"@ {
        Some(Granularity::Hour)
    } else {
        None
    }
}

/// Parse a catalog label.  An exact, case-sensitive match against the fixed
/// vocabulary; any other string is a parse failure carrying the label.
pub fn parse_granularity(s: &str) -> (r: Result<Granularity, ValidationError>)
    ensures
        match r {
            Ok(g) => granularity_of_label(s@) == Some(g),
            Err(e) => granularity_of_label(s@) is None && (e matches
                ValidationError::UnknownGranularity(t) && t@ == s@),
        },
{
    if str_eq(s, "NONE") {
        Ok(Granularity::Unpartitioned)
    } else if str_eq(s, "YEAR") {
        Ok(Granularity::Year)
    } else if str_eq(s, "MONTH") {
        Ok(Granularity::Month)
    } else if str_eq(s, "DAY") {
        Ok(Granularity::Day)
    } else if str_eq(s, "HOUR") {
        Ok(Granularity::Hour)
    } else {
        Err(ValidationError::UnknownGranularity(s.to_owned()))
    }
}

/// Render a granularity in its catalog form, the exact inverse of
/// [`parse_granularity`].
pub fn format_granularity(g: Granularity) -> (r: String)
    ensures
        r@ == granularity_label(g),
{
    match g {
        Granularity::Unpartitioned => "NONE".to_owned(),
        Granularity::Year => "YEAR".to_owned(),
        Granularity::Month => "MONTH".to_owned(),
        Granularity::Day => "DAY".to_owned(),
        Granularity::Hour => "HOUR".to_owned(),
    }
}

/// The textual round trip is exact: formatting a granularity yields a label
/// that parses back to it, and any label that parses formats back to itself.
pub proof fn lemma_granularity_round_trip(g: Granularity, s: Seq<char>)
    ensures
        granularity_of_label(granularity_label(g)) == Some(g),
        granularity_of_label(s) matches Some(h) ==> granularity_label(h) == s,
{
    reveal_strlit("NONE");
    reveal_strlit("YEAR");
    reveal_strlit("MONTH");
    reveal_strlit("DAY");
    reveal_strlit("HOUR");
    assert("NONE"@[0] == 'N' && "YEAR"@[0] == 'Y' && "MONTH"@[0] == 'M' && "DAY"@[0] == 'D'
        && "HOUR"@[0] == 'H');
}

} // verus!
