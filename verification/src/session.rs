//! The interactive session as an explicit state machine: choose a table,
//! give an amount, execute once, terminate with a single reported line.
//! The prompt widget and the store live outside; every decision between
//! two answers is made and verified here.

use crate::errors::{invalid_amount_message, invalid_granularity_message, unknown_granularity_message};
use crate::granularity::{granularity_of_label, Granularity};
use crate::executor::Table;
use crate::policy::{new_retention_period, RetentionPeriod};
use vstd::prelude::*;

verus! {

/// One row of the catalog's full table listing.
#[derive(Debug)]
pub struct CatalogEntry {
    pub name: String,
    pub partition_label: String,
}

/// Where a session stands.  It moves strictly forward: a table choice, an
/// amount, exactly one execution, and one terminal report.
#[derive(Debug)]
pub enum SessionState {
    AwaitTableChoice,
    AwaitAmount { table: Table },
    Execute { table: Table, policy: RetentionPeriod },
    Terminated { message: String, succeeded: bool },
}

pub open spec fn no_table_message() -> Seq<char> {
    "no table supplied... exiting"@
}

pub open spec fn empty_amount_message() -> Seq<char> {
    "You typed nothing"@
}

pub open spec fn table_not_found_message(wanted: Seq<char>) -> Seq<char> {
    "table not found '"@ + wanted + "'"@
}

/// The first catalog entry carrying exactly the wanted name.
pub open spec fn is_first_match(catalog: Seq<CatalogEntry>, wanted: Seq<char>, i: int) -> bool {
    0 <= i < catalog.len() && catalog[i].name@ == wanted && (forall|j: int|
        0 <= j < i ==> (#[trigger] catalog[j]).name@ != wanted)
}

/// Find the first catalog entry with exactly the wanted name.
pub fn find_table_entry(catalog: &Vec<CatalogEntry>, wanted: &str) -> (r: Option<usize>)
    ensures
        match r {
            Some(i) => is_first_match(catalog@, wanted@, i as int),
            None => forall|j: int|
                0 <= j < catalog@.len() ==> (#[trigger] catalog@[j]).name@ != wanted@,
        },
{
    let mut i: usize = 0;
    while i < catalog.len()
        invariant
            i <= catalog@.len(),
            forall|j: int| 0 <= j < i ==> (#[trigger] catalog@[j]).name@ != wanted@,
        decreases catalog@.len() - i,
    {
        if crate::text::str_eq(catalog[i].name.as_str(), wanted) {
            return Some(i);
        }
        i = i + 1;
    }
    None
}

/// Answering the table prompt.  No answer ends the session; a name with no
/// catalog entry ends it; an entry whose granularity label is outside the
/// vocabulary ends it; a table that is not time-partitioned ends it before
/// any amount is asked for.  Only a partitioned table advances.
pub fn choose_table(catalog: &Vec<CatalogEntry>, answer: Option<String>) -> (r: SessionState)
    ensures
        answer is None ==> (r matches SessionState::Terminated { message, succeeded }
            && message@ == no_table_message() && !succeeded),
        answer matches Some(wanted) ==> {
            if exists|i: int| is_first_match(catalog@, wanted@, i) {
                let i = choose|i: int| is_first_match(catalog@, wanted@, i);
                match granularity_of_label(catalog@[i].partition_label@) {
                    Option::None => (r matches SessionState::Terminated { message, succeeded }
                        && message@ == unknown_granularity_message(catalog@[i].partition_label@)
                        && !succeeded),
                    Option::Some(g) => {
                        if g == Granularity::Unpartitioned {
                            (r matches SessionState::Terminated { message, succeeded }
                                && message@ == invalid_granularity_message(g) && !succeeded)
                        } else {
                            (r matches SessionState::AwaitAmount { table }
                                && table.name@ == catalog@[i].name@ && table.granularity == g)
                        }
                    },
                }
            } else {
                (r matches SessionState::Terminated { message, succeeded }
                    && message@ == table_not_found_message(wanted@) && !succeeded)
            }
        },
{
    let wanted = match answer {
        None => {
            return SessionState::Terminated {
                message: "no table supplied... exiting".to_owned(),
                succeeded: false,
            };
        },
        Some(w) => w,
    };
    match find_table_entry(catalog, wanted.as_str()) {
        None => {
            let mut message = "table not found '".to_owned();
            message.append(wanted.as_str());
            message.append("'");
            SessionState::Terminated { message, succeeded: false }
        },
        Some(i) => {
            proof {
                let wit = i as int;
                assert(is_first_match(catalog@, wanted@, wit));
            }
            let entry = &catalog[i];
            match crate::executor::row_to_table(entry.name.clone(), entry.partition_label.as_str()) {
                Err(e) => SessionState::Terminated { message: e.message(), succeeded: false },
                Ok(table) => {
                    if matches!(table.granularity, Granularity::Unpartitioned) {
                        SessionState::Terminated {
                            message: crate::errors::ValidationError::InvalidGranularity(
                                table.granularity,
                            ).message(),
                            succeeded: false,
                        }
                    } else {
                        SessionState::AwaitAmount { table }
                    }
                },
            }
        },
    }
}

/// Answering the amount prompt.  No answer ends the session; a non-positive
/// amount ends it; a positive amount for a partitioned table validates into
/// the policy of the session's single execution.
pub fn provide_amount(table: Table, answer: Option<i64>) -> (r: SessionState)
    ensures
        ({
            match answer {
                Option::None => r matches SessionState::Terminated { message, succeeded }
                    && message@ == empty_amount_message() && !succeeded,
                Option::Some(a) => {
                    if a <= 0 {
                        r matches SessionState::Terminated { message, succeeded } && message@
                            == invalid_amount_message(a as int) && !succeeded
                    } else if table.granularity == Granularity::Unpartitioned {
                        r matches SessionState::Terminated { message, succeeded } && message@
                            == invalid_granularity_message(Granularity::Unpartitioned)
                            && !succeeded
                    } else {
                        r matches SessionState::Execute { table: t, policy } && t.name@
                            == table.name@ && t.granularity == table.granularity
                            && policy.amount_spec() == a && policy.granularity_spec()
                            == table.granularity
                    }
                },
            }
        }),
{
    match answer {
        None => SessionState::Terminated {
            message: "You typed nothing".to_owned(),
            succeeded: false,
        },
        Some(a) => match new_retention_period(a, table.granularity) {
            Err(e) => SessionState::Terminated { message: e.message(), succeeded: false },
            Ok(policy) => SessionState::Execute { table, policy },
        },
    }
}

/// The single execution's report ends the session.
pub fn finish_session(outcome: Result<String, String>) -> (r: SessionState)
    ensures
        (outcome matches Ok(s) ==> r matches SessionState::Terminated { message, succeeded }
            && message@ == s@ && succeeded),
        (outcome matches Err(s) ==> r matches SessionState::Terminated { message, succeeded }
            && message@ == s@ && !succeeded),
{
    match outcome {
        Ok(message) => SessionState::Terminated { message, succeeded: true },
        Err(message) => SessionState::Terminated { message, succeeded: false },
    }
}

} // verus!
