//! The per-table execution pipeline: resolve the table's granularity from
//! its catalog row, validate the policy, plan the pruning statement, and
//! interpret the store's reply.  The database itself answers through the
//! reply types; every decision between two answers is made here and is
//! verified for every answer the store could give.

use crate::errors::{
    lookup_failed_message, statement_failed_message, table_error_message,
    invalid_amount_message, invalid_granularity_message, unknown_granularity_message,
    unsupported_granularity_message, LookupError, MutationError, TableError, ValidationError,
};
use crate::granularity::{granularity_of_label, parse_granularity, Granularity};
use crate::policy::{new_retention_period, RetentionPeriod};
use crate::statement::{build_prune_statement, prune_statement_text};
use crate::text::{dec_digits, render_u64};
use crate::timestamp::{compute_cutoff, cutoff_supported, unit_seconds, Timestamp};
use vstd::prelude::*;

verus! {

/// A table as one catalog row reports it.
#[derive(Debug)]
pub struct Table {
    pub name: String,
    pub granularity: Granularity,
}

/// What the catalog answered when asked for a table's row.
#[derive(Debug)]
pub enum CatalogReply {
    Row { name: String, partition_label: String },
    Failed { detail: String },
}

/// What the catalog answered when asked for a table's designated time
/// column.
#[derive(Debug)]
pub enum ColumnReply {
    Column { name: String },
    Failed { detail: String },
}

/// What the store answered to the pruning statement.
#[derive(Debug)]
pub enum StatementReply {
    Rows { count: u64 },
    Failed { detail: String },
}

/// The success line for one table.
pub open spec fn rows_deleted_message(count: int, table: Seq<char>) -> Seq<char> {
    dec_digits(count) + " rows deleted from "@ + table
}

/// Translate one catalog row into a table descriptor.  The granularity
/// label must belong to the fixed vocabulary; anything else is an error
/// carrying the label, never a default.
pub fn row_to_table(name: String, partition_label: &str) -> (r: Result<Table, ValidationError>)
    ensures
        match r {
            Ok(t) => granularity_of_label(partition_label@) == Some(t.granularity) && t.name@
                == name@,
            Err(e) => granularity_of_label(partition_label@) is None && (e matches
                ValidationError::UnknownGranularity(l) && l@ == partition_label@),
        },
{
    match parse_granularity(partition_label) {
        Ok(g) => Ok(Table { name, granularity: g }),
        Err(e) => Err(e),
    }
}

/// What resolving a policy from a catalog reply yields: the table's name
/// and granularity, or the line reported instead.
pub open spec fn policy_resolution(amount: i64, catalog: CatalogReply) -> Result<
    (Seq<char>, Granularity),
    Seq<char>,
> {
    match catalog {
        CatalogReply::Failed { detail } => Err(lookup_failed_message(detail@)),
        CatalogReply::Row { name, partition_label } => match granularity_of_label(
            partition_label@,
        ) {
            Option::None => Err(unknown_granularity_message(partition_label@)),
            Option::Some(g) => {
                if amount <= 0 {
                    Err(invalid_amount_message(amount as int))
                } else if g == Granularity::Unpartitioned {
                    Err(invalid_granularity_message(g))
                } else {
                    Ok((name@, g))
                }
            },
        },
    }
}

/// Steps one and two of a table's run: take the catalog's answer, translate
/// the row, and validate the configured amount against the discovered
/// granularity.  A failed lookup is a lookup error; everything else found
/// wrong here is a validation error, found before any mutation.
pub fn resolve_policy(amount: i64, catalog: &CatalogReply) -> (r: Result<
    (Table, RetentionPeriod),
    TableError,
>)
    ensures
        match r {
            Ok(tp) => (policy_resolution(amount, *catalog) matches Ok(ng) && tp.0.name@ == ng.0
                && tp.0.granularity == ng.1 && tp.1.amount_spec() == amount
                && tp.1.granularity_spec() == ng.1),
            Err(e) => (policy_resolution(amount, *catalog) matches Err(m) && table_error_message(e)
                == m && ((e matches TableError::Lookup(_)) <==> (*catalog matches
                CatalogReply::Failed { .. }))),
        },
{
    match catalog {
        CatalogReply::Failed { detail } => Err(
            TableError::Lookup(LookupError { detail: detail.clone() }),
        ),
        CatalogReply::Row { name, partition_label } => {
            match row_to_table(name.clone(), partition_label.as_str()) {
                Err(e) => Err(TableError::Validation(e)),
                Ok(t) => match new_retention_period(amount, t.granularity) {
                    Err(e) => Err(TableError::Validation(e)),
                    Ok(p) => Ok((t, p)),
                },
            }
        },
    }
}

/// What planning the statement yields once a policy stands: the statement's
/// exact text, or the line reported instead.  The column is resolved first,
/// as the store is asked first; only then is the cutoff computed.
pub open spec fn planned_statement(
    table: Seq<char>,
    g: Granularity,
    amount: i64,
    column: ColumnReply,
    now: Timestamp,
) -> Result<Seq<char>, Seq<char>> {
    match column {
        ColumnReply::Failed { detail } => Err(lookup_failed_message(detail@)),
        ColumnReply::Column { name } => {
            if !cutoff_supported(g) {
                Err(unsupported_granularity_message(g))
            } else {
                Ok(
                    prune_statement_text(
                        table,
                        name@,
                        now.secs_spec() - amount * unit_seconds(g),
                    ),
                )
            }
        },
    }
}

/// Steps three and four of a table's run, up to the mutation: resolve the
/// designated time column, compute the cutoff, and build the one pruning
/// statement.  Month and year reach this point and are rejected here, for
/// every amount.
pub fn plan_statement(
    table: &Table,
    policy: &RetentionPeriod,
    column: &ColumnReply,
    now: Timestamp,
) -> (r: Result<String, TableError>)
    requires
        crate::timestamp::cutoff_in_range(*policy, now),
    ensures
        match r {
            Ok(s) => (planned_statement(
                table.name@,
                policy.granularity_spec(),
                policy.amount_spec(),
                *column,
                now,
            ) matches Ok(text) && s@ == text),
            Err(e) => (planned_statement(
                table.name@,
                policy.granularity_spec(),
                policy.amount_spec(),
                *column,
                now,
            ) matches Err(m) && table_error_message(e) == m),
        },
{
    match column {
        ColumnReply::Failed { detail } => Err(
            TableError::Lookup(LookupError { detail: detail.clone() }),
        ),
        ColumnReply::Column { name } => match compute_cutoff(policy, now) {
            Err(e) => Err(TableError::Validation(e)),
            Ok(cutoff) => Ok(
                build_prune_statement(table.name.as_str(), name.as_str(), &cutoff),
            ),
        },
    }
}

/// What the store's reply to the statement concludes: the success line with
/// the count of removed rows (zero is a success), or the mutation error.
pub open spec fn statement_conclusion(table: Seq<char>, stmt: StatementReply) -> Result<
    Seq<char>,
    Seq<char>,
> {
    match stmt {
        StatementReply::Failed { detail } => Err(statement_failed_message(detail@)),
        StatementReply::Rows { count } => Ok(rows_deleted_message(count as int, table)),
    }
}

/// The last step of a table's run: fold the store's reply into the line
/// reported for the table.
pub fn conclude(table: &Table, stmt: &StatementReply) -> (r: Result<String, TableError>)
    ensures
        match r {
            Ok(s) => (statement_conclusion(table.name@, *stmt) matches Ok(t) && s@ == t),
            Err(e) => (statement_conclusion(table.name@, *stmt) matches Err(m)
                && table_error_message(e) == m),
        },
{
    match stmt {
        StatementReply::Failed { detail } => Err(
            TableError::Mutation(MutationError { detail: detail.clone() }),
        ),
        StatementReply::Rows { count } => {
            let mut s = render_u64(*count);
            s.append(" rows deleted from ");
            s.append(table.name.as_str());
            Ok(s)
        },
    }
}

/// The whole of one table's run, given the three answers the store gave:
/// the reported line, tagged success or failure.
pub open spec fn run_one_outcome(
    amount: i64,
    now: Timestamp,
    catalog: CatalogReply,
    column: ColumnReply,
    stmt: StatementReply,
) -> Result<Seq<char>, Seq<char>> {
    match policy_resolution(amount, catalog) {
        Err(m) => Err(m),
        Ok(ng) => match planned_statement(ng.0, ng.1, amount, column, now) {
            Err(m) => Err(m),
            Ok(_) => statement_conclusion(ng.0, stmt),
        },
    }
}

/// Whether the cutoff that a run would compute lies at or after the epoch.
/// Vacuous wherever the run fails before computing one.
pub open spec fn resolved_cutoff_in_range(
    amount: i64,
    catalog: CatalogReply,
    now: Timestamp,
) -> bool {
    match policy_resolution(amount, catalog) {
        Ok(ng) => cutoff_supported(ng.1) ==> amount * unit_seconds(ng.1) <= now.secs_spec(),
        Err(_) => true,
    }
}

/// One table's run over the store's answers: validation, planning and
/// conclusion composed, exactly one statement planned, every failure its
/// own reported line.
pub fn run_one(
    amount: i64,
    now: Timestamp,
    catalog: &CatalogReply,
    column: &ColumnReply,
    stmt: &StatementReply,
) -> (r: Result<String, String>)
    requires
        resolved_cutoff_in_range(amount, *catalog, now),
    ensures
        match r {
            Ok(s) => (run_one_outcome(amount, now, *catalog, *column, *stmt) matches Ok(t) && s@
                == t),
            Err(s) => (run_one_outcome(amount, now, *catalog, *column, *stmt) matches Err(m) && s@
                == m),
        },
{
    let resolved = match resolve_policy(amount, catalog) {
        Err(e) => {
            return Err(e.message());
        },
        Ok(tp) => tp,
    };
    let table = resolved.0;
    let policy = resolved.1;
    let _statement = match plan_statement(&table, &policy, column, now) {
        Err(e) => {
            return Err(e.message());
        },
        Ok(s) => s,
    };
    match conclude(&table, stmt) {
        Err(e) => Err(e.message()),
        Ok(s) => Ok(s),
    }
}

} // verus!
