//! The exact text handed to the database: the catalog queries and the
//! single pruning statement per table.

use crate::timestamp::{timestamp_text, Timestamp};
use vstd::prelude::*;

verus! {

/// The catalog query for one table's full row, with the name bound as the
/// single statement parameter.
pub open spec fn catalog_row_query_text() -> Seq<char> {
    "SELECT * FROM tables() WHERE name=$1"@
}

pub fn catalog_row_query() -> (r: String)
    ensures
        r@ == catalog_row_query_text(),
{
    "SELECT * FROM tables() WHERE name=$1".to_owned()
}

/// The catalog query listing every table.
pub open spec fn all_tables_query_text() -> Seq<char> {
    "tables()"@
}

pub fn all_tables_query() -> (r: String)
    ensures
        r@ == all_tables_query_text(),
{
    "tables()".to_owned()
}

/// The catalog query for a table's designated time column.
pub open spec fn timestamp_col_query_text(table: Seq<char>) -> Seq<char> {
    "SELECT designatedTimestamp FROM tables() WHERE name='"@ + table + "'"@
}

pub fn build_timestamp_col_query(table: &str) -> (r: String)
    ensures
        r@ == timestamp_col_query_text(table@),
{
    let mut s = "SELECT designatedTimestamp FROM tables() WHERE name='".to_owned();
    s.append(table);
    s.append("'");
    s
}

/// The one mutating statement per table: drop every partition of `table`
/// whose designated time column lies entirely before the cutoff, rendered
/// in the fixed UTC format.
pub open spec fn prune_statement_text(table: Seq<char>, column: Seq<char>, cutoff: int) -> Seq<
    char,
> {
    "ALTER TABLE "@ + table + " DROP PARTITION WHERE "@ + column + " < to_timestamp('"@
        + timestamp_text(cutoff) + "', 'yyyy-MM-dd:HH:mm:ss')"@
}

pub fn build_prune_statement(table: &str, column: &str, cutoff: &Timestamp) -> (r: String)
    ensures
        r@ == prune_statement_text(table@, column@, cutoff.secs_spec() as int),
{
    let mut s = "ALTER TABLE ".to_owned();
    s.append(table);
    s.append(" DROP PARTITION WHERE ");
    s.append(column);
    s.append(" < to_timestamp('");
    s.append(crate::timestamp::format_timestamp(cutoff).as_str());
    s.append("', 'yyyy-MM-dd:HH:mm:ss')");
    s
}

} // verus!
