use retention::executor::{
    conclude, plan_statement, resolve_policy, row_to_table, run_one, CatalogReply, ColumnReply,
    StatementReply, Table,
};
use retention::errors::TableError;
use retention::granularity::Granularity;
use retention::policy::new_retention_period;
use retention::statement::{build_prune_statement, build_timestamp_col_query};
use retention::timestamp::{compute_cutoff, Timestamp};

fn ts(secs: i64) -> Timestamp {
    Timestamp::from_epoch_seconds(secs).expect("timestamp in range")
}

const JUNE_TENTH: i64 = 1717977600; // 2024-06-10T00:00:00Z

#[test]
fn pruning_statement_for_trades_targets_the_exact_cutoff() {
    // Seven days of retention evaluated at 2024-06-10T00:00:00Z prune
    // everything before 2024-06-03T00:00:00Z, spelled out to the second.
    let policy = new_retention_period(7, Granularity::Day).unwrap();
    let cutoff = compute_cutoff(&policy, ts(JUNE_TENTH)).unwrap();
    assert_eq!(cutoff.epoch_seconds(), 1717372800);
    let statement = build_prune_statement("trades", "timestamp", &cutoff);
    assert_eq!(
        statement,
        "ALTER TABLE trades DROP PARTITION WHERE timestamp < \
         to_timestamp('2024-06-03:00:00:00', 'yyyy-MM-dd:HH:mm:ss')"
    );
}

#[test]
fn full_run_for_trades_reports_the_deleted_rows() {
    let outcome = run_one(
        7,
        ts(JUNE_TENTH),
        &CatalogReply::Row { name: "trades".to_string(), partition_label: "DAY".to_string() },
        &ColumnReply::Column { name: "timestamp".to_string() },
        &StatementReply::Rows { count: 128 },
    );
    assert_eq!(outcome, Ok("128 rows deleted from trades".to_string()));
}

#[test]
fn zero_rows_removed_is_a_success() {
    let table = Table { name: "trades".to_string(), granularity: Granularity::Day };
    let line = conclude(&table, &StatementReply::Rows { count: 0 }).unwrap();
    assert_eq!(line, "0 rows deleted from trades");
}

#[test]
fn statement_failure_is_a_mutation_error() {
    let table = Table { name: "trades".to_string(), granularity: Granularity::Day };
    let e = conclude(&table, &StatementReply::Failed { detail: "disk full".to_string() })
        .unwrap_err();
    assert!(matches!(e, TableError::Mutation(_)));
    assert_eq!(e.message(), "pruning statement failed: disk full");
}

#[test]
fn failed_catalog_lookup_is_a_lookup_error() {
    let e = resolve_policy(
        7,
        &CatalogReply::Failed { detail: "no such table".to_string() },
    )
    .unwrap_err();
    assert!(matches!(e, TableError::Lookup(_)));
    assert_eq!(e.message(), "catalog lookup failed: no such table");
}

#[test]
fn unknown_catalog_label_is_a_validation_error() {
    let e = resolve_policy(
        7,
        &CatalogReply::Row { name: "trades".to_string(), partition_label: "WEEK".to_string() },
    )
    .unwrap_err();
    assert!(matches!(e, TableError::Validation(_)));
    assert_eq!(e.message(), "unknown granularity value: 'WEEK'");
}

#[test]
fn column_failure_comes_before_the_unsupported_check() {
    // The column is resolved first, as the store is asked first: a failed
    // column lookup is reported even for a granularity with no cutoff.
    let table = Table { name: "trades".to_string(), granularity: Granularity::Month };
    let policy = new_retention_period(3, Granularity::Month).unwrap();
    let e = plan_statement(
        &table,
        &policy,
        &ColumnReply::Failed { detail: "catalog offline".to_string() },
        ts(JUNE_TENTH),
    )
    .unwrap_err();
    assert_eq!(e.message(), "catalog lookup failed: catalog offline");
    let e = plan_statement(
        &table,
        &policy,
        &ColumnReply::Column { name: "ts".to_string() },
        ts(JUNE_TENTH),
    )
    .unwrap_err();
    assert_eq!(e.message(), "unsupported granularity MONTH");
}

#[test]
fn row_translation_keeps_name_and_granularity() {
    let t = row_to_table("sensors".to_string(), "HOUR").unwrap();
    assert_eq!(t.name, "sensors");
    assert_eq!(t.granularity, Granularity::Hour);
    assert!(row_to_table("sensors".to_string(), "weekly").is_err());
}

#[test]
fn column_query_embeds_the_table_name() {
    assert_eq!(
        build_timestamp_col_query("trades"),
        "SELECT designatedTimestamp FROM tables() WHERE name='trades'"
    );
}
