use retention::batch::{run_batch, TableJob};
use retention::executor::{CatalogReply, ColumnReply, StatementReply};
use retention::timestamp::Timestamp;

fn ts(secs: i64) -> Timestamp {
    Timestamp::from_epoch_seconds(secs).expect("timestamp in range")
}

fn good_job(name: &str, label: &str, amount: i64, rows: u64) -> TableJob {
    TableJob {
        name: name.to_string(),
        amount,
        catalog: CatalogReply::Row {
            name: name.to_string(),
            partition_label: label.to_string(),
        },
        column: ColumnReply::Column { name: "ts".to_string() },
        statement: StatementReply::Rows { count: rows },
    }
}

#[test]
fn one_failing_lookup_never_aborts_the_batch() {
    // Three configured tables; the catalog fails for exactly the middle
    // one.  Every table gets exactly one entry, the failing one a lookup
    // error, the other two their normal outcome.
    let jobs = vec![
        good_job("trades", "DAY", 7, 5),
        TableJob {
            name: "orders".to_string(),
            amount: 7,
            catalog: CatalogReply::Failed { detail: "table not found".to_string() },
            column: ColumnReply::Column { name: "ts".to_string() },
            statement: StatementReply::Rows { count: 0 },
        },
        good_job("quotes", "HOUR", 48, 11),
    ];
    let results = run_batch(&jobs, ts(1717977600));
    assert_eq!(results.len(), 3);
    assert_eq!(results[0].0, "trades");
    assert_eq!(results[0].1, Ok("5 rows deleted from trades".to_string()));
    assert_eq!(results[1].0, "orders");
    assert_eq!(
        results[1].1,
        Err("catalog lookup failed: table not found".to_string())
    );
    assert_eq!(results[2].0, "quotes");
    assert_eq!(results[2].1, Ok("11 rows deleted from quotes".to_string()));
}

#[test]
fn validation_failures_are_contained_per_table_too() {
    let jobs = vec![
        good_job("trades", "DAY", 0, 5),
        good_job("events", "NONE", 7, 5),
        good_job("quotes", "WEEK", 7, 5),
        good_job("sensors", "MONTH", 2, 5),
        good_job("logs", "DAY", 1, 0),
    ];
    let results = run_batch(&jobs, ts(1717977600));
    assert_eq!(results.len(), 5);
    assert_eq!(results[0].1, Err("invalid amount 0".to_string()));
    assert_eq!(results[1].1, Err("invalid granularity NONE".to_string()));
    assert_eq!(results[2].1, Err("unknown granularity value: 'WEEK'".to_string()));
    assert_eq!(results[3].1, Err("unsupported granularity MONTH".to_string()));
    assert_eq!(results[4].1, Ok("0 rows deleted from logs".to_string()));
}

#[test]
fn empty_configuration_yields_an_empty_report() {
    let results = run_batch(&Vec::new(), ts(1717977600));
    assert!(results.is_empty());
}
