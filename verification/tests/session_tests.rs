use retention::executor::Table;
use retention::granularity::Granularity;
use retention::session::{
    choose_table, finish_session, provide_amount, CatalogEntry, SessionState,
};

fn catalog() -> Vec<CatalogEntry> {
    vec![
        CatalogEntry { name: "trades".to_string(), partition_label: "DAY".to_string() },
        CatalogEntry { name: "events".to_string(), partition_label: "NONE".to_string() },
        CatalogEntry { name: "sensors".to_string(), partition_label: "HOUR".to_string() },
    ]
}

fn terminal_error(state: SessionState) -> String {
    match state {
        SessionState::Terminated { message, succeeded } => {
            assert!(!succeeded);
            message
        }
        other => panic!("expected a terminal error, got {:?}", other),
    }
}

#[test]
fn unpartitioned_table_ends_the_session_before_any_amount() {
    // The operator picks a table whose granularity is NONE: the session
    // terminates with an error without ever reaching the amount prompt.
    let state = choose_table(&catalog(), Some("events".to_string()));
    assert_eq!(terminal_error(state), "invalid granularity NONE");
}

#[test]
fn a_partitioned_table_advances_to_the_amount_prompt() {
    match choose_table(&catalog(), Some("trades".to_string())) {
        SessionState::AwaitAmount { table } => {
            assert_eq!(table.name, "trades");
            assert_eq!(table.granularity, Granularity::Day);
        }
        other => panic!("expected AwaitAmount, got {:?}", other),
    }
}

#[test]
fn a_name_outside_the_catalog_is_terminal() {
    let state = choose_table(&catalog(), Some("nosuch".to_string()));
    assert_eq!(terminal_error(state), "table not found 'nosuch'");
}

#[test]
fn no_table_answer_is_terminal() {
    let state = choose_table(&catalog(), None);
    assert_eq!(terminal_error(state), "no table supplied... exiting");
}

#[test]
fn the_first_matching_entry_wins() {
    let mut cat = catalog();
    cat.push(CatalogEntry { name: "trades".to_string(), partition_label: "NONE".to_string() });
    match choose_table(&cat, Some("trades".to_string())) {
        SessionState::AwaitAmount { table } => assert_eq!(table.granularity, Granularity::Day),
        other => panic!("expected AwaitAmount, got {:?}", other),
    }
}

#[test]
fn no_amount_answer_is_terminal() {
    let table = Table { name: "trades".to_string(), granularity: Granularity::Day };
    let state = provide_amount(table, None);
    assert_eq!(terminal_error(state), "You typed nothing");
}

#[test]
fn non_positive_amount_is_terminal() {
    for amount in [0i64, -4] {
        let table = Table { name: "trades".to_string(), granularity: Granularity::Day };
        let state = provide_amount(table, Some(amount));
        let message = terminal_error(state);
        assert!(message.starts_with("invalid amount"), "got {:?}", message);
    }
}

#[test]
fn a_positive_amount_reaches_the_single_execution() {
    let table = Table { name: "sensors".to_string(), granularity: Granularity::Hour };
    match provide_amount(table, Some(36)) {
        SessionState::Execute { table, policy } => {
            assert_eq!(table.name, "sensors");
            assert_eq!(policy.amount(), 36);
            assert_eq!(policy.granularity(), Granularity::Hour);
        }
        other => panic!("expected Execute, got {:?}", other),
    }
}

#[test]
fn the_execution_report_ends_the_session() {
    match finish_session(Ok("9 rows deleted from trades".to_string())) {
        SessionState::Terminated { message, succeeded } => {
            assert!(succeeded);
            assert_eq!(message, "9 rows deleted from trades");
        }
        other => panic!("expected Terminated, got {:?}", other),
    }
    assert_eq!(
        terminal_error(finish_session(Err("pruning statement failed: x".to_string()))),
        "pruning statement failed: x"
    );
}
