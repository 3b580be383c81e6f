use retention::errors::ValidationError;
use retention::granularity::Granularity;
use retention::policy::new_retention_period;

const ALL: [Granularity; 5] = [
    Granularity::Unpartitioned,
    Granularity::Year,
    Granularity::Month,
    Granularity::Day,
    Granularity::Hour,
];

#[test]
fn non_positive_amount_fails_for_every_granularity() {
    for g in ALL {
        for amount in [0i64, -1, -7, i64::MIN] {
            match new_retention_period(amount, g) {
                Err(ValidationError::InvalidAmount(a)) => assert_eq!(a, amount),
                other => panic!("expected InvalidAmount, got {:?}", other),
            }
        }
    }
}

#[test]
fn positive_amount_for_unpartitioned_table_fails() {
    for amount in [1i64, 7, i64::MAX] {
        match new_retention_period(amount, Granularity::Unpartitioned) {
            Err(ValidationError::InvalidGranularity(Granularity::Unpartitioned)) => {}
            other => panic!("expected InvalidGranularity, got {:?}", other),
        }
    }
}

#[test]
fn positive_amount_for_partitioned_table_succeeds() {
    for g in [Granularity::Year, Granularity::Month, Granularity::Day, Granularity::Hour] {
        let p = new_retention_period(42, g).expect("validation must succeed");
        assert_eq!(p.amount(), 42);
        assert_eq!(p.granularity(), g);
    }
}

#[test]
fn invalid_amount_message_carries_the_value() {
    let e = new_retention_period(-3, Granularity::Day).unwrap_err();
    assert_eq!(e.message(), "invalid amount -3");
    let e = new_retention_period(0, Granularity::Hour).unwrap_err();
    assert_eq!(e.message(), "invalid amount 0");
}

#[test]
fn invalid_granularity_message_names_the_label() {
    let e = new_retention_period(5, Granularity::Unpartitioned).unwrap_err();
    assert_eq!(e.message(), "invalid granularity NONE");
}
