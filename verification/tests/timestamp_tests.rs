use retention::errors::ValidationError;
use retention::granularity::Granularity;
use retention::policy::new_retention_period;
use retention::timestamp::{
    compute_cutoff, cutoff_fits, format_timestamp, Timestamp, TEXT_RANGE_END,
};

fn ts(secs: i64) -> Timestamp {
    Timestamp::from_epoch_seconds(secs).expect("timestamp in range")
}

#[test]
fn day_cutoff_is_exact_fixed_duration_arithmetic() {
    // One day before 2024-03-01T00:00:00Z is 2024-02-29T00:00:00Z: the leap
    // day falls out of plain 24-hour arithmetic, with no calendar guessing.
    let p = new_retention_period(1, Granularity::Day).unwrap();
    let now = ts(1709251200);
    let cutoff = compute_cutoff(&p, now).unwrap();
    assert_eq!(cutoff.epoch_seconds(), 1709164800);
    assert_eq!(format_timestamp(&cutoff), "2024-02-29:00:00:00");
}

#[test]
fn hour_cutoff_is_exact() {
    let p = new_retention_period(48, Granularity::Hour).unwrap();
    let now = ts(1717977600); // 2024-06-10T00:00:00Z
    let cutoff = compute_cutoff(&p, now).unwrap();
    assert_eq!(cutoff.epoch_seconds(), 1717977600 - 48 * 3600);
    assert_eq!(format_timestamp(&cutoff), "2024-06-08:00:00:00");
}

#[test]
fn month_and_year_always_fail_whatever_the_amount() {
    for g in [Granularity::Month, Granularity::Year] {
        for amount in [1i64, 12, 100000] {
            let p = new_retention_period(amount, g).unwrap();
            match compute_cutoff(&p, ts(1717977600)) {
                Err(ValidationError::UnsupportedGranularity(got)) => assert_eq!(got, g),
                other => panic!("expected UnsupportedGranularity, got {:?}", other),
            }
        }
    }
}

#[test]
fn unsupported_message_names_the_granularity() {
    let p = new_retention_period(3, Granularity::Month).unwrap();
    let e = compute_cutoff(&p, ts(1717977600)).unwrap_err();
    assert_eq!(e.message(), "unsupported granularity MONTH");
}

#[test]
fn epoch_boundaries_render_exactly() {
    assert_eq!(format_timestamp(&ts(0)), "1970-01-01:00:00:00");
    assert_eq!(format_timestamp(&ts(1)), "1970-01-01:00:00:01");
    assert_eq!(
        format_timestamp(&ts(TEXT_RANGE_END as i64 - 1)),
        "9999-12-31:23:59:59"
    );
    // The last day of a leap-year February and the first of March.
    assert_eq!(format_timestamp(&ts(951782399)), "2000-02-28:23:59:59");
    assert_eq!(format_timestamp(&ts(951782400)), "2000-02-29:00:00:00");
    assert_eq!(format_timestamp(&ts(951868800)), "2000-03-01:00:00:00");
    // 2100 divides by four yet is no leap year: February ends on the 28th.
    assert_eq!(format_timestamp(&ts(4107542399)), "2100-02-28:23:59:59");
    assert_eq!(format_timestamp(&ts(4107542400)), "2100-03-01:00:00:00");
}

#[test]
fn out_of_window_readings_are_refused() {
    assert!(Timestamp::from_epoch_seconds(-1).is_none());
    assert!(Timestamp::from_epoch_seconds(i64::MIN).is_none());
    assert!(Timestamp::from_epoch_seconds(TEXT_RANGE_END as i64).is_none());
    assert!(Timestamp::from_epoch_seconds(i64::MAX).is_none());
    assert!(Timestamp::from_epoch_seconds(0).is_some());
    assert!(Timestamp::from_epoch_seconds(TEXT_RANGE_END as i64 - 1).is_some());
}

#[test]
fn cutoff_fits_decides_representability() {
    let day = new_retention_period(2, Granularity::Day).unwrap();
    assert!(cutoff_fits(&day, ts(2 * 86400)));
    assert!(!cutoff_fits(&day, ts(2 * 86400 - 1)));
    let huge = new_retention_period(i64::MAX, Granularity::Hour).unwrap();
    assert!(!cutoff_fits(&huge, ts(1717977600)));
    let month = new_retention_period(i64::MAX, Granularity::Month).unwrap();
    assert!(cutoff_fits(&month, ts(0)));
}
