use retention::granularity::{format_granularity, parse_granularity, Granularity};

#[test]
fn round_trip_fixed_vocabulary() {
    for label in ["NONE", "YEAR", "MONTH", "DAY", "HOUR"] {
        let g = parse_granularity(label).expect("vocabulary label must parse");
        assert_eq!(format_granularity(g), label);
    }
}

#[test]
fn parse_is_exact_and_case_sensitive() {
    for label in ["", "day", "Day", "DAYS", " DAY", "NONE ", "WEEK", "hour", "None"] {
        assert!(parse_granularity(label).is_err(), "label {:?} must not parse", label);
    }
}

#[test]
fn parse_values() {
    assert!(matches!(parse_granularity("NONE"), Ok(Granularity::Unpartitioned)));
    assert!(matches!(parse_granularity("YEAR"), Ok(Granularity::Year)));
    assert!(matches!(parse_granularity("MONTH"), Ok(Granularity::Month)));
    assert!(matches!(parse_granularity("DAY"), Ok(Granularity::Day)));
    assert!(matches!(parse_granularity("HOUR"), Ok(Granularity::Hour)));
}

#[test]
fn unknown_label_is_reported_with_its_text() {
    let e = parse_granularity("weekly").unwrap_err();
    assert_eq!(e.message(), "unknown granularity value: 'weekly'");
}
