use retention::clock::current_timestamp;

#[test]
fn the_clock_reads_inside_the_renderable_window() {
    let now = current_timestamp().expect("a machine clock set to a renderable year");
    // Well after 2020-01-01 and, per the window, before year 10000.
    assert!(now.epoch_seconds() > 1_577_836_800);
}

#[test]
fn two_readings_never_go_backwards() {
    let first = current_timestamp().expect("a machine clock set to a renderable year");
    let second = current_timestamp().expect("a machine clock set to a renderable year");
    assert!(second.epoch_seconds() >= first.epoch_seconds());
}
