use pathtracker::duration::{Duration, DurationBuilder};

#[test]
fn every_unit_reads_back() {
    for n in [0u32, 1, 7, 59, 60, 1_000, 49_710] {
        assert_eq!(n, Duration::from_seconds(n).in_seconds());
        assert_eq!(n, Duration::from_actions(n).in_actions());
        assert_eq!(n, Duration::from_turns(n).in_turns());
        assert_eq!(n, Duration::from_minutes(n).in_minutes());
        assert_eq!(n, Duration::from_hours(n).in_hours());
        assert_eq!(n, Duration::from_days(n).in_days());
    }
}

#[test]
fn largest_counts_read_back() {
    assert_eq!(u32::MAX, Duration::from_turns(u32::MAX).in_turns());
    assert_eq!(u32::MAX, Duration::from_days(u32::MAX).in_days());
    assert_eq!(u32::MAX as u64 * 86_400, Duration::from_days(u32::MAX).total_seconds());
}

#[test]
fn units_convert_by_their_ratios() {
    assert_eq!(2, Duration::from_actions(1).in_seconds());
    assert_eq!(3, Duration::from_turns(1).in_actions());
    assert_eq!(10, Duration::from_minutes(1).in_turns());
    assert_eq!(60, Duration::from_hours(1).in_minutes());
    assert_eq!(24, Duration::from_days(1).in_hours());
    assert_eq!(86_400, Duration::from_days(1).in_seconds());
}

#[test]
fn projections_drop_the_remainder() {
    let d = Duration::from_seconds(13);
    assert_eq!(13, d.in_seconds());
    assert_eq!(6, d.in_actions());
    assert_eq!(2, d.in_turns());
    assert_eq!(0, d.in_minutes());
    assert_eq!(2, d.whole_turns());
}

#[test]
fn builder_carries_over() {
    let d = Duration::builder()
        .with_seconds(3)
        .with_actions(4)
        .with_turns(25)
        .with_minutes(61)
        .with_hours(23)
        .with_days(2)
        .build();
    let total: u64 = 3 + 2 * 4 + 6 * 25 + 60 * 61 + 3600 * 23 + 86_400 * 2;
    assert_eq!(total, d.total_seconds());
    assert_eq!(d, Duration::from_total_seconds(total));
}

#[test]
fn same_amount_is_same_value() {
    assert_eq!(Duration::from_minutes(1), Duration::from_turns(10));
    assert_eq!(Duration::from_seconds(6), Duration::from_actions(3));
    assert_eq!(Duration::from_hours(48), Duration::from_days(2));
    assert_ne!(Duration::from_seconds(5), Duration::from_seconds(6));
}

#[test]
fn a_unit_set_twice_counts_once() {
    let d = Duration::builder().with_turns(4).with_turns(9).build();
    assert_eq!(9, d.in_turns());
}

#[test]
fn empty_builder_is_no_time() {
    assert_eq!(0, Duration::builder().build().total_seconds());
    assert_eq!(0, DurationBuilder::default().build().total_seconds());
    assert_eq!(Duration::default(), Duration::from_seconds(0));
}

#[test]
fn addition_adds_the_amounts() {
    let d = Duration::from_turns(9) + Duration::from_seconds(7);
    assert_eq!(61, d.in_seconds());
    assert_eq!(Duration::from_seconds(61), d);
}

#[test]
fn subtraction_takes_the_amount_off() {
    let d = Duration::from_minutes(1) - Duration::from_turns(3);
    assert_eq!(7, d.in_turns());
}

#[test]
fn saturating_sub_stops_at_nothing() {
    let long = Duration::from_hours(1);
    let short = Duration::from_minutes(59);
    assert_eq!(Duration::from_minutes(1), long.saturating_sub(short));
    assert_eq!(Duration::from_seconds(0), short.saturating_sub(long));
    assert_eq!(Duration::from_seconds(0), long.saturating_sub(long));
}

#[test]
fn saturating_sub_takes_the_largest_amounts() {
    let long = Duration::from_days(u32::MAX);
    let d = long.saturating_sub(Duration::from_seconds(1));
    assert_eq!(u32::MAX as u64 * 86_400 - 1, d.total_seconds());
}
