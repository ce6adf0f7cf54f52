use tonic::time::{Moment, Span, Timeline, NANOS_PER_MILLI};

#[test]
fn a_millisecond_is_a_million_nanoseconds() {
    assert_eq!(NANOS_PER_MILLI, 1_000_000);
    assert_eq!(Span::from_millis(1).nanos, 1_000_000);
    assert_eq!(Span::from_millis(0).nanos, 0);
    assert_eq!(Span::from_millis(500), Span { nanos: 500_000_000 });
}

#[test]
fn the_longest_span_of_milliseconds_fits() {
    assert_eq!(Span::from_millis(u64::MAX).nanos, 18_446_744_073_709_551_615_000_000u128);
}

#[test]
fn as_millis_drops_the_rest() {
    assert_eq!(Span { nanos: 1_999_999 }.as_millis(), 1);
    assert_eq!(Span { nanos: 2_000_000 }.as_millis(), 2);
    assert_eq!(Span { nanos: 999_999 }.as_millis(), 0);
    assert_eq!(Span::from_millis(60_000).as_millis(), 60_000);
}

#[test]
fn from_elapsed_keeps_what_fits() {
    assert_eq!(Moment::from_elapsed(0), Moment { nanos: 0 });
    assert_eq!(Moment::from_elapsed(42), Moment { nanos: 42 });
    assert_eq!(Moment::from_elapsed(9_223_372_036_854_775_807), Moment { nanos: i64::MAX });
}

#[test]
fn from_elapsed_stops_at_the_end_of_the_line() {
    assert_eq!(Moment::from_elapsed(9_223_372_036_854_775_808), Moment { nanos: i64::MAX });
    assert_eq!(Moment::from_elapsed(u128::MAX), Moment { nanos: i64::MAX });
}

#[test]
fn span_until_is_the_distance_ahead() {
    let now = Moment { nanos: 1_000 };
    assert_eq!(now.span_until(Moment { nanos: 1_500 }), Span { nanos: 500 });
    assert_eq!(now.span_until(Moment { nanos: 1_001 }), Span { nanos: 1 });
}

#[test]
fn span_until_is_zero_for_what_has_passed() {
    let now = Moment { nanos: 1_000 };
    assert_eq!(now.span_until(Moment { nanos: 1_000 }), Span { nanos: 0 });
    assert_eq!(now.span_until(Moment { nanos: 999 }), Span { nanos: 0 });
    assert_eq!(now.span_until(Moment { nanos: i64::MIN }), Span { nanos: 0 });
}

#[test]
fn span_until_spans_the_whole_line() {
    let first = Moment { nanos: i64::MIN };
    let last = Moment { nanos: i64::MAX };
    assert_eq!(first.span_until(last), Span { nanos: 18_446_744_073_709_551_615 });
    assert_eq!(last.span_until(first), Span { nanos: 0 });
}

#[test]
fn a_time_line_never_reads_before_its_origin() {
    let timeline = Timeline::begin();
    let first = timeline.now();
    let second = timeline.now();
    assert!(first.nanos >= 0);
    assert!(second.nanos >= first.nanos);
}

#[test]
fn copies_of_a_time_line_share_the_origin() {
    let timeline = Timeline::begin();
    let copy = timeline;
    let first = timeline.now();
    let second = copy.now();
    let third = timeline.now();
    assert!(first.nanos <= second.nanos);
    assert!(second.nanos <= third.nanos);
}
