use ttl_cache::time::NANOS_PER_SEC;
use ttl_cache::{Span, Timestamp};

#[test]
fn span_from_secs_counts_nanoseconds() {
    assert_eq!(Span::from_secs(0).nanos, 0);
    assert_eq!(Span::from_secs(10).nanos, 10_000_000_000);
    assert_eq!(Span::from_secs(u64::MAX).nanos, 18_446_744_073_709_551_615_000_000_000);
    assert_eq!(NANOS_PER_SEC, 1_000_000_000);
}

#[test]
fn timestamp_from_secs_counts_nanoseconds_on_both_sides_of_the_epoch() {
    assert_eq!(Timestamp::from_secs(0).nanos, 0);
    assert_eq!(Timestamp::from_secs(11).nanos, 11_000_000_000);
    assert_eq!(Timestamp::from_secs(-3).nanos, -3_000_000_000);
    assert_eq!(Timestamp::from_secs(i64::MAX).nanos, 9_223_372_036_854_775_807_000_000_000);
    assert_eq!(Timestamp::from_secs(i64::MIN).nanos, -9_223_372_036_854_775_808_000_000_000);
}

#[test]
fn reading_past_the_epoch_is_positive() {
    assert_eq!(Timestamp::from_reading(Ok(0)).nanos, 0);
    assert_eq!(Timestamp::from_reading(Ok(5)).nanos, 5);
    assert_eq!(Timestamp::from_reading(Ok(1_700_000_000_000_000_000)).nanos, 1_700_000_000_000_000_000);
}

#[test]
fn reading_short_of_the_epoch_is_negative() {
    assert_eq!(Timestamp::from_reading(Err(0)).nanos, 0);
    assert_eq!(Timestamp::from_reading(Err(5)).nanos, -5);
    assert_eq!(Timestamp::from_reading(Err(i128::MAX as u128)).nanos, -i128::MAX);
}

#[test]
fn reading_out_of_range_goes_to_the_nearest_instant() {
    assert_eq!(Timestamp::from_reading(Ok(i128::MAX as u128)).nanos, i128::MAX);
    assert_eq!(Timestamp::from_reading(Ok(i128::MAX as u128 + 1)).nanos, i128::MAX);
    assert_eq!(Timestamp::from_reading(Ok(u128::MAX)).nanos, i128::MAX);
    assert_eq!(Timestamp::from_reading(Err(i128::MAX as u128 + 1)).nanos, i128::MIN);
    assert_eq!(Timestamp::from_reading(Err(u128::MAX)).nanos, i128::MIN);
}

#[test]
fn elapsed_since_an_earlier_instant_is_the_difference() {
    let later = Timestamp { nanos: 12_000_000_007 };
    let earlier = Timestamp { nanos: 2_000_000_000 };
    assert_eq!(later.elapsed_since(earlier), Some(Span { nanos: 10_000_000_007 }));
    assert_eq!(later.elapsed_since(later), Some(Span { nanos: 0 }));
}

#[test]
fn elapsed_since_a_later_instant_is_nothing() {
    let later = Timestamp { nanos: 12 };
    let earlier = Timestamp { nanos: 11 };
    assert_eq!(earlier.elapsed_since(later), None);
    assert_eq!(Timestamp { nanos: -1 }.elapsed_since(Timestamp { nanos: 0 }), None);
    assert_eq!(Timestamp { nanos: i128::MIN }.elapsed_since(Timestamp { nanos: i128::MAX }), None);
}

#[test]
fn elapsed_since_spans_the_epoch() {
    let before = Timestamp { nanos: -7 };
    let after = Timestamp { nanos: 5 };
    assert_eq!(after.elapsed_since(before), Some(Span { nanos: 12 }));
    assert_eq!(Timestamp { nanos: 0 }.elapsed_since(before), Some(Span { nanos: 7 }));
    assert_eq!(
        Timestamp { nanos: -2 }.elapsed_since(Timestamp { nanos: -9 }),
        Some(Span { nanos: 7 })
    );
}

#[test]
fn elapsed_since_holds_the_widest_gap() {
    let first = Timestamp { nanos: i128::MIN };
    let last = Timestamp { nanos: i128::MAX };
    assert_eq!(last.elapsed_since(first), Some(Span { nanos: u128::MAX }));
    assert_eq!(
        Timestamp { nanos: 0 }.elapsed_since(first),
        Some(Span { nanos: 170_141_183_460_469_231_731_687_303_715_884_105_728 })
    );
    assert_eq!(
        Timestamp { nanos: -1 }.elapsed_since(first),
        Some(Span { nanos: i128::MAX as u128 })
    );
    assert_eq!(last.elapsed_since(Timestamp { nanos: 0 }), Some(Span { nanos: i128::MAX as u128 }));
}

#[test]
fn now_reads_a_clock_that_stands_past_the_epoch() {
    let at = Timestamp::now();
    assert!(at.nanos > 0);
    assert!(at.nanos < i128::MAX);
}
