use clobber::Span;

#[test]
fn spans_are_counted_in_nanoseconds() {
    assert_eq!(Span::zero().as_nanos(), 0);
    assert_eq!(Span::from_secs(1).as_nanos(), 1_000_000_000);
    assert_eq!(Span::from_secs(2), Span::from_millis(2000));
    assert_eq!(Span::from_millis(1).as_nanos(), 1_000_000);
    assert_eq!(Span::from_nanos(17).as_nanos(), 17);
    assert_eq!(Span::from_secs(u64::MAX).as_nanos(), u64::MAX as u128 * 1_000_000_000);
    assert_eq!(Span::from_millis(u64::MAX).as_nanos(), u64::MAX as u128 * 1_000_000);
}

#[test]
fn spans_split_into_seconds_and_the_rest() {
    let span = Span::from_nanos(3_250_000_001);
    assert_eq!(span.as_secs(), 3);
    assert_eq!(span.subsec_nanos(), 250_000_001);
    assert_eq!(Span::from_nanos(999_999_999).as_secs(), 0);
    assert_eq!(Span::from_nanos(999_999_999).subsec_nanos(), 999_999_999);
    assert_eq!(Span::from_secs(u64::MAX).as_secs(), u64::MAX);
}

#[test]
fn seconds_past_u64_are_held_at_its_maximum() {
    assert_eq!(Span::from_nanos(u128::MAX).as_secs(), u64::MAX);
    let just_over = (u64::MAX as u128 + 1) * 1_000_000_000 + 5;
    assert_eq!(Span::from_nanos(just_over).as_secs(), u64::MAX);
    assert_eq!(Span::from_nanos(just_over).subsec_nanos(), 5);
}

#[test]
fn subtraction_stops_at_zero() {
    let long = Span::from_millis(700);
    let short = Span::from_millis(200);
    assert_eq!(long.saturating_sub(short), Span::from_millis(500));
    assert_eq!(short.saturating_sub(long), Span::zero());
    assert_eq!(long.saturating_sub(long), Span::zero());
    assert!(long.saturating_sub(long).is_zero());
    assert!(!long.is_zero());
}

#[test]
fn spans_order_by_length() {
    assert!(Span::from_millis(999) < Span::from_secs(1));
    assert!(Span::from_secs(1) <= Span::from_millis(1000));
    assert!(Span::from_nanos(2) > Span::from_nanos(1));
}
