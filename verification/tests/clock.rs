//! Ticks, numbers and sorted values.
use raylar_services::arith::{saturate_i64, saturate_u64};
use raylar_services::clock::{Duration, Instant, TICK_HZ};
use raylar_services::order::insertion_sort;
use raylar_services::text::{decimal_text, padded_text, signed_text};

#[test]
fn ticks_are_those_of_the_timer() {
    assert_eq!(TICK_HZ, embassy_time::TICK_HZ);
    for count in [0u64, 1, 999, 1_000, 123_456_789] {
        assert_eq!(
            Duration::from_secs(count).as_ticks(),
            embassy_time::Duration::from_secs(count).as_ticks()
        );
        assert_eq!(
            Duration::from_millis(count).as_ticks(),
            embassy_time::Duration::from_millis(count).as_ticks()
        );
        assert_eq!(
            Duration::from_micros(count).as_ticks(),
            embassy_time::Duration::from_micros(count).as_ticks()
        );
    }
}

#[test]
fn durations_are_rounded_down() {
    let span = Duration::from_ticks(3_999_999);
    assert_eq!(span.as_micros(), 3_999_999);
    assert_eq!(span.as_millis(), 3_999);
    assert_eq!(span.as_secs(), 3);
    assert_eq!(Instant::from_secs(2).as_millis(), 2_000);
    assert_eq!(Instant::from_millis(7).as_micros(), 7_000);
    assert_eq!(Duration::from_ticks(u64::MAX).as_micros(), u64::MAX);
}

#[test]
fn instants_never_run_backwards() {
    let early = Instant::from_ticks(5);
    let late = Instant::from_ticks(9);
    assert_eq!(late.saturating_duration_since(early), Duration::from_ticks(4));
    assert_eq!(early.saturating_duration_since(late), Duration::from_ticks(0));
    assert_eq!(early.checked_add(Duration::from_ticks(4)), Some(late));
    assert_eq!(late.checked_add(Duration::from_ticks(u64::MAX)), None);
}

#[test]
fn wide_numbers_are_held_inside_their_range() {
    assert_eq!(saturate_i64(i128::MAX), i64::MAX);
    assert_eq!(saturate_i64(i128::MIN), i64::MIN);
    assert_eq!(saturate_i64(-7), -7);
    assert_eq!(saturate_u64(u128::MAX), u64::MAX);
    assert_eq!(saturate_u64(7), 7);
}

#[test]
fn numbers_are_written_in_decimal_notation() {
    assert_eq!(decimal_text(0).as_str(), "0");
    assert_eq!(decimal_text(u64::MAX).as_str(), "18446744073709551615");
    assert_eq!(signed_text(i64::MIN).as_str(), "-9223372036854775808");
    assert_eq!(signed_text(42).as_str(), "42");
    assert_eq!(padded_text(42, 6).as_str(), "000042");
    assert_eq!(padded_text(1_234_567, 6).as_str(), "1234567");
}

#[test]
fn sorting_orders_and_keeps_every_value() {
    let mut values: Vec<i64> = vec![5, -1, 5, i64::MIN, 0, i64::MAX];
    insertion_sort(&mut values);
    assert_eq!(values, [i64::MIN, -1, 0, 5, 5, i64::MAX]);
}
