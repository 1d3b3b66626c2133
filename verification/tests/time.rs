use stepper_sim::time::DelayUnsupported;
use stepper_sim::time::SimulatedTime;
use stepper_sim::time::wrap_micros;

#[test]
fn wrap_micros_truncates_nanoseconds_to_whole_microseconds() {
    assert_eq!(wrap_micros(0, 0), 0);
    assert_eq!(wrap_micros(0, 999), 0);
    assert_eq!(wrap_micros(0, 5_999), 5);
    assert_eq!(wrap_micros(0, 999_999_999), 999_999);
}

#[test]
fn wrap_micros_counts_a_million_per_second() {
    assert_eq!(wrap_micros(1, 0), 1_000_000);
    assert_eq!(wrap_micros(60, 250_000), 60_000_250);
}

#[test]
fn wrap_micros_wraps_exactly_at_the_32_bit_boundary() {
    // 4294 s + 967_296_000 ns is 4_294_967_296 us, which is exactly 1 << 32.
    assert_eq!(wrap_micros(4294, 967_296_000), 0);
    assert_eq!(wrap_micros(4294, 967_295_000), u32::MAX);
    assert_eq!(wrap_micros(4294, 967_297_000), 1);
    assert_eq!(wrap_micros(4295, 0), 32_704);
}

#[test]
fn wrap_micros_is_periodic_in_whole_wraps() {
    // 8589 s + 934_592_000 ns is 8_589_934_592 us, exactly 2 << 32.
    assert_eq!(wrap_micros(8589, 934_592_000), 0);
    assert_eq!(wrap_micros(8589, 934_593_000), 1);
}

#[test]
fn now_is_non_decreasing_between_nearby_calls() {
    let clock = SimulatedTime::new();
    let first = clock.now();
    let second = clock.now();
    assert!(second >= first);
}

#[test]
fn delay_reports_itself_unsupported() {
    let clock = SimulatedTime::new();
    assert_eq!(clock.delay(0), Err(DelayUnsupported));
    assert_eq!(clock.delay(1_000_000), Err(DelayUnsupported));
}
