use rtc_calendar::ticks::{millis_passed, seconds_passed, TICK_HZ};

#[test]
fn the_tick_rate_is_that_of_the_executor() {
    assert_eq!(TICK_HZ, embassy_time::TICK_HZ);
}

#[test]
fn seconds_pass_after_their_ticks() {
    assert!(!seconds_passed(1_000_099, 100, 1));
    assert!(seconds_passed(1_000_100, 100, 1));
    assert!(!seconds_passed(59_999_999, 0, 60));
    assert!(seconds_passed(60_000_000, 0, 60));
    assert!(seconds_passed(7, 7, 0));
}

#[test]
fn milliseconds_pass_after_their_ticks() {
    assert!(!millis_passed(500_009, 10, 500));
    assert!(millis_passed(500_010, 10, 500));
    assert!(!millis_passed(999, 0, 1));
    assert!(millis_passed(1000, 0, 1));
}
