use rtc_calendar::datetime::DateTime;
use rtc_calendar::text::{date_text, time_text};

fn on(year: i32, month: u32, day: u32) -> DateTime {
    DateTime { year, month, day, hour: 0, minute: 0, second: 0, nanosecond: 0 }
}

#[test]
fn dates_are_written_with_leading_zeros() {
    assert_eq!(date_text(&on(2025, 10, 23)).as_str(), "2025-10-23");
    assert_eq!(date_text(&on(2025, 7, 3)).as_str(), "2025-07-03");
    assert_eq!(date_text(&on(7, 1, 1)).as_str(), "0007-01-01");
    assert_eq!(date_text(&on(0, 1, 1)).as_str(), "0000-01-01");
}

#[test]
fn years_out_of_four_digits_are_written_in_full() {
    assert_eq!(date_text(&on(12345, 6, 7)).as_str(), "12345-06-07");
    assert_eq!(date_text(&on(262142, 12, 31)).as_str(), "262142-12-31");
    assert_eq!(date_text(&on(-5, 12, 31)).as_str(), "-005-12-31");
    assert_eq!(date_text(&on(-262143, 1, 1)).as_str(), "-262143-01-01");
}

#[test]
fn times_of_day_are_written_with_leading_zeros() {
    let noon = DateTime { hour: 12, minute: 34, second: 56, ..on(2025, 7, 20) };
    assert_eq!(time_text(&noon).as_str(), "12:34:56");
    let early = DateTime { hour: 1, minute: 2, second: 3, ..on(2025, 7, 20) };
    assert_eq!(time_text(&early).as_str(), "01:02:03");
    assert_eq!(time_text(&on(2025, 7, 20)).as_str(), "00:00:00");
}

#[test]
fn lengths_are_fixed_in_ordinary_years() {
    assert_eq!(date_text(&on(9999, 12, 31)).len(), 10);
    assert_eq!(date_text(&on(0, 1, 1)).len(), 10);
    assert_eq!(time_text(&on(-262143, 1, 1)).len(), 8);
    assert_eq!(date_text(&on(-262143, 1, 1)).len(), 13);
}

#[test]
fn different_times_are_shown_differently() {
    let first = DateTime { hour: 23, minute: 59, second: 59, ..on(2025, 12, 31) };
    let next = first.advance();
    assert_ne!(date_text(&first).as_str(), date_text(&next).as_str());
    assert_ne!(time_text(&first).as_str(), time_text(&next).as_str());
    let late = DateTime { nanosecond: 5, ..first };
    assert_eq!(date_text(&first).as_str(), date_text(&late).as_str());
    assert_eq!(time_text(&first).as_str(), time_text(&late).as_str());
}
