use chrono::{Datelike, NaiveDate, Timelike};
use rtc_calendar::datetime::DateTime;

fn time(year: i32, month: u32, day: u32, hour: u32, minute: u32, second: u32) -> DateTime {
    DateTime { year, month, day, hour, minute, second, nanosecond: 0 }
}

#[test]
fn makes_the_days_that_exist() {
    assert_eq!(
        DateTime::from_ymd_hms_opt(2025, 10, 23, 19, 5, 7),
        Some(time(2025, 10, 23, 19, 5, 7))
    );
    assert_eq!(DateTime::from_ymd_hms_opt(2024, 2, 29, 0, 0, 0), Some(time(2024, 2, 29, 0, 0, 0)));
    assert_eq!(DateTime::from_ymd_hms_opt(2000, 2, 29, 0, 0, 0), Some(time(2000, 2, 29, 0, 0, 0)));
    assert_eq!(DateTime::from_ymd_hms_opt(-4, 2, 29, 0, 0, 0), Some(time(-4, 2, 29, 0, 0, 0)));
    assert_eq!(
        DateTime::from_ymd_hms_opt(-262143, 1, 1, 0, 0, 0),
        Some(time(-262143, 1, 1, 0, 0, 0))
    );
    assert_eq!(
        DateTime::from_ymd_hms_opt(262142, 12, 31, 23, 59, 59),
        Some(time(262142, 12, 31, 23, 59, 59))
    );
}

#[test]
fn refuses_the_days_that_do_not_exist() {
    assert_eq!(DateTime::from_ymd_hms_opt(2025, 2, 29, 0, 0, 0), None);
    assert_eq!(DateTime::from_ymd_hms_opt(1900, 2, 29, 0, 0, 0), None);
    assert_eq!(DateTime::from_ymd_hms_opt(2025, 4, 31, 0, 0, 0), None);
    assert_eq!(DateTime::from_ymd_hms_opt(2025, 0, 1, 0, 0, 0), None);
    assert_eq!(DateTime::from_ymd_hms_opt(2025, 13, 1, 0, 0, 0), None);
    assert_eq!(DateTime::from_ymd_hms_opt(2025, 1, 0, 0, 0, 0), None);
    assert_eq!(DateTime::from_ymd_hms_opt(262143, 1, 1, 0, 0, 0), None);
    assert_eq!(DateTime::from_ymd_hms_opt(-262144, 12, 31, 0, 0, 0), None);
}

#[test]
fn refuses_the_times_of_day_that_do_not_exist() {
    assert_eq!(DateTime::from_ymd_hms_opt(2025, 1, 1, 24, 0, 0), None);
    assert_eq!(DateTime::from_ymd_hms_opt(2025, 1, 1, 0, 60, 0), None);
    assert_eq!(DateTime::from_ymd_hms_opt(2025, 1, 1, 0, 0, 60), None);
}

#[test]
fn validity_is_tested() {
    assert!(time(2025, 7, 20, 18, 0, 0).is_valid());
    assert!(!time(2025, 2, 29, 18, 0, 0).is_valid());
    assert!(!time(2025, 7, 20, 24, 0, 0).is_valid());
    let leap = DateTime { nanosecond: 1_999_999_999, ..time(2025, 7, 20, 23, 59, 59) };
    assert!(leap.is_valid());
    assert!(!DateTime { nanosecond: 2_000_000_000, ..leap }.is_valid());
}

#[test]
fn counts_seconds_from_1970() {
    assert_eq!(time(1970, 1, 1, 0, 0, 0).timestamp(), 0);
    assert_eq!(time(1969, 12, 31, 23, 59, 59).timestamp(), -1);
    assert_eq!(time(2025, 10, 23, 19, 0, 0).timestamp(), 1_761_246_000);
    assert_eq!(time(2000, 3, 1, 0, 0, 0).timestamp(), 951_868_800);
    let late = DateTime { nanosecond: 999_999_999, ..time(1969, 12, 31, 23, 59, 59) };
    assert_eq!(late.timestamp(), -1);
}

#[test]
fn finds_the_time_of_a_second() {
    assert_eq!(DateTime::from_timestamp(0), Some(time(1970, 1, 1, 0, 0, 0)));
    assert_eq!(DateTime::from_timestamp(-1), Some(time(1969, 12, 31, 23, 59, 59)));
    assert_eq!(DateTime::from_timestamp(1_761_246_000), Some(time(2025, 10, 23, 19, 0, 0)));
    assert_eq!(DateTime::from_timestamp(i64::MAX), None);
    assert_eq!(DateTime::from_timestamp(i64::MIN), None);
}

#[test]
fn the_range_ends_where_the_years_do() {
    let first = time(-262143, 1, 1, 0, 0, 0);
    let last = time(262142, 12, 31, 23, 59, 59);
    assert_eq!(DateTime::from_timestamp(first.timestamp()), Some(first));
    assert_eq!(DateTime::from_timestamp(last.timestamp()), Some(last));
    assert_eq!(DateTime::from_timestamp(first.timestamp() - 1), None);
    assert_eq!(DateTime::from_timestamp(last.timestamp() + 1), None);
}

#[test]
fn seconds_give_back_the_time_but_for_its_part_of_a_second() {
    let exact = time(2025, 7, 20, 18, 0, 0);
    let late = DateTime { nanosecond: 123_456_789, ..exact };
    assert_eq!(DateTime::from_timestamp(late.timestamp()), Some(exact));
}

#[test]
fn weekdays_count_from_monday() {
    assert_eq!(time(2025, 10, 20, 0, 0, 0).days_from_monday(), 0);
    assert_eq!(time(2025, 10, 23, 19, 0, 0).days_from_monday(), 3);
    assert_eq!(time(2025, 7, 20, 18, 0, 0).days_from_monday(), 6);
    assert_eq!(time(1970, 1, 1, 0, 0, 0).days_from_monday(), 3);
    assert_eq!(time(1, 1, 1, 0, 0, 0).days_from_monday(), 0);
    assert_eq!(time(0, 12, 31, 0, 0, 0).days_from_monday(), 6);
}

#[test]
fn the_weekday_changes_at_midnight() {
    let sunday = time(2025, 7, 20, 23, 59, 59);
    assert_eq!(sunday.days_from_monday(), 6);
    assert_eq!(sunday.advance().days_from_monday(), 0);
    let noon = time(2025, 7, 20, 11, 59, 59);
    assert_eq!(noon.advance().days_from_monday(), 6);
}

#[test]
fn the_clock_carries_from_field_to_field() {
    assert_eq!(time(2025, 10, 23, 19, 0, 0).advance(), time(2025, 10, 23, 19, 0, 1));
    assert_eq!(time(2025, 10, 23, 19, 0, 59).advance(), time(2025, 10, 23, 19, 1, 0));
    assert_eq!(time(2025, 10, 23, 19, 59, 59).advance(), time(2025, 10, 23, 20, 0, 0));
    assert_eq!(time(2025, 10, 23, 23, 59, 59).advance(), time(2025, 10, 24, 0, 0, 0));
    assert_eq!(time(2025, 2, 28, 23, 59, 59).advance(), time(2025, 3, 1, 0, 0, 0));
    assert_eq!(time(2024, 2, 28, 23, 59, 59).advance(), time(2024, 2, 29, 0, 0, 0));
    assert_eq!(time(2025, 12, 31, 23, 59, 59).advance(), time(2026, 1, 1, 0, 0, 0));
    assert_eq!(time(-1, 12, 31, 23, 59, 59).advance(), time(0, 1, 1, 0, 0, 0));
}

#[test]
fn the_clock_stays_at_the_end_of_the_range() {
    let last = time(262142, 12, 31, 23, 59, 59);
    assert_eq!(last.advance(), last);
    let late = DateTime { nanosecond: 5, ..last };
    assert_eq!(late.advance(), late);
}

#[test]
fn the_part_of_a_second_is_kept_and_a_leap_second_left() {
    let late = DateTime { nanosecond: 250, ..time(2025, 7, 20, 18, 0, 0) };
    assert_eq!(late.advance(), DateTime { nanosecond: 250, ..time(2025, 7, 20, 18, 0, 1) });
    let leap = DateTime { nanosecond: 1_000_000_250, ..time(2016, 12, 31, 23, 59, 59) };
    assert_eq!(leap.advance(), DateTime { nanosecond: 250, ..time(2017, 1, 1, 0, 0, 0) });
}

#[test]
fn agrees_with_chrono_over_the_centuries() {
    let mut seconds: i64 = -62_135_596_800;
    while seconds < 64_060_588_800 {
        let found = DateTime::from_timestamp(seconds).unwrap();
        let other = NaiveDate::from_ymd_opt(found.year, found.month, found.day)
            .unwrap()
            .and_hms_opt(found.hour, found.minute, found.second)
            .unwrap();
        assert_eq!(other.and_utc().timestamp(), seconds);
        assert_eq!(found.timestamp(), seconds);
        assert_eq!(found.days_from_monday(), other.weekday().num_days_from_monday());
        let next = found.advance();
        let later = other + chrono::Duration::seconds(1);
        assert_eq!((next.year, next.month, next.day), (later.year(), later.month(), later.day()));
        assert_eq!(
            (next.hour, next.minute, next.second),
            (later.hour(), later.minute(), later.second())
        );
        seconds += 31_556_951;
    }
}
