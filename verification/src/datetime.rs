//! A date with a time of day, without a time zone.
//!
//! The calendar arithmetic is that of the `chrono` crate. Each of its functions
//! that is used here stands behind one private function whose contract says, in
//! the terms of the calendar in [`crate::civil`], what `chrono` computes.
use chrono::{Datelike, NaiveDate, TimeZone, Timelike};
use vstd::prelude::*;

use crate::civil::{MAX_YEAR, MIN_YEAR};
#[allow(unused_imports)]
use crate::civil::{
    day_number, days_in_month, first_second, last_second, law_day_number_is_unique,
    law_months_and_years_follow_on, lemma_day_number_bounds, seconds_since_epoch, valid_date,
    valid_time, weekday_of_day,
};

verus! {

pub const NANOSECONDS_PER_SECOND: u32 = 1_000_000_000;

/// A day of the calendar.
#[derive(Clone, Copy, Debug, PartialEq, Eq, Structural)]
pub struct Date {
    pub year: i32,
    pub month: u32,
    pub day: u32,
}

/// A date and a time of day.
///
/// `nanosecond` counts within the second. From 1,000,000,000 on it stands for
/// a leap second, which lies after the second that the other fields name.
#[derive(Clone, Copy, Debug, PartialEq, Eq, Structural)]
pub struct DateTime {
    pub year: i32,
    pub month: u32,
    pub day: u32,
    pub hour: u32,
    pub minute: u32,
    pub second: u32,
    pub nanosecond: u32,
}

impl Date {
    /// Whether the day exists and lies in the supported range.
    pub open spec fn valid(self) -> bool {
        valid_date(self.year as int, self.month as int, self.day as int)
    }
}

impl DateTime {
    /// Whether the date and the time of day exist and lie in the supported range.
    pub open spec fn valid(self) -> bool {
        &&& valid_date(self.year as int, self.month as int, self.day as int)
        &&& valid_time(self.hour as int, self.minute as int, self.second as int)
        &&& self.nanosecond < 2 * NANOSECONDS_PER_SECOND
    }

    /// The number of the day.
    pub open spec fn day_number(self) -> int {
        day_number(self.year as int, self.month as int, self.day as int)
    }

    /// Whole seconds since the start of 1970; negative before it.
    pub open spec fn seconds(self) -> int {
        seconds_since_epoch(
            self.day_number(),
            self.hour as int,
            self.minute as int,
            self.second as int,
        )
    }

    /// The weekday, counted from Monday as 0.
    pub open spec fn weekday(self) -> int {
        weekday_of_day(self.day_number())
    }

    /// The same second, without the part of a second that has passed.
    pub open spec fn whole_second(self) -> DateTime {
        DateTime { nanosecond: 0, ..self }
    }

    /// Whether this is within the last second of the supported range.
    pub open spec fn is_last(self) -> bool {
        &&& self.year == MAX_YEAR
        &&& self.month == 12
        &&& self.day == 31
        &&& self.hour == 23
        &&& self.minute == 59
        &&& self.second == 59
    }

    /// The day after, at the start of the day.
    pub open spec fn next_midnight(self) -> DateTime {
        let start = DateTime { hour: 0, minute: 0, second: 0, ..self };
        if self.day < days_in_month(self.year as int, self.month as int) {
            DateTime { day: (self.day + 1) as u32, ..start }
        } else if self.month < 12 {
            DateTime { month: (self.month + 1) as u32, day: 1, ..start }
        } else {
            DateTime { year: (self.year + 1) as i32, month: 1, day: 1, ..start }
        }
    }

    /// One second later, read off the fields as a clock face shows it: a field
    /// that is full starts anew, and the next one counts on. A leap second is
    /// left behind.
    pub open spec fn next_second(self) -> DateTime {
        let settled = DateTime {
            nanosecond: (self.nanosecond % NANOSECONDS_PER_SECOND) as u32,
            ..self
        };
        if self.second < 59 {
            DateTime { second: (self.second + 1) as u32, ..settled }
        } else if self.minute < 59 {
            DateTime { minute: (self.minute + 1) as u32, second: 0, ..settled }
        } else if self.hour < 23 {
            DateTime { hour: (self.hour + 1) as u32, minute: 0, second: 0, ..settled }
        } else {
            settled.next_midnight()
        }
    }

    /// One second later, where the supported range goes on; the same time at its end.
    pub open spec fn advanced(self) -> DateTime {
        if self.is_last() {
            self
        } else {
            self.next_second()
        }
    }

    /// Whether this is the time on the whole second `seconds` after the start of 1970.
    pub open spec fn is_at(self, seconds: int) -> bool {
        self.valid() && self.nanosecond == 0 && self.seconds() == seconds
    }

    /// The time on the whole second `seconds` after the start of 1970.
    pub open spec fn at(seconds: int) -> DateTime {
        choose|time: DateTime| time.is_at(seconds)
    }

    /// Makes a time of day on a day, on the whole second. `None` where the day or
    /// the time of day does not exist, or the day is out of range.
    pub fn from_ymd_hms_opt(
        year: i32,
        month: u32,
        day: u32,
        hour: u32,
        minute: u32,
        second: u32,
    ) -> (made: Option<DateTime>)
        ensures
            made is Some <==> valid_date(year as int, month as int, day as int) && valid_time(
                hour as int,
                minute as int,
                second as int,
            ),
            made matches Some(time) ==> time == (DateTime {
                year,
                month,
                day,
                hour,
                minute,
                second,
                nanosecond: 0,
            }),
    {
        match chrono_from_ymd_opt(year, month, day) {
            Some(date) => chrono_and_hms_opt(date, hour, minute, second),
            None => None,
        }
    }

    /// Whether the date and the time of day exist and lie in the supported range.
    pub fn is_valid(&self) -> (valid: bool)
        ensures
            valid == self.valid(),
    {
        let made = DateTime::from_ymd_hms_opt(
            self.year,
            self.month,
            self.day,
            self.hour,
            self.minute,
            self.second,
        );
        made.is_some() && self.nanosecond < 2 * NANOSECONDS_PER_SECOND
    }

    /// The second that lies `seconds` after the start of 1970. `None` out of range.
    pub fn from_timestamp(seconds: i64) -> (made: Option<DateTime>)
        ensures
            made == if first_second() <= seconds <= last_second() {
                Some(DateTime::at(seconds as int))
            } else {
                None
            },
            made matches Some(time) ==> time.is_at(seconds as int),
    {
        let made = chrono_timestamp_opt(seconds);
        proof {
            if let Some(time) = made {
                law_at_gives_back(time);
            }
        }
        made
    }

    /// Whole seconds since the start of 1970.
    pub fn timestamp(self) -> (seconds: i64)
        requires
            self.valid(),
        ensures
            seconds == self.seconds(),
    {
        chrono_timestamp(self)
    }

    /// The weekday, counted from Monday as 0.
    pub fn days_from_monday(self) -> (days: u32)
        requires
            self.valid(),
        ensures
            days == self.weekday(),
            days < 7,
    {
        chrono_days_from_monday(self)
    }

    /// One second later; the same time where that is out of range.
    pub fn advance(self) -> (later: DateTime)
        requires
            self.valid(),
        ensures
            later == self.advanced(),
            later.valid(),
    {
        proof {
            law_advance_counts_one_second(self);
            lemma_seconds_bounds(self);
        }
        match chrono_checked_add_seconds(self, 1) {
            Some(later) => {
                proof {
                    if self.is_last() {
                        lemma_last_has_last_second(self);
                    }
                    law_second_is_unique(later, self.next_second());
                }
                later
            },
            None => {
                proof {
                    if !self.is_last() {
                        lemma_seconds_bounds(self.next_second());
                    }
                }
                self
            },
        }
    }
}

/// Calls `chrono::NaiveDate::from_ymd_opt`. Trusted: it makes exactly the days of
/// the proleptic Gregorian calendar between the years `MIN_YEAR` and `MAX_YEAR`,
/// and the day that it makes has the given year, month and day.
#[verifier::external_body]
fn chrono_from_ymd_opt(year: i32, month: u32, day: u32) -> (made: Option<Date>)
    ensures
        made is Some <==> valid_date(year as int, month as int, day as int),
        made matches Some(date) ==> date == (Date { year, month, day }),
{
    NaiveDate::from_ymd_opt(year, month, day).map(
        |date| Date { year: date.year(), month: date.month(), day: date.day() },
    )
}

/// Calls `chrono::NaiveDate::and_hms_opt`. Trusted: it makes a time on the given
/// day exactly where the hour is below 24 and the minute and the second are below
/// 60, with those fields and no part of a second.
#[verifier::external_body]
fn chrono_and_hms_opt(date: Date, hour: u32, minute: u32, second: u32) -> (made: Option<DateTime>)
    requires
        date.valid(),
    ensures
        made is Some <==> valid_time(hour as int, minute as int, second as int),
        made matches Some(time) ==> time == (DateTime {
            year: date.year,
            month: date.month,
            day: date.day,
            hour,
            minute,
            second,
            nanosecond: 0,
        }),
{
    let day = NaiveDate::from_ymd_opt(date.year, date.month, date.day).unwrap();
    day.and_hms_opt(hour, minute, second).map(
        |t| DateTime {
            year: t.year(),
            month: t.month(),
            day: t.day(),
            hour: t.hour(),
            minute: t.minute(),
            second: t.second(),
            nanosecond: t.nanosecond(),
        },
    )
}

/// Calls `chrono::TimeZone::timestamp_opt` on `chrono::Utc`, with no part of a
/// second. Trusted: it gives a single time exactly for the seconds of the
/// supported range, and that time lies the given number of seconds after the
/// start of 1970, on the whole second.
#[verifier::external_body]
fn chrono_timestamp_opt(seconds: i64) -> (made: Option<DateTime>)
    ensures
        made is Some <==> first_second() <= seconds <= last_second(),
        made matches Some(time) ==> time.is_at(seconds as int),
{
    chrono::Utc.timestamp_opt(seconds, 0).single().map(|t| t.naive_utc()).map(
        |t| DateTime {
            year: t.year(),
            month: t.month(),
            day: t.day(),
            hour: t.hour(),
            minute: t.minute(),
            second: t.second(),
            nanosecond: t.nanosecond(),
        },
    )
}

/// Calls `chrono::DateTime::timestamp` on the time taken as UTC. Trusted: it
/// counts the whole seconds from the start of 1970 to the time, and does not
/// look at the part of a second.
#[verifier::external_body]
fn chrono_timestamp(time: DateTime) -> (seconds: i64)
    requires
        time.valid(),
    ensures
        seconds == time.seconds(),
{
    let day = NaiveDate::from_ymd_opt(time.year, time.month, time.day).unwrap();
    let naive = day.and_hms_opt(time.hour, time.minute, time.second).unwrap();
    naive.with_nanosecond(time.nanosecond).unwrap().and_utc().timestamp()
}

/// Calls `chrono::NaiveDateTime::weekday` and counts from Monday with
/// `chrono::Weekday::num_days_from_monday`. Trusted: the weekdays follow each
/// other as the days do, and January 1 of year 1 is a Monday.
#[verifier::external_body]
fn chrono_days_from_monday(time: DateTime) -> (days: u32)
    requires
        time.valid(),
    ensures
        days == time.weekday(),
{
    let day = NaiveDate::from_ymd_opt(time.year, time.month, time.day).unwrap();
    let naive = day.and_hms_opt(time.hour, time.minute, time.second).unwrap();
    naive.with_nanosecond(time.nanosecond).unwrap().weekday().num_days_from_monday()
}

/// Calls `chrono::NaiveDateTime::checked_add_signed` with
/// `chrono::Duration::seconds`. Trusted, for one second or more: the result lies
/// that many seconds later, with the same part of a second, where a leap second
/// counts as the second that it follows; there is a result exactly where that is
/// in the supported range.
#[verifier::external_body]
fn chrono_checked_add_seconds(time: DateTime, seconds: i64) -> (later: Option<DateTime>)
    requires
        time.valid(),
        1 <= seconds <= i64::MAX / 1000,
    ensures
        later is Some <==> time.seconds() + seconds <= last_second(),
        later matches Some(sum) ==> sum.valid() && sum.seconds() == time.seconds() + seconds
            && sum.nanosecond == time.nanosecond % NANOSECONDS_PER_SECOND,
{
    let day = NaiveDate::from_ymd_opt(time.year, time.month, time.day).unwrap();
    let naive = day.and_hms_opt(time.hour, time.minute, time.second).unwrap();
    let naive = naive.with_nanosecond(time.nanosecond).unwrap();
    naive.checked_add_signed(chrono::Duration::seconds(seconds)).map(
        |t| DateTime {
            year: t.year(),
            month: t.month(),
            day: t.day(),
            hour: t.hour(),
            minute: t.minute(),
            second: t.second(),
            nanosecond: t.nanosecond(),
        },
    )
}

/// A second belongs to one reading of the clock: two times on the same second,
/// with the same part of a second, are the same time.
pub proof fn law_second_is_unique(a: DateTime, b: DateTime)
    requires
        a.valid(),
        b.valid(),
        a.seconds() == b.seconds(),
        a.nanosecond == b.nanosecond,
    ensures
        a == b,
{
    assert(a.day_number() == b.day_number());
    law_day_number_is_unique(
        a.year as int,
        a.month as int,
        a.day as int,
        b.year as int,
        b.month as int,
        b.day as int,
    );
}

/// One second later on the clock face is one second later in the count, within
/// the supported range.
pub proof fn law_advance_counts_one_second(time: DateTime)
    requires
        time.valid(),
    ensures
        !time.is_last() ==> time.next_second().valid(),
        !time.is_last() ==> time.next_second().seconds() == time.seconds() + 1,
        time.advanced().valid(),
        time.advanced().seconds() == if time.is_last() {
            time.seconds()
        } else {
            time.seconds() + 1
        },
{
    law_months_and_years_follow_on(time.year as int, time.month as int);
}

/// Every second of the supported range is the second of a valid time.
pub proof fn law_every_second_has_a_time(seconds: int)
    requires
        first_second() <= seconds <= last_second(),
    ensures
        DateTime::at(seconds).is_at(seconds),
    decreases seconds - first_second(),
{
    if seconds == first_second() {
        let first = DateTime {
            year: MIN_YEAR,
            month: 1,
            day: 1,
            hour: 0,
            minute: 0,
            second: 0,
            nanosecond: 0,
        };
        assert(first.is_at(seconds));
    } else {
        law_every_second_has_a_time(seconds - 1);
        let before = DateTime::at(seconds - 1);
        if before.is_last() {
            lemma_last_has_last_second(before);
        }
        law_advance_counts_one_second(before);
        assert(before.next_second().is_at(seconds));
    }
}

/// Counting the seconds of a time and going back gives the same time, but for
/// the part of a second.
pub proof fn law_at_gives_back(time: DateTime)
    requires
        time.valid(),
    ensures
        DateTime::at(time.seconds()) == time.whole_second(),
{
    assert(time.whole_second().is_at(time.seconds()));
    law_second_is_unique(DateTime::at(time.seconds()), time.whole_second());
}

/// The weekday goes on to the next one, and from Sunday to Monday, at midnight,
/// and at no other second.
pub proof fn law_weekday_changes_at_midnight(time: DateTime)
    requires
        time.valid(),
        !time.is_last(),
    ensures
        ({
            let midnight = time.hour == 23 && time.minute == 59 && time.second == 59;
            time.next_second().weekday() == if midnight {
                (time.weekday() + 1) % 7
            } else {
                time.weekday()
            }
        }),
{
    law_months_and_years_follow_on(time.year as int, time.month as int);
    lemma_weekdays_follow(time.day_number());
    if time.hour == 23 && time.minute == 59 && time.second == 59 {
        assert(time.next_second().day_number() == time.day_number() + 1);
    } else {
        assert(time.next_second().day_number() == time.day_number());
    }
}

/// Which times exist: a month from 1 to 12, a day up to the length of its month,
/// where February has 29 days in every fourth year but for the full centuries
/// that 400 does not divide, a time of day, and less than two seconds in
/// nanoseconds.
pub proof fn law_which_times_exist(time: DateTime)
    ensures
        time.valid() <==> {
            let leap = time.year % 4 == 0 && (time.year % 100 != 0 || time.year % 400 == 0);
            let short = time.month == 4 || time.month == 6 || time.month == 9 || time.month == 11;
            &&& -262_143 <= time.year <= 262_142
            &&& 1 <= time.month <= 12
            &&& 1 <= time.day <= 31
            &&& short ==> time.day <= 30
            &&& time.month == 2 ==> time.day <= 29 && (time.day == 29 ==> leap)
            &&& time.hour <= 23
            &&& time.minute <= 59
            &&& time.second <= 59
            &&& time.nanosecond < 2_000_000_000
        },
{
}

/// The time moves on by exactly one second, up to the last second of the range,
/// where it stays. The part of a second goes on unchanged, but for a leap second,
/// which is left behind.
pub proof fn law_advance_is_one_second_later(time: DateTime)
    requires
        time.valid(),
    ensures
        time.advanced().valid(),
        time.seconds() < last_second() ==> time.advanced().seconds() == time.seconds() + 1,
        time.seconds() < last_second() ==> time.advanced().nanosecond == time.nanosecond
            % 1_000_000_000,
        time.seconds() == last_second() ==> time.advanced() == time,
{
    law_advance_counts_one_second(time);
    lemma_seconds_bounds(time);
    if time.is_last() {
        lemma_last_has_last_second(time);
    } else {
        lemma_seconds_bounds(time.next_second());
    }
}

/// The weekday follows from the seconds alone: the days since the start of 1970
/// are counted on from Thursday.
pub proof fn law_weekday_follows_from_seconds(time: DateTime)
    requires
        time.valid(),
    ensures
        time.weekday() == (time.seconds() / 86_400 + 3) % 7,
{
    let days = time.day_number() - 719_163;
    let rest = time.hour * 3600 + time.minute * 60 + time.second;
    assert(0 <= rest < 86_400);
    assert(time.seconds() == days * 86_400 + rest);
    assert(time.seconds() / 86_400 == days);
}

proof fn lemma_weekdays_follow(number: int)
    ensures
        weekday_of_day(number + 1) == (weekday_of_day(number) + 1) % 7,
{
}

/// The seconds of valid times are those of the supported range.
pub proof fn lemma_seconds_bounds(time: DateTime)
    requires
        time.valid(),
    ensures
        first_second() <= time.seconds() <= last_second(),
{
    lemma_day_number_bounds(time.year as int, time.month as int, time.day as int);
}

proof fn lemma_last_has_last_second(time: DateTime)
    requires
        time.is_last(),
    ensures
        time.seconds() == last_second(),
{
}

} // verus!
