//! The proleptic Gregorian calendar: which days exist, and how they are counted.
//!
//! Everything here is specification and proof. Days are numbered so that
//! January 1 of year 1 is day 1; the numbering runs on without a gap in both
//! directions, and year 0 stands before year 1.
use vstd::prelude::*;

verus! {

/// The first year of the supported range.
pub const MIN_YEAR: i32 = -262_143;

/// The last year of the supported range.
pub const MAX_YEAR: i32 = 262_142;

/// The number of January 1, 1970.
pub const UNIX_EPOCH_DAY: i64 = 719_163;

pub const SECONDS_PER_DAY: i64 = 86_400;

pub open spec fn is_leap_year(year: int) -> bool {
    year % 4 == 0 && (year % 100 != 0 || year % 400 == 0)
}

pub open spec fn days_in_year(year: int) -> int {
    if is_leap_year(year) {
        366
    } else {
        365
    }
}

pub open spec fn days_in_month(year: int, month: int) -> int {
    if month == 2 {
        if is_leap_year(year) {
            29
        } else {
            28
        }
    } else if month == 4 || month == 6 || month == 9 || month == 11 {
        30
    } else {
        31
    }
}

/// The days of `year` that lie before the first day of `month`.
pub open spec fn days_before_month(year: int, month: int) -> int
    decreases month,
{
    if month <= 1 {
        0
    } else {
        days_before_month(year, month - 1) + days_in_month(year, month - 1)
    }
}

/// The number of the last day before `year`.
pub open spec fn days_before_year(year: int) -> int {
    365 * (year - 1) + (year - 1) / 4 - (year - 1) / 100 + (year - 1) / 400
}

/// The number of the day `year`-`month`-`day`.
pub open spec fn day_number(year: int, month: int, day: int) -> int {
    days_before_year(year) + days_before_month(year, month) + day
}

/// Whether `year`-`month`-`day` is a day of the supported range.
pub open spec fn valid_date(year: int, month: int, day: int) -> bool {
    &&& MIN_YEAR <= year <= MAX_YEAR
    &&& 1 <= month <= 12
    &&& 1 <= day <= days_in_month(year, month)
}

/// Whether `hour`:`minute`:`second` is a time of day.
pub open spec fn valid_time(hour: int, minute: int, second: int) -> bool {
    &&& 0 <= hour < 24
    &&& 0 <= minute < 60
    &&& 0 <= second < 60
}

/// The weekday of a numbered day, counted from Monday as 0.
pub open spec fn weekday_of_day(number: int) -> int {
    (number - 1) % 7
}

/// Seconds from the start of 1970 to the given second.
pub open spec fn seconds_since_epoch(number: int, hour: int, minute: int, second: int) -> int {
    (number - UNIX_EPOCH_DAY) * SECONDS_PER_DAY + hour * 3600 + minute * 60 + second
}

/// The first second of the supported range.
pub open spec fn first_second() -> int {
    seconds_since_epoch(day_number(MIN_YEAR as int, 1, 1), 0, 0, 0)
}

/// The last second of the supported range.
pub open spec fn last_second() -> int {
    seconds_since_epoch(day_number(MAX_YEAR as int, 12, 31), 23, 59, 59)
}

/// A quotient steps up exactly at the multiples of the divisor.
proof fn lemma_quotient_steps(value: int, divisor: int)
    by (nonlinear_arith)
    requires
        divisor > 1,
    ensures
        value / divisor - (value - 1) / divisor == if value % divisor == 0 {
            1int
        } else {
            0
        },
{
    let q = value / divisor;
    let r = value % divisor;
    assert(value == divisor * q + r);
    if r == 0 {
        assert(value - 1 == divisor * (q - 1) + (divisor - 1));
    } else {
        assert(value - 1 == divisor * q + (r - 1));
    }
}

/// A year begins where the year before it ends.
pub proof fn lemma_next_year(year: int)
    ensures
        days_before_year(year + 1) == days_before_year(year) + days_in_year(year),
{
    lemma_quotient_steps(year, 4);
    lemma_quotient_steps(year, 100);
    lemma_quotient_steps(year, 400);
    assert(year % 400 == 0 ==> year % 100 == 0) by {
        assert(year == 400 * (year / 400) + year % 400);
    }
    assert(year % 100 == 0 ==> year % 4 == 0) by {
        assert(year == 100 * (year / 100) + year % 100);
    }
}

/// Later years have higher day numbers, by at least the length of the earlier year.
proof fn lemma_years_ascend(earlier: int, later: int)
    requires
        earlier < later,
    ensures
        days_before_year(earlier) + days_in_year(earlier) <= days_before_year(later),
    decreases later - earlier,
{
    lemma_next_year(later - 1);
    if earlier < later - 1 {
        lemma_years_ascend(earlier, later - 1);
    }
}

/// The twelve months make up the year.
pub proof fn lemma_months_fill_year(year: int)
    ensures
        days_before_month(year, 12) + days_in_month(year, 12) == days_in_year(year),
{
    reveal_with_fuel(days_before_month, 12);
}

/// Later months of a year begin later, by at least the length of the earlier month.
proof fn lemma_months_ascend(year: int, earlier: int, later: int)
    requires
        1 <= earlier < later,
    ensures
        days_before_month(year, earlier) + days_in_month(year, earlier) <= days_before_month(
            year,
            later,
        ),
    decreases later - earlier,
{
    if earlier < later - 1 {
        lemma_months_ascend(year, earlier, later - 1);
    }
}

/// A day lies within its year.
proof fn lemma_day_within_year(year: int, month: int, day: int)
    requires
        1 <= month <= 12,
        1 <= day <= days_in_month(year, month),
    ensures
        1 <= days_before_month(year, month) + day <= days_in_year(year),
{
    lemma_months_fill_year(year);
    if month < 12 {
        lemma_months_ascend(year, month, 12);
    }
    if 1 < month {
        lemma_months_ascend(year, 1, month);
    }
}

/// Day numbers follow the order of the calendar.
pub proof fn law_day_numbers_ascend(y1: int, m1: int, d1: int, y2: int, m2: int, d2: int)
    requires
        valid_date(y1, m1, d1),
        valid_date(y2, m2, d2),
    ensures
        day_number(y1, m1, d1) < day_number(y2, m2, d2) <==> (y1 < y2 || (y1 == y2 && (m1 < m2
            || (m1 == m2 && d1 < d2)))),
{
    lemma_day_within_year(y1, m1, d1);
    lemma_day_within_year(y2, m2, d2);
    if y1 < y2 {
        lemma_years_ascend(y1, y2);
    } else if y2 < y1 {
        lemma_years_ascend(y2, y1);
    } else if m1 < m2 {
        lemma_months_ascend(y1, m1, m2);
    } else if m2 < m1 {
        lemma_months_ascend(y1, m2, m1);
    }
}

/// A day number belongs to one day only.
pub proof fn law_day_number_is_unique(y1: int, m1: int, d1: int, y2: int, m2: int, d2: int)
    requires
        valid_date(y1, m1, d1),
        valid_date(y2, m2, d2),
        day_number(y1, m1, d1) == day_number(y2, m2, d2),
    ensures
        y1 == y2,
        m1 == m2,
        d1 == d2,
{
    law_day_numbers_ascend(y1, m1, d1, y2, m2, d2);
    law_day_numbers_ascend(y2, m2, d2, y1, m1, d1);
}

/// The first day of the next month follows the last day of a month, and New
/// Year's Day follows the last day of December.
pub proof fn law_months_and_years_follow_on(year: int, month: int)
    requires
        1 <= month <= 12,
    ensures
        month < 12 ==> day_number(year, month + 1, 1) == day_number(
            year,
            month,
            days_in_month(year, month),
        ) + 1,
        day_number(year + 1, 1, 1) == day_number(year, 12, 31) + 1,
{
    lemma_next_year(year);
    lemma_months_fill_year(year);
}

/// The seconds of the supported range fit into 64 bits.
pub proof fn lemma_range_fits()
    ensures
        i64::MIN < first_second() < last_second() < i64::MAX,
{
    reveal_with_fuel(days_before_month, 12);
}

/// The numbers of the days of the supported range lie between its first and its last day.
pub proof fn lemma_day_number_bounds(year: int, month: int, day: int)
    requires
        valid_date(year, month, day),
    ensures
        day_number(MIN_YEAR as int, 1, 1) <= day_number(year, month, day) <= day_number(
            MAX_YEAR as int,
            12,
            31,
        ),
{
    law_day_numbers_ascend(year, month, day, MIN_YEAR as int, 1, 1);
    law_day_numbers_ascend(MAX_YEAR as int, 12, 31, year, month, day);
}

} // verus!
