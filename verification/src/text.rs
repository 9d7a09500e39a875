//! The texts of the display: dates and times of day with leading zeros.
//!
//! Texts are built in `heapless::String`s, which hold a fixed number of bytes.
use core::fmt::Write;

use vstd::prelude::*;
#[allow(unused_imports)]
use vstd::utf8::is_ascii_chars;

use crate::datetime::DateTime;

verus! {

/// The bytes that a text of the display may take.
pub const TEXT_CAPACITY: usize = 16;

/// The fixed-capacity string of the `heapless` crate.
#[verifier::external_type_specification]
#[verifier::external_body]
pub struct ExString<const N: usize>(heapless::String<N>);

/// The characters that a text holds.
pub uninterp spec fn text_of(text: heapless::String<16>) -> Seq<char>;

/// The decimal digit for a number below 10.
pub open spec fn digit(value: nat) -> char {
    ('0' as nat + value) as char
}

/// A number in decimal, without leading zeros.
pub open spec fn decimal(value: nat) -> Seq<char>
    decreases value,
{
    if value < 10 {
        seq![digit(value)]
    } else {
        decimal(value / 10).push(digit(value % 10))
    }
}

/// A number in decimal, filled up to `width` characters with zeros that stand
/// after the sign. A longer number is written in full.
pub open spec fn zero_padded(value: int, width: nat) -> Seq<char> {
    let sign = if value < 0 {
        seq!['-']
    } else {
        seq![]
    };
    let digits = decimal(if value < 0 {
        -value as nat
    } else {
        value as nat
    });
    let used = sign.len() + digits.len();
    let zeros = if used < width {
        (width - used) as nat
    } else {
        0
    };
    sign + Seq::new(zeros, |i: int| '0') + digits
}

/// A date as the display shows it: year, month and day.
pub open spec fn date_characters(time: DateTime) -> Seq<char> {
    zero_padded(time.year as int, 4) + seq!['-'] + zero_padded(time.month as int, 2) + seq!['-']
        + zero_padded(time.day as int, 2)
}

/// A time of day as the display shows it: hour, minute and second.
pub open spec fn time_characters(time: DateTime) -> Seq<char> {
    zero_padded(time.hour as int, 2) + seq![':'] + zero_padded(time.minute as int, 2) + seq![':']
        + zero_padded(time.second as int, 2)
}

/// Calls `heapless::String::new`. Trusted: the new string is empty.
#[verifier::external_body]
fn heapless_new() -> (text: heapless::String<16>)
    ensures
        text_of(text) == Seq::<char>::empty(),
{
    heapless::String::new()
}

/// Calls `heapless::String::push`. Trusted: where there is room for one more
/// byte, an ASCII character is added at the end.
#[verifier::external_body]
fn heapless_push(text: &mut heapless::String<16>, character: char)
    requires
        is_ascii_chars(text_of(*old(text))),
        text_of(*old(text)).len() < TEXT_CAPACITY,
        character <= '\u{7f}',
    ensures
        text_of(*final(text)) == text_of(*old(text)).push(character),
{
    text.push(character).unwrap()
}

/// Writes a number into a `heapless::String` through `core::fmt::Write`, with the
/// zero flag and a width. Trusted: where there is room, the number is added at
/// the end in decimal, filled up to the width with zeros after the sign.
#[verifier::external_body]
fn heapless_write_number(text: &mut heapless::String<16>, value: i32, width: usize)
    requires
        is_ascii_chars(text_of(*old(text))),
        text_of(*old(text)).len() + zero_padded(value as int, width as nat).len() <= TEXT_CAPACITY,
    ensures
        text_of(*final(text)) == text_of(*old(text)) + zero_padded(value as int, width as nat),
{
    write!(text, "{:0width$}", value, width = width).unwrap()
}

/// The date of a time, as year, month and day.
pub fn date_text(time: &DateTime) -> (text: heapless::String<16>)
    requires
        time.valid(),
    ensures
        text_of(text) == date_characters(*time),
{
    proof {
        lemma_padded_year(time.year as int);
        lemma_padded_pair(time.month as int);
        lemma_padded_pair(time.day as int);
    }
    let mut text = heapless_new();
    heapless_write_number(&mut text, time.year, 4);
    heapless_push(&mut text, '-');
    heapless_write_number(&mut text, time.month as i32, 2);
    heapless_push(&mut text, '-');
    heapless_write_number(&mut text, time.day as i32, 2);
    assert(text_of(text) =~= date_characters(*time));
    text
}

/// The time of day of a time, as hour, minute and second.
pub fn time_text(time: &DateTime) -> (text: heapless::String<16>)
    requires
        time.valid(),
    ensures
        text_of(text) == time_characters(*time),
{
    proof {
        lemma_padded_pair(time.hour as int);
        lemma_padded_pair(time.minute as int);
        lemma_padded_pair(time.second as int);
    }
    let mut text = heapless_new();
    heapless_write_number(&mut text, time.hour as i32, 2);
    heapless_push(&mut text, ':');
    heapless_write_number(&mut text, time.minute as i32, 2);
    heapless_push(&mut text, ':');
    heapless_write_number(&mut text, time.second as i32, 2);
    assert(text_of(text) =~= time_characters(*time));
    text
}

proof fn lemma_decimal_is_ascii(value: nat)
    ensures
        is_ascii_chars(decimal(value)),
    decreases value,
{
    if value >= 10 {
        lemma_decimal_is_ascii(value / 10);
    }
}

/// A number of one or two digits takes two characters.
pub proof fn lemma_padded_pair(value: int)
    requires
        0 <= value < 100,
    ensures
        zero_padded(value, 2) == seq![digit((value / 10) as nat), digit((value % 10) as nat)],
        zero_padded(value, 2).len() == 2,
        is_ascii_chars(zero_padded(value, 2)),
{
    reveal_with_fuel(decimal, 2);
    lemma_decimal_is_ascii(value as nat);
    assert(zero_padded(value, 2) =~= seq![
        digit((value / 10) as nat),
        digit((value % 10) as nat),
    ]);
}

/// The years of the supported range take from four to seven characters.
proof fn lemma_padded_year(year: int)
    requires
        -1_000_000 < year < 1_000_000,
    ensures
        4 <= zero_padded(year, 4).len() <= 7,
        0 <= year < 10_000 ==> zero_padded(year, 4).len() == 4,
        is_ascii_chars(zero_padded(year, 4)),
{
    reveal_with_fuel(decimal, 6);
    lemma_decimal_is_ascii(if year < 0 {
        -year as nat
    } else {
        year as nat
    });
}

/// The time of day always takes eight characters. The date takes ten in the years
/// from 0 to 9999, and from ten to thirteen in the others.
pub proof fn law_text_lengths(time: DateTime)
    requires
        time.valid(),
    ensures
        time_characters(time).len() == 8,
        0 <= time.year <= 9999 ==> date_characters(time).len() == 10,
        10 <= date_characters(time).len() <= 13,
{
    lemma_padded_year(time.year as int);
    lemma_padded_pair(time.month as int);
    lemma_padded_pair(time.day as int);
    lemma_padded_pair(time.hour as int);
    lemma_padded_pair(time.minute as int);
    lemma_padded_pair(time.second as int);
}

/// The number that a row of decimal digits stands for.
pub open spec fn digits_value(digits: Seq<char>) -> int
    decreases digits.len(),
{
    if digits.len() == 0 {
        0
    } else {
        digits_value(digits.drop_last()) * 10 + (digits.last() as int - '0' as int)
    }
}

proof fn lemma_decimal_value(value: nat)
    ensures
        digits_value(decimal(value)) == value,
        decimal(value).len() > 0,
        '0' <= decimal(value)[0] <= '9',
    decreases value,
{
    if value >= 10 {
        lemma_decimal_value(value / 10);
        assert(decimal(value).drop_last() =~= decimal(value / 10));
        assert(digit(value % 10) as int - '0' as int == value % 10);
    } else {
        assert(decimal(value).drop_last() =~= Seq::<char>::empty());
        assert(digits_value(Seq::<char>::empty()) == 0);
        assert(digit(value) as int - '0' as int == value);
    }
}

proof fn lemma_leading_zeros(zeros: nat, digits: Seq<char>)
    ensures
        digits_value(Seq::new(zeros, |i: int| '0') + digits) == digits_value(digits),
    decreases zeros + digits.len(),
{
    let row = Seq::new(zeros, |i: int| '0') + digits;
    if digits.len() > 0 {
        lemma_leading_zeros(zeros, digits.drop_last());
        assert(row.drop_last() =~= Seq::new(zeros, |i: int| '0') + digits.drop_last());
    } else if zeros > 0 {
        lemma_leading_zeros((zeros - 1) as nat, digits);
        assert(row.drop_last() =~= Seq::new((zeros - 1) as nat, |i: int| '0') + digits);
    }
}

/// The value of a padded number can be read off its characters.
proof fn lemma_padded_value(value: int, width: nat)
    ensures
        zero_padded(value, width).len() > 0,
        value < 0 <==> zero_padded(value, width)[0] == '-',
        value < 0 ==> digits_value(zero_padded(value, width).skip(1)) == -value,
        value >= 0 ==> digits_value(zero_padded(value, width)) == value,
{
    let digits = decimal(if value < 0 {
        -value as nat
    } else {
        value as nat
    });
    let used = digits.len() + if value < 0 {
        1nat
    } else {
        0nat
    };
    let zeros = if used < width {
        (width - used) as nat
    } else {
        0
    };
    let filled = Seq::new(zeros, |i: int| '0') + digits;
    lemma_decimal_value(if value < 0 {
        -value as nat
    } else {
        value as nat
    });
    lemma_leading_zeros(zeros, digits);
    if value < 0 {
        assert(zero_padded(value, width).skip(1) =~= filled);
    } else {
        assert(zero_padded(value, width) =~= filled);
    }
}

/// Whether all of the characters are decimal digits.
pub open spec fn all_digits(characters: Seq<char>) -> bool {
    forall|i: int| 0 <= i < characters.len() ==> '0' <= #[trigger] characters[i] <= '9'
}

proof fn lemma_decimal_digits(value: nat)
    ensures
        all_digits(decimal(value)),
        value > 0 ==> decimal(value)[0] != '0',
    decreases value,
{
    if value >= 10 {
        lemma_decimal_digits(value / 10);
        lemma_decimal_value(value / 10);
    }
}

/// The characters of a year are a sign, where it is negative, and digits, which
/// do not begin with a zero where there are more than four characters.
proof fn lemma_padded_digits(year: int)
    requires
        -1_000_000 < year < 1_000_000,
    ensures
        ({
            let text = zero_padded(year, 4);
            let digits = if year < 0 {
                text.skip(1)
            } else {
                text
            };
            &&& all_digits(digits)
            &&& digits.len() > 0
            &&& text.len() > 4 ==> digits[0] != '0'
        }),
{
    let value = if year < 0 {
        -year as nat
    } else {
        year as nat
    };
    lemma_decimal_digits(value);
    lemma_decimal_value(value);
    lemma_padded_year(year);
    let text = zero_padded(year, 4);
    let digits = decimal(value);
    let used = digits.len() + if year < 0 {
        1nat
    } else {
        0nat
    };
    let zeros = if used < 4 {
        (4 - used) as nat
    } else {
        0
    };
    let filled = Seq::new(zeros, |i: int| '0') + digits;
    if year < 0 {
        assert(text.skip(1) =~= filled);
    } else {
        assert(text =~= filled);
    }
    assert(text.len() == used + zeros);
    assert(all_digits(filled));
    if text.len() > 4 {
        assert(filled[0] == digits[0]);
        if value == 0 {
            assert(digits.len() == 1);
        }
    }
}

/// The fields can be read off the texts. The time of day is three pairs of digits
/// with colons between them. The date ends with a hyphen, the two digits of the
/// month, a hyphen and the two digits of the day; before that stands the year, in
/// four characters or more, with a sign where it is negative, and with no zero in
/// front where it takes more than four.
#[verifier::rlimit(40)]
pub proof fn law_fields_can_be_read_off(time: DateTime)
    requires
        time.valid(),
    ensures
        ({
            let clock = time_characters(time);
            &&& clock.len() == 8
            &&& clock[2] == ':'
            &&& clock[5] == ':'
            &&& all_digits(clock.subrange(0, 2))
            &&& all_digits(clock.subrange(3, 5))
            &&& all_digits(clock.subrange(6, 8))
            &&& digits_value(clock.subrange(0, 2)) == time.hour
            &&& digits_value(clock.subrange(3, 5)) == time.minute
            &&& digits_value(clock.subrange(6, 8)) == time.second
        }),
        ({
            let date = date_characters(time);
            let end = date.len() - 6;
            let year = date.take(end);
            let digits = if time.year < 0 {
                year.skip(1)
            } else {
                year
            };
            &&& year.len() >= 4
            &&& date[end] == '-'
            &&& date[end + 3] == '-'
            &&& all_digits(date.subrange(end + 1, end + 3))
            &&& all_digits(date.subrange(end + 4, end + 6))
            &&& digits_value(date.subrange(end + 1, end + 3)) == time.month
            &&& digits_value(date.subrange(end + 4, end + 6)) == time.day
            &&& time.year < 0 <==> year[0] == '-'
            &&& all_digits(digits)
            &&& digits_value(digits) == if time.year < 0 {
                -time.year
            } else {
                time.year as int
            }
            &&& year.len() > 4 ==> digits[0] != '0'
        }),
{
    let date = date_characters(time);
    let clock = time_characters(time);
    let end = date.len() - 6;
    lemma_padded_year(time.year as int);
    lemma_padded_digits(time.year as int);
    lemma_padded_pair(time.month as int);
    lemma_padded_pair(time.day as int);
    lemma_padded_pair(time.hour as int);
    lemma_padded_pair(time.minute as int);
    lemma_padded_pair(time.second as int);
    assert(zero_padded(time.year as int, 4) =~= date.take(end));
    assert(zero_padded(time.month as int, 2) =~= date.subrange(end + 1, end + 3));
    assert(zero_padded(time.day as int, 2) =~= date.subrange(end + 4, end + 6));
    assert(zero_padded(time.hour as int, 2) =~= clock.subrange(0, 2));
    assert(zero_padded(time.minute as int, 2) =~= clock.subrange(3, 5));
    assert(zero_padded(time.second as int, 2) =~= clock.subrange(6, 8));
    lemma_padded_value(time.year as int, 4);
    lemma_padded_value(time.month as int, 2);
    lemma_padded_value(time.day as int, 2);
    lemma_padded_value(time.hour as int, 2);
    lemma_padded_value(time.minute as int, 2);
    lemma_padded_value(time.second as int, 2);
}

/// The display is not ambiguous: two times that are shown with the same date and
/// the same time of day are the same, but for the part of a second.
#[verifier::rlimit(40)]
pub proof fn law_texts_tell_the_time(a: DateTime, b: DateTime)
    requires
        a.valid(),
        b.valid(),
        date_characters(a) == date_characters(b),
        time_characters(a) == time_characters(b),
    ensures
        a.whole_second() == b.whole_second(),
{
    let date = date_characters(a);
    let time = time_characters(a);
    let year_end = date.len() - 6;
    lemma_padded_pair(a.month as int);
    lemma_padded_pair(a.day as int);
    lemma_padded_pair(a.hour as int);
    lemma_padded_pair(a.minute as int);
    lemma_padded_pair(a.second as int);
    lemma_padded_pair(b.month as int);
    lemma_padded_pair(b.day as int);
    lemma_padded_pair(b.hour as int);
    lemma_padded_pair(b.minute as int);
    lemma_padded_pair(b.second as int);
    assert(zero_padded(a.year as int, 4) =~= date.take(year_end));
    assert(zero_padded(b.year as int, 4) =~= date.take(year_end));
    assert(zero_padded(a.month as int, 2) =~= date.subrange(year_end + 1, year_end + 3));
    assert(zero_padded(b.month as int, 2) =~= date.subrange(year_end + 1, year_end + 3));
    assert(zero_padded(a.day as int, 2) =~= date.subrange(year_end + 4, year_end + 6));
    assert(zero_padded(b.day as int, 2) =~= date.subrange(year_end + 4, year_end + 6));
    assert(zero_padded(a.hour as int, 2) =~= time.subrange(0, 2));
    assert(zero_padded(b.hour as int, 2) =~= time.subrange(0, 2));
    assert(zero_padded(a.minute as int, 2) =~= time.subrange(3, 5));
    assert(zero_padded(b.minute as int, 2) =~= time.subrange(3, 5));
    assert(zero_padded(a.second as int, 2) =~= time.subrange(6, 8));
    assert(zero_padded(b.second as int, 2) =~= time.subrange(6, 8));
    lemma_padded_value(a.year as int, 4);
    lemma_padded_value(b.year as int, 4);
    lemma_padded_value(a.month as int, 2);
    lemma_padded_value(b.month as int, 2);
    lemma_padded_value(a.day as int, 2);
    lemma_padded_value(b.day as int, 2);
    lemma_padded_value(a.hour as int, 2);
    lemma_padded_value(b.hour as int, 2);
    lemma_padded_value(a.minute as int, 2);
    lemma_padded_value(b.minute as int, 2);
    lemma_padded_value(a.second as int, 2);
    lemma_padded_value(b.second as int, 2);
}

} // verus!
