//! Time stamps: seconds since 1970, written as a number or as an ISO 8601
//! date and time.

use crate::text::{
    all_digits, char_is_digit, char_to_digit, chars_of, count_leading, digit_value, is_digit,
    leading, lemma_leading_bounds, number_of, only_digits, slice_of, CharClass,
};
use vstd::prelude::*;

verus! {

/// The seconds of a day.
pub const DAY: i64 = 86_400;

/// How many characters the date and the time of an ISO 8601 time stamp
/// take: `YYYY-MM-DDTHH:MM:SS`.
pub const ISO_HEAD: usize = 19;

/// Why a text is no time stamp.
#[derive(Debug, Clone, Copy, PartialEq, Eq, Structural)]
pub enum TimestampFault {
    /// The text is empty.
    Empty,
    /// The text has a character that is no digit, or no digit at all.
    InvalidDigit,
    /// The number does not fit in 64 bits.
    TooLarge,
    /// The text has a `T` but not the form of a date and a time.
    NotIso,
    /// A part of the date or of the time is out of its range.
    OutOfRange,
    /// The moment lies before 1970.
    BeforeEpoch,
}

impl TimestampFault {
    /// The fault in words.
    pub open spec fn text(self) -> Seq<char> {
        match self {
            TimestampFault::Empty => "cannot parse integer from empty string"@,
            TimestampFault::InvalidDigit => "invalid digit found in string"@,
            TimestampFault::TooLarge => "number too large to fit in target type"@,
            TimestampFault::NotIso => "not an ISO 8601 date and time"@,
            TimestampFault::OutOfRange => "date or time out of range"@,
            TimestampFault::BeforeEpoch => "date before 1970"@,
        }
    }

    /// The fault in words.
    pub fn describe(&self) -> (s: &'static str)
        ensures
            s@ == self.text(),
    {
        match self {
            TimestampFault::Empty => "cannot parse integer from empty string",
            TimestampFault::InvalidDigit => "invalid digit found in string",
            TimestampFault::TooLarge => "number too large to fit in target type",
            TimestampFault::NotIso => "not an ISO 8601 date and time",
            TimestampFault::OutOfRange => "date or time out of range",
            TimestampFault::BeforeEpoch => "date before 1970",
        }
    }
}

/// What a text stands for as an unsigned number of 64 bits: digits, with a
/// plus sign before them or without.
pub open spec fn unsigned_of(s: Seq<char>) -> Result<u64, TimestampFault> {
    let digits = if s.len() > 0 && s[0] == '+' {
        s.skip(1)
    } else {
        s
    };
    if s.len() == 0 {
        Err(TimestampFault::Empty)
    } else if digits.len() == 0 || !all_digits(digits) {
        Err(TimestampFault::InvalidDigit)
    } else if number_of(digits) > u64::MAX {
        Err(TimestampFault::TooLarge)
    } else {
        Ok(number_of(digits) as u64)
    }
}

/// Whether `year` is a leap year of the Gregorian calendar.
pub open spec fn is_leap(year: int) -> bool {
    year % 4 == 0 && (year % 100 != 0 || year % 400 == 0)
}

/// How many days the month `month` of `year` has.
pub open spec fn days_in_month(year: int, month: int) -> int {
    if month == 2 {
        if is_leap(year) {
            29
        } else {
            28
        }
    } else if month == 4 || month == 6 || month == 9 || month == 11 {
        30
    } else {
        31
    }
}

/// How many days of `year` lie before its month `month`.
pub open spec fn days_before_month(year: int, month: int) -> int
    decreases month,
{
    if month <= 1 {
        0
    } else {
        days_before_month(year, month - 1) + days_in_month(year, month - 1)
    }
}

/// How many leap years there are from year 1 up to the year before `year`.
pub open spec fn leap_years_before(year: int) -> int {
    (year - 1) / 4 - (year - 1) / 100 + (year - 1) / 400
}

/// How many days lie between the first day of 1970 and the given day.
pub open spec fn days_since_epoch(year: int, month: int, day: int) -> int {
    365 * (year - 1970) + leap_years_before(year) - leap_years_before(1970) + days_before_month(
        year,
        month,
    ) + day - 1
}

/// The number that the two digits of `s` at `i` and after it denote.
pub open spec fn two_digits(s: Seq<char>, i: int) -> int {
    digit_value(s[i]) * 10 + digit_value(s[i + 1])
}

/// The number that the four digits of `s` at `i` and after it denote.
pub open spec fn four_digits(s: Seq<char>, i: int) -> int {
    two_digits(s, i) * 100 + two_digits(s, i + 2)
}

/// Whether `s` starts as `YYYY-MM-DDTHH:MM:SS` does.
pub open spec fn iso_head(s: Seq<char>) -> bool {
    &&& s.len() >= ISO_HEAD
    &&& is_digit(s[0]) && is_digit(s[1]) && is_digit(s[2]) && is_digit(s[3])
    &&& s[4] == '-'
    &&& is_digit(s[5]) && is_digit(s[6])
    &&& s[7] == '-'
    &&& is_digit(s[8]) && is_digit(s[9])
    &&& s[10] == 'T'
    &&& is_digit(s[11]) && is_digit(s[12])
    &&& s[13] == ':'
    &&& is_digit(s[14]) && is_digit(s[15])
    &&& s[16] == ':'
    &&& is_digit(s[17]) && is_digit(s[18])
}

/// What follows the seconds, without the fraction of a second if there is
/// one: a point and the digits after it.
pub open spec fn iso_zone(s: Seq<char>) -> Seq<char> {
    let tail = s.skip(ISO_HEAD as int);
    if tail.len() > 0 && tail[0] == '.' {
        tail.skip(1 + leading(tail.skip(1), CharClass::Digit) as int)
    } else {
        tail
    }
}

/// Whether the fraction of a second, if there is a point, has a digit.
pub open spec fn iso_fraction_ok(s: Seq<char>) -> bool {
    let tail = s.skip(ISO_HEAD as int);
    tail.len() > 0 && tail[0] == '.' ==> tail.len() > 1 && is_digit(tail[1])
}

/// Whether `zone` names a time zone: nothing or `Z` for UTC, or a sign,
/// two digits, a colon and two digits.
pub open spec fn zone_shape(zone: Seq<char>) -> bool {
    ||| zone.len() == 0
    ||| (zone.len() == 1 && zone[0] == 'Z')
    ||| (zone.len() == 6 && (zone[0] == '+' || zone[0] == '-') && is_digit(zone[1]) && is_digit(
        zone[2],
    ) && zone[3] == ':' && is_digit(zone[4]) && is_digit(zone[5]))
}

/// How many seconds the local time of a zone is ahead of UTC.
pub open spec fn zone_offset(zone: Seq<char>) -> int {
    if zone.len() == 6 {
        let amount = two_digits(zone, 1) * 3600 + two_digits(zone, 4) * 60;
        if zone[0] == '-' {
            -amount
        } else {
            amount
        }
    } else {
        0
    }
}

/// Whether the parts of a time stamp of the right form are in their
/// ranges.
pub open spec fn iso_in_range(s: Seq<char>) -> bool {
    let zone = iso_zone(s);
    &&& 1 <= two_digits(s, 5) <= 12
    &&& 1 <= two_digits(s, 8) <= days_in_month(four_digits(s, 0), two_digits(s, 5))
    &&& two_digits(s, 11) <= 23
    &&& two_digits(s, 14) <= 59
    &&& two_digits(s, 17) <= 59
    &&& zone.len() == 6 ==> two_digits(zone, 1) <= 23 && two_digits(zone, 4) <= 59
}

/// The seconds between the start of 1970 in UTC and the moment that a time
/// stamp of the right form names. A fraction of a second is dropped.
pub open spec fn iso_seconds(s: Seq<char>) -> int {
    days_since_epoch(four_digits(s, 0), two_digits(s, 5), two_digits(s, 8)) * DAY + two_digits(
        s,
        11,
    ) * 3600 + two_digits(s, 14) * 60 + two_digits(s, 17) - zone_offset(iso_zone(s))
}

/// What an ISO 8601 time stamp stands for.
pub open spec fn iso_of(s: Seq<char>) -> Result<u64, TimestampFault> {
    if !(iso_head(s) && iso_fraction_ok(s) && zone_shape(iso_zone(s))) {
        Err(TimestampFault::NotIso)
    } else if !iso_in_range(s) {
        Err(TimestampFault::OutOfRange)
    } else if iso_seconds(s) < 0 {
        Err(TimestampFault::BeforeEpoch)
    } else {
        Ok(iso_seconds(s) as u64)
    }
}

/// What a time stamp stands for, in seconds since 1970: a text with a `T`
/// in it is read as a date and a time, any other as a number.
pub open spec fn epoch_of(s: Seq<char>) -> Result<u64, TimestampFault> {
    if s.contains('T') {
        iso_of(s)
    } else {
        unsigned_of(s)
    }
}

/// A run of digits denotes at least what a part of it at its start denotes.
pub proof fn lemma_number_grows(s: Seq<char>, n: int)
    requires
        all_digits(s),
        0 <= n <= s.len(),
    ensures
        number_of(s.take(n)) <= number_of(s),
    decreases s.len(),
{
    if n == s.len() {
        assert(s.take(n) =~= s);
    } else {
        let rest = s.drop_last();
        assert forall|i: int| 0 <= i < rest.len() implies is_digit(#[trigger] rest[i]) by {
            assert(rest[i] == s[i]);
        }
        assert(rest.take(n) =~= s.take(n));
        lemma_number_grows(rest, n);
        assert(is_digit(s[s.len() - 1]));
    }
}

/// Reads digits, with a plus sign before them or without, as a number of
/// 64 bits.
pub fn parse_unsigned(text: &str) -> (r: Result<u64, TimestampFault>)
    ensures
        r == unsigned_of(text@),
{
    let chars = chars_of(text);
    if chars.len() == 0 {
        return Err(TimestampFault::Empty);
    }
    let digits = if chars[0] == '+' {
        slice_of(&chars, 1, chars.len())
    } else {
        slice_of(&chars, 0, chars.len())
    };
    proof {
        if chars@[0] == '+' {
            assert(digits@ =~= text@.skip(1));
        } else {
            assert(digits@ =~= text@);
        }
    }
    if digits.len() == 0 || !only_digits(&digits) {
        return Err(TimestampFault::InvalidDigit);
    }
    let mut n: u64 = 0;
    let mut i: usize = 0;
    while i < digits.len()
        invariant
            i <= digits.len(),
            all_digits(digits@),
            n == number_of(digits@.take(i as int)),
            text@.len() > 0,
            digits@.len() > 0,
            digits@ == if text@[0] == '+' {
                text@.skip(1)
            } else {
                text@
            },
        decreases digits.len() - i,
    {
        let d = char_to_digit(digits[i]) as u64;
        proof {
            assert(digits@.take(i + 1).drop_last() =~= digits@.take(i as int));
            assert(digits@.take(i + 1).last() == digits@[i as int]);
            lemma_number_grows(digits@, i + 1);
            assert(number_of(digits@.take(i + 1)) == n * 10 + d);
        }
        if n > (u64::MAX - d) / 10 {
            assert(n * 10 + d > u64::MAX);
            return Err(TimestampFault::TooLarge);
        }
        n = n * 10 + d;
        i += 1;
    }
    assert(digits@.take(digits@.len() as int) =~= digits@);
    Ok(n)
}

/// Tells whether `year` is a leap year.
pub(crate) fn leap(year: i64) -> (b: bool)
    requires
        0 <= year <= 9999,
    ensures
        b == is_leap(year as int),
{
    year % 4 == 0 && (year % 100 != 0 || year % 400 == 0)
}

/// The days of a month.
pub(crate) fn month_length(year: i64, month: i64) -> (days: i64)
    requires
        0 <= year <= 9999,
        1 <= month <= 12,
    ensures
        days == days_in_month(year as int, month as int),
{
    if month == 2 {
        if leap(year) {
            29
        } else {
            28
        }
    } else if month == 4 || month == 6 || month == 9 || month == 11 {
        30
    } else {
        31
    }
}

/// The days between the first day of 1970 and the given day.
pub(crate) fn days_from_epoch(year: i64, month: i64, day: i64) -> (days: i64)
    requires
        1 <= year <= 9999,
        1 <= month <= 12,
        1 <= day <= 31,
    ensures
        days == days_since_epoch(year as int, month as int, day as int),
        -720_000 <= days <= 2_933_000,
{
    let mut before: i64 = 0;
    let mut m: i64 = 1;
    while m < month
        invariant
            1 <= m <= month <= 12,
            0 <= year <= 9999,
            before == days_before_month(year as int, m as int),
            0 <= before <= 31 * (m - 1),
        decreases month - m,
    {
        before = before + month_length(year, m);
        m += 1;
    }
    let previous = year - 1;
    let leaps = previous / 4 - previous / 100 + previous / 400;
    // 477 leap years lie between year 1 and 1969.
    assert(leap_years_before(1970) == 477);
    365 * (year - 1970) + leaps - 477 + before + day - 1
}

/// The two digits of `v` at `i` and after it, as a number.
fn read_two(v: &Vec<char>, i: usize) -> (n: i64)
    requires
        i + 1 < v.len(),
        is_digit(v@[i as int]),
        is_digit(v@[i + 1]),
    ensures
        n == two_digits(v@, i as int),
        0 <= n <= 99,
{
    (char_to_digit(v[i]) as i64) * 10 + char_to_digit(v[i + 1]) as i64
}

/// Tells whether `v` starts as `YYYY-MM-DDTHH:MM:SS` does.
fn has_iso_head(v: &Vec<char>) -> (b: bool)
    ensures
        b == iso_head(v@),
{
    v.len() >= ISO_HEAD && char_is_digit(v[0]) && char_is_digit(v[1]) && char_is_digit(v[2])
        && char_is_digit(v[3]) && v[4] == '-' && char_is_digit(v[5]) && char_is_digit(v[6])
        && v[7] == '-' && char_is_digit(v[8]) && char_is_digit(v[9]) && v[10] == 'T'
        && char_is_digit(v[11]) && char_is_digit(v[12]) && v[13] == ':' && char_is_digit(v[14])
        && char_is_digit(v[15]) && v[16] == ':' && char_is_digit(v[17]) && char_is_digit(v[18])
}

/// Tells whether `zone` names a time zone.
fn has_zone_shape(zone: &Vec<char>) -> (b: bool)
    ensures
        b == zone_shape(zone@),
{
    zone.len() == 0 || (zone.len() == 1 && zone[0] == 'Z') || (zone.len() == 6 && (zone[0] == '+'
        || zone[0] == '-') && char_is_digit(zone[1]) && char_is_digit(zone[2]) && zone[3] == ':'
        && char_is_digit(zone[4]) && char_is_digit(zone[5]))
}

/// Reads an ISO 8601 date and time, `YYYY-MM-DDTHH:MM:SS`, with a fraction
/// of a second after it or without, and then nothing, `Z`, or a zone such
/// as `+03:00`.
pub fn parse_iso8601(text: &str) -> (r: Result<u64, TimestampFault>)
    ensures
        r == iso_of(text@),
{
    let v = chars_of(text);
    if !has_iso_head(&v) {
        return Err(TimestampFault::NotIso);
    }
    let tail = slice_of(&v, ISO_HEAD, v.len());
    assert(tail@ =~= text@.skip(ISO_HEAD as int));
    let zone = if tail.len() > 0 && tail[0] == '.' {
        if tail.len() < 2 || !char_is_digit(tail[1]) {
            return Err(TimestampFault::NotIso);
        }
        let after_point = slice_of(&tail, 1, tail.len());
        assert(after_point@ =~= tail@.skip(1));
        let digits = count_leading(&after_point, CharClass::Digit);
        let zone = slice_of(&tail, 1 + digits, tail.len());
        assert(zone@ =~= tail@.skip(1 + digits));
        zone
    } else {
        tail
    };
    assert(zone@ == iso_zone(text@));
    if !has_zone_shape(&zone) {
        return Err(TimestampFault::NotIso);
    }
    let year = read_two(&v, 0) * 100 + read_two(&v, 2);
    let month = read_two(&v, 5);
    let day = read_two(&v, 8);
    let hour = read_two(&v, 11);
    let minute = read_two(&v, 14);
    let second = read_two(&v, 17);
    if month < 1 || month > 12 {
        return Err(TimestampFault::OutOfRange);
    }
    if day < 1 || day > month_length(year, month) || hour > 23 || minute > 59 || second > 59 {
        return Err(TimestampFault::OutOfRange);
    }
    let offset: i64 = if zone.len() == 6 {
        let zone_hour = read_two(&zone, 1);
        let zone_minute = read_two(&zone, 4);
        if zone_hour > 23 || zone_minute > 59 {
            return Err(TimestampFault::OutOfRange);
        }
        let amount = zone_hour * 3600 + zone_minute * 60;
        if zone[0] == '-' {
            -amount
        } else {
            amount
        }
    } else {
        0
    };
    if year < 1 {
        // The year 0 ends long before 1970, whatever the zone.
        assert(days_since_epoch(0, month as int, day as int) <= -719_000) by {
            lemma_days_before_month_bound(0, month as int);
        }
        return Err(TimestampFault::BeforeEpoch);
    }
    let seconds = days_from_epoch(year, month, day) * DAY + hour * 3600 + minute * 60 + second
        - offset;
    if seconds < 0 {
        return Err(TimestampFault::BeforeEpoch);
    }
    Ok(seconds as u64)
}

/// The days before a month are at most 31 for each month before it.
pub proof fn lemma_days_before_month_bound(year: int, month: int)
    requires
        1 <= month <= 12,
    ensures
        0 <= days_before_month(year, month) <= 31 * (month - 1),
    decreases month,
{
    if month > 1 {
        lemma_days_before_month_bound(year, month - 1);
    }
}

/// Tells whether the text has the character `c` in it.
pub fn has_char(text: &str, c: char) -> (b: bool)
    ensures
        b == text@.contains(c),
{
    let v = chars_of(text);
    let n = count_leading(&v, CharClass::Except(c));
    proof {
        lemma_leading_bounds(v@, CharClass::Except(c));
        if n < v.len() {
            assert(v@[n as int] == c);
        } else {
            assert forall|i: int| 0 <= i < v@.len() implies v@[i] != c by {
                assert(CharClass::Except(c).holds(v@[i]));
            }
        }
    }
    n < v.len()
}

/// Reads a time stamp: a text with a `T` in it as an ISO 8601 date and
/// time, any other as a number of seconds since 1970.
pub fn parse_timestamp(text: &str) -> (r: Result<u64, TimestampFault>)
    ensures
        r == epoch_of(text@),
{
    if has_char(text, 'T') {
        parse_iso8601(text)
    } else {
        parse_unsigned(text)
    }
}

} // verus!
