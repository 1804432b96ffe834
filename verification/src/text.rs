//! The written form of an Arvile date: two digits of the year, the month
//! symbol, two digits of the day.
use vstd::prelude::*;
use crate::calendar::{
    day_in_cycle, day_of_month, is_leap, leap_year, month_index, month_of, month_symbol,
    symbol_of, YEAR_DAY,
};

verus! {

/// `String::push` of the standard library appends the character to the end
/// of the string and leaves what was there in place.
pub assume_specification[ String::push ](s: &mut String, c: char)
    ensures
        final(s)@ == old(s)@.push(c),
;

/// The decimal digit for `d`, where `d` is from 0 to 9.
pub open spec fn digit(d: int) -> char {
    ('0' as int + d) as char
}

/// The last two decimal digits of the year number, as a number below 100.
pub open spec fn short_year(year: int) -> int {
    if year < 0 {
        (-year) % 100
    } else {
        year % 100
    }
}

/// The day of month as it is written. Where the days after the last month
/// are two, in a leap year, they are written in reverse: the first as 2, the
/// second as 1.
pub open spec fn shown_day(year: int, n: int) -> int {
    let day = day_in_cycle(n);
    if month_of(n) == 27 && is_leap(year) {
        if day == 1 {
            2
        } else if day == 2 {
            1
        } else {
            day
        }
    } else {
        day
    }
}

/// The five characters that stand for day `n` of `year`.
pub open spec fn text_of(year: int, n: int) -> Seq<char> {
    seq![
        digit(short_year(year) / 10),
        digit(short_year(year) % 10),
        symbol_of(month_of(n)),
        digit(shown_day(year, n) / 10),
        digit(shown_day(year, n) % 10),
    ]
}

/// The character of one decimal digit.
pub fn digit_char(d: u8) -> (c: char)
    requires
        d <= 9,
    ensures
        c == digit(d as int),
{
    let code: u8 = 0x30u8 + d;
    code as char
}

/// The last two digits of the year number.
pub fn two_digit_year(year: i32) -> (yy: u8)
    ensures
        yy == short_year(year as int),
        yy <= 99,
{
    let wide: i64 = year as i64;
    let size: i64 = if wide < 0 {
        -wide
    } else {
        wide
    };
    (size % 100) as u8
}

/// The day of month as it is written on day `ordinal` of `year`.
pub fn written_day(year: i32, ordinal: u32) -> (day: u32)
    ensures
        day == shown_day(year as int, ordinal as int),
        1 <= day <= 14,
{
    let day: u32 = day_of_month(ordinal);
    if month_index(ordinal) == YEAR_DAY && leap_year(year) {
        if day == 1 {
            2
        } else if day == 2 {
            1
        } else {
            day
        }
    } else {
        day
    }
}

/// The text of day `ordinal` of `year`.
pub fn render(year: i32, ordinal: u32) -> (s: String)
    requires
        1 <= ordinal <= 366,
    ensures
        s@ == text_of(year as int, ordinal as int),
{
    let yy: u8 = two_digit_year(year);
    let symbol: char = month_symbol(month_index(ordinal));
    let day: u8 = written_day(year, ordinal) as u8;
    let mut s = String::new();
    s.push(digit_char(yy / 10));
    s.push(digit_char(yy % 10));
    s.push(symbol);
    s.push(digit_char(day / 10));
    s.push(digit_char(day % 10));
    proof {
        assert(s@ =~= text_of(year as int, ordinal as int));
    }
    s
}

} // verus!
