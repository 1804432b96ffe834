//! The rules of the Arvile calendar, on plain numbers: a year number and a
//! day of the year counted from 1.
use vstd::prelude::*;

verus! {

/// Days in an Arvile month.
pub const MONTH_LENGTH: u32 = 14;

/// The month number that stands for the days after the last full month.
pub const YEAR_DAY: u32 = 27;

/// The Gregorian leap-year rule.
pub open spec fn is_leap(year: int) -> bool {
    year % 4 == 0 && (year % 100 != 0 || year % 400 == 0)
}

/// The place of day `n` within its block of fourteen days, from 1 to 14.
pub open spec fn day_in_cycle(n: int) -> int {
    if n % 14 == 0 {
        14
    } else {
        n % 14
    }
}

/// The number of the block of fourteen days that holds day `n`.
pub open spec fn month_of(n: int) -> int {
    (n - 1) / 14 + 1
}

/// The letters of the twenty-six months, in order.
pub open spec fn letters() -> Seq<char> {
    seq![
        'A', 'B', 'C', 'D', 'E', 'F', 'G', 'H', 'I', 'J', 'K', 'L', 'M',
        'N', 'O', 'P', 'Q', 'R', 'S', 'T', 'U', 'V', 'W', 'X', 'Y', 'Z',
    ]
}

/// The symbol of month `m`: its letter, or `'+'` for the days after the last
/// month.
pub open spec fn symbol_of(m: int) -> char {
    if m == 27 {
        '+'
    } else {
        letters()[m - 1]
    }
}

/// Whether `year` is a Gregorian leap year.
pub fn leap_year(year: i32) -> (leap: bool)
    ensures
        leap == is_leap(year as int),
{
    if year % 4 != 0 {
        false
    } else if year % 100 == 0 {
        year % 400 == 0
    } else {
        true
    }
}

/// The day of the Arvile month on day `ordinal` of the year.
pub fn day_of_month(ordinal: u32) -> (day: u32)
    ensures
        day == day_in_cycle(ordinal as int),
        1 <= day <= 14,
{
    let rest: u32 = ordinal % MONTH_LENGTH;
    if rest == 0 {
        MONTH_LENGTH
    } else {
        rest
    }
}

/// The number of the Arvile month on day `ordinal` of the year.
pub fn month_index(ordinal: u32) -> (month: u32)
    ensures
        month == month_of(ordinal as int),
        1 <= ordinal <= 366 ==> 1 <= month <= 27,
        1 <= ordinal <= 366 ==> (month == 27 <==> ordinal >= 365),
{
    let rest: u32 = ((ordinal % MONTH_LENGTH) + MONTH_LENGTH) % MONTH_LENGTH;
    if rest == 0 {
        ordinal / MONTH_LENGTH
    } else {
        (ordinal - rest) / MONTH_LENGTH + 1
    }
}

/// The symbol of the Arvile month with number `index`.
pub fn month_symbol(index: u32) -> (symbol: char)
    requires
        1 <= index <= 27,
    ensures
        symbol == symbol_of(index as int),
        symbol == '+' <==> index == 27,
{
    if index == YEAR_DAY {
        '+'
    } else {
        let code: u8 = 0x40u8 + index as u8;
        code as char
    }
}

} // verus!
