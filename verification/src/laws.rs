//! What holds of the calendar's rules on every day of every year.
use vstd::prelude::*;
use crate::calendar::{day_in_cycle, is_leap, letters, month_of, symbol_of};
use crate::text::{digit, short_year, shown_day, text_of};

verus! {

/// On every day of the year the day of month lies between 1 and 14.
pub proof fn day_of_month_in_range(n: int)
    requires
        1 <= n <= 366,
    ensures
        1 <= day_in_cycle(n) <= 14,
{
}

/// On every day of the year the month number is one of 1 to 26, or 27; it is
/// 27 on day 365 and day 366 and on no other day.
pub proof fn month_in_range(n: int)
    requires
        1 <= n <= 366,
    ensures
        1 <= month_of(n) <= 27,
        month_of(n) == 27 <==> n == 365 || n == 366,
{
}

/// The month number is the count of full months before the day, plus one for
/// a month begun: with `r` the remainder of the day by fourteen, it is the
/// quotient where `r` is zero, and otherwise the quotient of the day less
/// `r`, plus one.
pub proof fn month_by_remainder(n: int)
    requires
        0 <= n,
    ensures
        n % 14 == 0 ==> month_of(n) == n / 14,
        n % 14 != 0 ==> month_of(n) == (n - n % 14) / 14 + 1,
{
}

/// The symbol is `'+'` for month 27 and for no other month; month `m` of the
/// twenty-six has the letter at place `m - 1` of the alphabet, which lies
/// `m - 1` code points after `'A'`.
pub proof fn symbol_of_month(m: int)
    requires
        1 <= m <= 27,
    ensures
        symbol_of(m) == '+' <==> m == 27,
        m != 27 ==> symbol_of(m) == letters()[m - 1],
        m != 27 ==> symbol_of(m) as int == 'A' as int + (m - 1),
{
}

/// In a leap year day 365 is written as day 02 and day 366 as day 01, both
/// under `'+'`, while the day of month itself stays 1 and 2. In any other
/// year day 365 is written as day 01 under `'+'`.
pub proof fn leap_day_swap(year: int)
    ensures
        day_in_cycle(365) == 1 && day_in_cycle(366) == 2,
        is_leap(year) ==> shown_day(year, 365) == 2 && shown_day(year, 366) == 1,
        is_leap(year) ==> text_of(year, 365).subrange(2, 5) == seq!['+', '0', '2'],
        is_leap(year) ==> text_of(year, 366).subrange(2, 5) == seq!['+', '0', '1'],
        !is_leap(year) ==> shown_day(year, 365) == 1,
        !is_leap(year) ==> text_of(year, 365).subrange(2, 5) == seq!['+', '0', '1'],
{
    assert(text_of(year, 365).subrange(2, 5) =~= seq![
        '+',
        digit(shown_day(year, 365) / 10),
        digit(shown_day(year, 365) % 10),
    ]);
    assert(text_of(year, 366).subrange(2, 5) =~= seq![
        '+',
        digit(shown_day(year, 366) / 10),
        digit(shown_day(year, 366) % 10),
    ]);
    assert(seq!['+', digit(0), digit(2)] =~= seq!['+', '0', '2']);
    assert(seq!['+', digit(0), digit(1)] =~= seq!['+', '0', '1']);
}

/// Before the days after the last month the day is written as it is counted.
pub proof fn written_as_counted(year: int, n: int)
    requires
        1 <= n <= 364,
    ensures
        shown_day(year, n) == day_in_cycle(n),
{
}

/// The text of a day has five characters: two digits of the year, a capital
/// letter or `'+'`, and two digits of a day from 01 to 14.
pub proof fn text_shape(year: int, n: int)
    requires
        1 <= n <= 366,
    ensures
        text_of(year, n).len() == 5,
        '0' <= text_of(year, n)[0] <= '9',
        '0' <= text_of(year, n)[1] <= '9',
        text_of(year, n)[2] == '+' || 'A' <= text_of(year, n)[2] <= 'Z',
        '0' <= text_of(year, n)[3] <= '1',
        '0' <= text_of(year, n)[4] <= '9',
        1 <= shown_day(year, n) <= 14,
        0 <= short_year(year) <= 99,
{
    symbol_of_month(month_of(n));
}

/// Years a whole number of centuries apart are written alike.
pub proof fn centuries_collide(year: int, n: int)
    requires
        0 <= year,
    ensures
        text_of(year + 100, n).subrange(0, 2) == text_of(year, n).subrange(0, 2),
{
    assert(text_of(year + 100, n).subrange(0, 2) =~= text_of(year, n).subrange(0, 2));
}

} // verus!
