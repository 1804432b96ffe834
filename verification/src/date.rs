//! An Arvile date: a Gregorian date, read as a day of the Arvile calendar.
use vstd::prelude::*;
use vstd::std_specs::convert::FromSpecImpl;
use crate::calendar::{
    day_in_cycle, day_of_month, is_leap, leap_year, month_index, month_of, month_symbol,
    symbol_of,
};
use crate::gregorian::{ordinal, ordinal_of, year, year_of};
use crate::text::{render, text_of};

verus! {

/// The data structure to represent a date.
#[derive(Debug, Copy, Clone)]
pub struct Date {
    date: chrono::NaiveDate,
}

impl Date {
    /// The Gregorian date that this date wraps.
    pub closed spec fn gregorian(self) -> chrono::NaiveDate {
        self.date
    }

    /// The date that wraps `date`.
    pub closed spec fn wrap(date: chrono::NaiveDate) -> Date {
        Date { date }
    }

    /// The Gregorian year number of this date.
    pub open spec fn year(self) -> int {
        year_of(self.gregorian())
    }

    /// The day of the Gregorian year of this date, counted from 1.
    pub open spec fn ordinal(self) -> int {
        ordinal_of(self.gregorian())
    }

    /// Check if current year is leap year
    pub fn is_leap_year(self) -> (leap: bool)
        ensures
            leap == is_leap(self.year()),
    {
        leap_year(year(&self.date))
    }

    /// Return date as chrono's date
    pub fn into_chrono(self) -> (date: chrono::NaiveDate)
        ensures
            date == self.gregorian(),
    {
        self.date
    }

    /// Retrieve the number of the current Arvile day in current month
    pub fn get_dom(self) -> (day: u32)
        ensures
            day == day_in_cycle(self.ordinal()),
            1 <= day <= 14,
    {
        day_of_month(ordinal(&self.date))
    }

    /// Retrieve the number of the current Arvile month
    /// *note*: 27 encodes year day / leap day
    pub fn get_month_u32(self) -> (month: u32)
        ensures
            month == month_of(self.ordinal()),
            1 <= month <= 27,
            month == 27 <==> self.ordinal() >= 365,
    {
        month_index(ordinal(&self.date))
    }

    /// Retrieve the current Arvile month as string (character).
    /// *note*: '+' encodes year day / leap day
    pub fn get_month_char(self) -> (symbol: char)
        ensures
            symbol == symbol_of(month_of(self.ordinal())),
            symbol == '+' <==> month_of(self.ordinal()) == 27,
    {
        month_symbol(self.get_month_u32())
    }

    /// String representation.
    pub fn to_string(&self) -> (s: String)
        ensures
            s@ == text_of(self.year(), self.ordinal()),
    {
        render(year(&self.date), ordinal(&self.date))
    }
}

/// Unwrapping a wrapped date gives the date back.
pub proof fn wrap_then_unwrap(date: chrono::NaiveDate)
    ensures
        Date::wrap(date).gregorian() == date,
        Date::wrap(date).year() == year_of(date),
        Date::wrap(date).ordinal() == ordinal_of(date),
{
}

impl From<chrono::NaiveDate> for Date {
    fn from(item: chrono::NaiveDate) -> (date: Date)
        ensures
            date.gregorian() == item,
    {
        Date { date: item }
    }
}

impl FromSpecImpl<chrono::NaiveDate> for Date {
    open spec fn obeys_from_spec() -> bool {
        true
    }

    open spec fn from_spec(item: chrono::NaiveDate) -> Date {
        Date::wrap(item)
    }
}

impl From<&chrono::NaiveDate> for Date {
    fn from(item: &chrono::NaiveDate) -> (date: Date)
        ensures
            date.gregorian() == *item,
    {
        Date { date: *item }
    }
}

impl FromSpecImpl<&chrono::NaiveDate> for Date {
    open spec fn obeys_from_spec() -> bool {
        true
    }

    open spec fn from_spec(item: &chrono::NaiveDate) -> Date {
        Date::wrap(*item)
    }
}

} // verus!
