//! The Gregorian side: the date type of `chrono` and the two readings that
//! the Arvile calendar takes from it.
use vstd::prelude::*;
use chrono::Datelike;

verus! {

/// `chrono::NaiveDate`, carried as an opaque value.
#[verifier::external_type_specification]
#[verifier::external_body]
pub struct ExNaiveDate(chrono::NaiveDate);

/// The year number that `Datelike::year` reads from a date.
pub uninterp spec fn year_of(date: chrono::NaiveDate) -> int;

/// The day of the year, counted from 1, that `Datelike::ordinal` reads from a
/// date.
pub uninterp spec fn ordinal_of(date: chrono::NaiveDate) -> int;

/// Calls `Datelike::year` on the date. The contract only gives the outcome
/// its name: the year is a function of the date alone.
#[verifier::external_body]
pub(crate) fn year(date: &chrono::NaiveDate) -> (y: i32)
    ensures
        y == year_of(*date),
{
    date.year()
}

/// Calls `Datelike::ordinal` on the date. The contract names the outcome and
/// repeats the range that the method documents: from 1 to 366.
#[verifier::external_body]
pub(crate) fn ordinal(date: &chrono::NaiveDate) -> (n: u32)
    ensures
        n == ordinal_of(*date),
        1 <= n <= 366,
{
    date.ordinal()
}

} // verus!
