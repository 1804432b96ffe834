//! The Arvile calendar: twenty-six months of fourteen days each, closed by a
//! year day, or by a leap day and a year day in leap years.
//!
//! A [`Date`] wraps a Gregorian date and derives the Arvile day of month, the
//! month number, the month symbol and the five-character text from it.
pub mod calendar;
pub mod date;
pub mod gregorian;
pub mod laws;
pub mod text;

pub use date::Date;
