//! The records the pages show: bookkeepings, groupings and transaction
//! summaries, with dates and amounts held as plain numbers.
use vstd::prelude::*;

verus! {

/// A bookkeeping, with the email of its owner.
pub struct Bookkeeping {
    pub id: i64,
    pub name: String,
    pub owner: String,
}

/// A grouping of transactions within a bookkeeping.
pub struct Grouping {
    pub id: i64,
    pub name: String,
}

/// A day of the proleptic Gregorian calendar.
#[derive(PartialEq, Eq, Structural, Clone, Copy, Debug)]
pub struct CalendarDate {
    pub year: i32,
    pub month: u8,
    pub day: u8,
}

pub open spec fn is_leap_year(y: int) -> bool {
    (y % 4 == 0 && y % 100 != 0) || y % 400 == 0
}

pub open spec fn days_in_month(y: int, m: int) -> int {
    if m == 2 {
        if is_leap_year(y) {
            29
        } else {
            28
        }
    } else if m == 4 || m == 6 || m == 9 || m == 11 {
        30
    } else {
        31
    }
}

impl CalendarDate {
    pub open spec fn wf(&self) -> bool {
        1 <= self.month <= 12 && 1 <= self.day <= days_in_month(self.year as int, self.month as int)
    }

    /// The date with these parts, if there is one.
    pub fn from_parts(year: i32, month: u8, day: u8) -> (r: Option<CalendarDate>)
        ensures
            match r {
                Some(d) => d.wf() && d.year == year && d.month == month && d.day == day,
                None => !(CalendarDate { year, month, day }).wf(),
            },
    {
        if month < 1 || month > 12 || day < 1 {
            return None;
        }
        let leap = (year % 4 == 0 && year % 100 != 0) || year % 400 == 0;
        let last: u8 = if month == 2 {
            if leap {
                29
            } else {
                28
            }
        } else if month == 4 || month == 6 || month == 9 || month == 11 {
            30
        } else {
            31
        };
        if day > last {
            None
        } else {
            Some(CalendarDate { year, month, day })
        }
    }
}

/// A decimal amount: `mantissa` divided by ten to the power `scale`.
#[derive(PartialEq, Eq, Structural, Clone, Copy, Debug)]
pub struct Amount {
    pub mantissa: i128,
    pub scale: u32,
}

/// A transaction with the sum of its account changes.
pub struct TransactionSummary {
    pub id: i64,
    pub name: String,
    pub date: CalendarDate,
    pub sum: Amount,
}

} // verus!
