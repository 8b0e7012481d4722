//! Calendar date as plain year, month and day numbers.

use vstd::prelude::*;

verus! {

/// A calendar date, kept as plain numbers so that contracts can compare and
/// validate it directly.
#[derive(Debug, Clone, Copy, PartialEq, Eq, Structural)]
pub struct Date {
    /// Calendar year.
    pub year: i32,
    /// Month of the year, 1 through 12.
    pub month: u8,
    /// Day of the month, 1 through the month's length.
    pub day: u8,
}

/// Whether `year` is a leap year in the proleptic Gregorian calendar.
pub open spec fn spec_is_leap_year(year: i32) -> bool {
    year % 4 == 0 && (year % 100 != 0 || year % 400 == 0)
}

/// Number of days in `month` of `year`, for months 1 through 12.
pub open spec fn spec_days_in_month(year: i32, month: u8) -> int {
    if month == 2 {
        if spec_is_leap_year(year) {
            29
        } else {
            28
        }
    } else if month == 4 || month == 6 || month == 9 || month == 11 {
        30
    } else {
        31
    }
}

impl Date {
    /// A date is valid when its month exists and its day fits the month.
    pub open spec fn valid(self) -> bool {
        &&& 1 <= self.month <= 12
        &&& 1 <= self.day <= spec_days_in_month(self.year, self.month)
    }

    /// Lexicographic order on (year, month, day): `self` is on or before
    /// `other`.
    pub open spec fn spec_le(self, other: Date) -> bool {
        if self.year != other.year {
            self.year < other.year
        } else if self.month != other.month {
            self.month < other.month
        } else {
            self.day <= other.day
        }
    }

    /// Builds a date, or `None` when the components do not name a real
    /// calendar day.
    pub fn from_ymd_opt(year: i32, month: u8, day: u8) -> (r: Option<Date>)
        ensures
            match r {
                Some(d) => d == (Date { year, month, day }) && d.valid(),
                None => !(Date { year, month, day }).valid(),
            },
    {
        let d = Date { year, month, day };
        if d.is_valid() {
            Some(d)
        } else {
            None
        }
    }

    /// Runtime validity check; mirrors [`Date::valid`].
    pub fn is_valid(&self) -> (b: bool)
        ensures
            b == self.valid(),
    {
        1 <= self.month && self.month <= 12 && 1 <= self.day && (self.day as i64)
            <= days_in_month(self.year, self.month)
    }

    /// Runtime order check; mirrors [`Date::spec_le`].
    pub fn is_on_or_before(&self, other: &Date) -> (b: bool)
        ensures
            b == self.spec_le(*other),
    {
        if self.year != other.year {
            self.year < other.year
        } else if self.month != other.month {
            self.month < other.month
        } else {
            self.day <= other.day
        }
    }
}

/// Runtime leap-year test; mirrors [`spec_is_leap_year`].
pub fn is_leap_year(year: i32) -> (b: bool)
    ensures
        b == spec_is_leap_year(year),
{
    year % 4 == 0 && (year % 100 != 0 || year % 400 == 0)
}

/// Runtime month length; mirrors [`spec_days_in_month`].
pub fn days_in_month(year: i32, month: u8) -> (d: i64)
    ensures
        d == spec_days_in_month(year, month),
{
    if month == 2 {
        if is_leap_year(year) {
            29
        } else {
            28
        }
    } else if month == 4 || month == 6 || month == 9 || month == 11 {
        30
    } else {
        31
    }
}

} // verus!
