//! Calendar dates within income year 2026.
use vstd::prelude::*;

verus! {

/// A day of 2026. Out-of-range months and days are clamped when used.
#[derive(Clone, Copy, Debug, PartialEq, Eq, PartialOrd, Ord, Structural)]
pub struct Date2026 {
    pub month: u8,
    pub day: u8,
}

/// Days in a month of 2026 (not a leap year); other values count as 31.
pub open spec fn spec_days_in_month(month: u8) -> u8 {
    if month == 2 {
        28
    } else if month == 4 || month == 6 || month == 9 || month == 11 {
        30
    } else {
        31
    }
}

pub open spec fn clamp(value: u8, low: u8, high: u8) -> u8 {
    if value < low {
        low
    } else if value > high {
        high
    } else {
        value
    }
}

/// The nearest valid date: month in 1..=12, day within that month.
pub open spec fn spec_clamped(date: Date2026) -> Date2026 {
    let month = clamp(date.month, 1, 12);
    Date2026 { month, day: clamp(date.day, 1, spec_days_in_month(month)) }
}

/// Days of 2026 before the first day of a month (1..=12).
pub open spec fn days_before_month(month: u8) -> u16 {
    if month <= 1 {
        0
    } else if month == 2 {
        31
    } else if month == 3 {
        59
    } else if month == 4 {
        90
    } else if month == 5 {
        120
    } else if month == 6 {
        151
    } else if month == 7 {
        181
    } else if month == 8 {
        212
    } else if month == 9 {
        243
    } else if month == 10 {
        273
    } else if month == 11 {
        304
    } else {
        334
    }
}

/// Day of the year, 1 through 365, of the clamped date.
pub open spec fn spec_ordinal(date: Date2026) -> u16 {
    let d = spec_clamped(date);
    (days_before_month(d.month) + d.day) as u16
}

/// Chronological order, comparing month first and then day.
pub open spec fn date_le(a: Date2026, b: Date2026) -> bool {
    a.month < b.month || (a.month == b.month && a.day <= b.day)
}

impl Date2026 {
    pub fn new(month: u8, day: u8) -> (d: Self)
        ensures
            d == (Date2026 { month, day }),
    {
        Self { month, day }
    }

    pub fn days_in_month(month: u8) -> (days: u8)
        ensures
            days == spec_days_in_month(month),
            28 <= days <= 31,
    {
        match month {
            1 | 3 | 5 | 7 | 8 | 10 | 12 => 31,
            2 => 28,
            4 | 6 | 9 | 11 => 30,
            _ => 31,
        }
    }

    pub fn clamped(self) -> (d: Self)
        ensures
            d == spec_clamped(self),
            1 <= d.month <= 12,
            1 <= d.day <= spec_days_in_month(d.month),
    {
        let month = if self.month < 1 {
            1
        } else if self.month > 12 {
            12
        } else {
            self.month
        };
        let last = Self::days_in_month(month);
        let day = if self.day < 1 {
            1
        } else if self.day > last {
            last
        } else {
            self.day
        };
        Self { month, day }
    }

    pub fn ordinal(self) -> (n: u16)
        ensures
            n == spec_ordinal(self),
            1 <= n <= 365,
    {
        let date = self.clamped();
        let start: u16 = match date.month {
            1 => 0,
            2 => 31,
            3 => 59,
            4 => 90,
            5 => 120,
            6 => 151,
            7 => 181,
            8 => 212,
            9 => 243,
            10 => 273,
            11 => 304,
            _ => 334,
        };
        start + date.day as u16
    }

    /// Whether `self` falls on or before `other`.
    pub fn is_on_or_before(self, other: Self) -> (b: bool)
        ensures
            b == date_le(self, other),
    {
        self.month < other.month || (self.month == other.month && self.day <= other.day)
    }
}

/// Later dates have larger ordinals.
pub proof fn lemma_ordinal_monotone(a: Date2026, b: Date2026)
    requires
        date_le(spec_clamped(a), spec_clamped(b)),
    ensures
        spec_ordinal(a) <= spec_ordinal(b),
{
}

} // verus!
