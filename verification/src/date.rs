//! Calendar dates of the proleptic Gregorian calendar, years 0000 to 9999.

use vstd::prelude::*;

verus! {

/// The last year that a [`Date`] can hold: the text form has four digits for it.
pub const MAX_YEAR: i32 = 9999;

/// A day named by year, month and day of month: the model of a [`Date`].
pub struct Ymd {
    pub year: int,
    pub month: int,
    pub day: int,
}

/// Gregorian leap years: every fourth year, but of the centuries only every fourth.
pub open spec fn is_leap_year(year: int) -> bool {
    year % 4 == 0 && (year % 100 != 0 || year % 400 == 0)
}

/// The number of days of a month (1 to 12) in a year.
pub open spec fn days_in_month(year: int, month: int) -> int {
    if month == 2 {
        if is_leap_year(year) { 29 } else { 28 }
    } else if month == 4 || month == 6 || month == 9 || month == 11 {
        30
    } else {
        31
    }
}

/// The days of a year that lie before the first of a month.
pub open spec fn days_before_month(year: int, month: int) -> int
    decreases month,
{
    if month <= 1 {
        0
    } else {
        days_before_month(year, month - 1) + days_in_month(year, month - 1)
    }
}

/// The days before the first of a month in a year that is no leap year.
pub open spec fn common_days_before_month(month: int) -> int {
    if month <= 1 {
        0
    } else if month == 2 {
        31
    } else if month == 3 {
        59
    } else if month == 4 {
        90
    } else if month == 5 {
        120
    } else if month == 6 {
        151
    } else if month == 7 {
        181
    } else if month == 8 {
        212
    } else if month == 9 {
        243
    } else if month == 10 {
        273
    } else if month == 11 {
        304
    } else {
        334
    }
}

/// The days between 0001-01-01 and the first day of a year (negative for year 0).
pub open spec fn days_before_year(year: int) -> int {
    let y = year - 1;
    365 * y + y / 4 - y / 100 + y / 400
}

impl Ymd {
    /// The day exists in the calendar and its year has four digits.
    pub open spec fn is_valid(self) -> bool {
        &&& 0 <= self.year <= MAX_YEAR
        &&& 1 <= self.month <= 12
        &&& 1 <= self.day <= days_in_month(self.year, self.month)
    }

    /// The position of the day on the time line: 0001-01-01 is day 1.
    pub open spec fn day_number(self) -> int {
        days_before_year(self.year) + days_before_month(self.year, self.month) + self.day
    }
}

/// A calendar date without time of day or time zone. Every value is a day
/// that exists: the fields are private and the constructor admits no other.
#[derive(Clone, Copy, Debug, PartialEq, Eq, Hash)]
pub struct Date {
    year: i32,
    month: u32,
    day: u32,
}

impl View for Date {
    type V = Ymd;

    closed spec fn view(&self) -> Ymd {
        Ymd { year: self.year as int, month: self.month as int, day: self.day as int }
    }
}

/// Whether a year is a leap year.
pub fn leap_year(year: i32) -> (r: bool)
    ensures
        r == is_leap_year(year as int),
{
    year % 4 == 0 && (year % 100 != 0 || year % 400 == 0)
}

/// The length of a month.
pub fn month_length(year: i32, month: u32) -> (r: u32)
    ensures
        r == days_in_month(year as int, month as int),
{
    if month == 2 {
        if leap_year(year) { 29 } else { 28 }
    } else if month == 4 || month == 6 || month == 9 || month == 11 {
        30
    } else {
        31
    }
}

/// Asks `chrono::Local::now` for the local time and returns the year, month
/// and day of its date. Trusted, and nothing is claimed of the three
/// numbers: they depend on the clock and the time zone of the machine.
#[verifier::external_body]
fn local_year_month_day() -> (r: (i32, u32, u32)) {
    let date = chrono::Local::now().naive_local().date();
    (chrono::Datelike::year(&date), chrono::Datelike::month(&date), chrono::Datelike::day(&date))
}

impl Date {
    #[verifier::type_invariant]
    spec fn valid(self) -> bool {
        self@.is_valid()
    }

    /// The date of the given year, month and day, if there is such a day
    /// in the years 0 to 9999.
    pub fn from_ymd(year: i32, month: u32, day: u32) -> (r: Option<Date>)
        ensures
            r is Some <==> (Ymd { year: year as int, month: month as int, day: day as int }).is_valid(),
            r is Some ==> r.unwrap()@ == (Ymd {
                year: year as int,
                month: month as int,
                day: day as int,
            }),
    {
        if 0 <= year && year <= MAX_YEAR && 1 <= month && month <= 12 && 1 <= day && day
            <= month_length(year, month) {
            Some(Date { year, month, day })
        } else {
            None
        }
    }

    /// The local date by the machine's clock, if it lies in the years 0 to
    /// 9999. Two calls may differ.
    pub fn today() -> (r: Option<Date>)
        ensures
            r is Some ==> r.unwrap()@.is_valid(),
    {
        let (year, month, day) = local_year_month_day();
        Date::from_ymd(year, month, day)
    }

    /// The year, 0 to 9999.
    pub fn year(&self) -> (r: i32)
        ensures
            r == self@.year,
            self@.is_valid(),
    {
        proof {
            use_type_invariant(self);
        }
        self.year
    }

    /// The month, 1 to 12.
    pub fn month(&self) -> (r: u32)
        ensures
            r == self@.month,
            self@.is_valid(),
    {
        proof {
            use_type_invariant(self);
        }
        self.month
    }

    /// The day of the month, from 1.
    pub fn day(&self) -> (r: u32)
        ensures
            r == self@.day,
            self@.is_valid(),
    {
        proof {
            use_type_invariant(self);
        }
        self.day
    }

    /// The day's position on the time line: 0001-01-01 is day 1, 0000-12-31 is day 0.
    pub fn day_number(&self) -> (r: i64)
        ensures
            r == self@.day_number(),
            self@.is_valid(),
            -366 < r < 3_652_060,
    {
        proof {
            use_type_invariant(self);
            lemma_days_before_month(self@.year, self@.month);
            lemma_days_before_year(self@.year);
        }
        let shifted: i64 = self.year as i64 + 399;
        let before_year: i64 = 365 * (shifted - 400) + (shifted / 4 - 100) - (shifted / 100 - 4) + (
        shifted / 400 - 1);
        let m: u32 = self.month;
        let common: i64 = if m == 1 {
            0
        } else if m == 2 {
            31
        } else if m == 3 {
            59
        } else if m == 4 {
            90
        } else if m == 5 {
            120
        } else if m == 6 {
            151
        } else if m == 7 {
            181
        } else if m == 8 {
            212
        } else if m == 9 {
            243
        } else if m == 10 {
            273
        } else if m == 11 {
            304
        } else {
            334
        };
        let leap_day: i64 = if m > 2 && leap_year(self.year) { 1 } else { 0 };
        before_year + common + leap_day + self.day as i64
    }
}

/// The days before a month, month by month: the sums of the lengths of the
/// months before it.
pub proof fn lemma_days_before_month(year: int, month: int)
    requires
        1 <= month <= 12,
    ensures
        days_before_month(year, month) == common_days_before_month(month) + (if month > 2
            && is_leap_year(year) {
            1int
        } else {
            0int
        }),
        0 <= days_before_month(year, month) <= 335,
{
    reveal_with_fuel(days_before_month, 13);
}

/// The days before a year, counted from a year that is a multiple of 400
/// and lies before all years of a date.
pub proof fn lemma_days_before_year(year: int)
    requires
        0 <= year <= MAX_YEAR,
    ensures
        ({
            let s = year + 399;
            days_before_year(year) == 365 * (s - 400) + (s / 4 - 100) - (s / 100 - 4) + (s / 400
                - 1)
        }),
        -366 <= days_before_year(year) <= 3_651_695,
{
}

/// The days of the years 0 to 9999 have the numbers -365 to 3652059.
pub proof fn lemma_day_number_bounds(d: Ymd)
    requires
        d.is_valid(),
    ensures
        -366 < d.day_number() < 3_652_060,
{
    lemma_days_before_month(d.year, d.month);
    lemma_days_before_year(d.year);
}

/// Two dates with the same year, month and day are the same date.
pub proof fn lemma_date_by_view(a: Date, b: Date)
    requires
        a@ == b@,
    ensures
        a == b,
{
}

} // verus!
