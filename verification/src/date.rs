//! Civil dates of the proleptic Gregorian calendar.
//!
//! A [`Date`] holds year, month and day as plain numbers. Its meaning is given
//! by [`Date::day_number`], the count of days since the day before
//! 1 January of year 1. All date arithmetic is carried out by `chrono`; the
//! contracts of the functions here say what `chrono` returns in terms of day
//! numbers, and the lemmas relate day numbers back to year, month and day.

use crate::text::two_digits;
use chrono::Datelike;
use vstd::prelude::*;

verus! {

/// The earliest year a [`Date`] can hold.
pub const MIN_YEAR: i32 = -262143;

/// The latest year a [`Date`] can hold.
pub const MAX_YEAR: i32 = 262142;

/// Whether `y` is a leap year of the Gregorian calendar.
#[verifier::opaque]
pub open spec fn is_leap_year(y: int) -> bool {
    (y % 4 == 0 && y % 100 != 0) || y % 400 == 0
}

/// The number of days of year `y`.
pub open spec fn days_in_year(y: int) -> int {
    if is_leap_year(y) {
        366
    } else {
        365
    }
}

/// The number of days of month `m` in year `y`.
pub open spec fn days_in_month(y: int, m: int) -> int {
    if m == 2 {
        if is_leap_year(y) {
            29
        } else {
            28
        }
    } else if m == 4 || m == 6 || m == 9 || m == 11 {
        30
    } else {
        31
    }
}

/// The number of days of year `y` that lie before the first of month `m`.
pub open spec fn days_before_month(y: int, m: int) -> int {
    let leap: int = if is_leap_year(y) && m > 2 {
        1
    } else {
        0
    };
    if m <= 1 {
        0
    } else if m == 2 {
        31
    } else if m == 3 {
        59 + leap
    } else if m == 4 {
        90 + leap
    } else if m == 5 {
        120 + leap
    } else if m == 6 {
        151 + leap
    } else if m == 7 {
        181 + leap
    } else if m == 8 {
        212 + leap
    } else if m == 9 {
        243 + leap
    } else if m == 10 {
        273 + leap
    } else if m == 11 {
        304 + leap
    } else {
        334 + leap
    }
}

/// The number of days from 1 January of year 1 up to, and not including,
/// 1 January of year `y`. Negative for `y < 1`.
#[verifier::opaque]
pub open spec fn days_before_year(y: int) -> int {
    365 * (y - 1) + (y - 1) / 4 - (y - 1) / 100 + (y - 1) / 400
}

/// Whether year, month and day name a day of the calendar that a [`Date`]
/// can hold.
pub open spec fn valid_ymd(y: int, m: int, d: int) -> bool {
    &&& MIN_YEAR <= y <= MAX_YEAR
    &&& 1 <= m <= 12
    &&& 1 <= d <= days_in_month(y, m)
}

/// The day number of a calendar day: 1 for 1 January of year 1, and one more
/// for each day after it.
pub open spec fn day_number_of(y: int, m: int, d: int) -> int {
    days_before_year(y) + days_before_month(y, m) + d
}

/// The day number of 1 January of year `y`.
pub open spec fn first_day_of_year(y: int) -> int {
    day_number_of(y, 1, 1)
}

/// Whether `n` is the day number of a day that a [`Date`] can hold.
pub open spec fn day_in_range(n: int) -> bool {
    day_number_of(MIN_YEAR as int, 1, 1) <= n <= day_number_of(MAX_YEAR as int, 12, 31)
}

/// A day of the week.
#[derive(Clone, Copy, Debug, PartialEq, Eq, Structural, Hash)]
pub enum Weekday {
    Mon,
    Tue,
    Wed,
    Thu,
    Fri,
    Sat,
    Sun,
}

/// The weekday of the day with day number `n`. Day number 1 is a Monday.
pub open spec fn weekday_of(n: int) -> Weekday {
    let k = n % 7;
    if k == 0 {
        Weekday::Sun
    } else if k == 1 {
        Weekday::Mon
    } else if k == 2 {
        Weekday::Tue
    } else if k == 3 {
        Weekday::Wed
    } else if k == 4 {
        Weekday::Thu
    } else if k == 5 {
        Weekday::Fri
    } else {
        Weekday::Sat
    }
}

impl Weekday {
    /// The number of days since the last Sunday: 0 for Sunday, 6 for Saturday.
    pub open spec fn days_from_sunday(self) -> int {
        match self {
            Weekday::Sun => 0,
            Weekday::Mon => 1,
            Weekday::Tue => 2,
            Weekday::Wed => 3,
            Weekday::Thu => 4,
            Weekday::Fri => 5,
            Weekday::Sat => 6,
        }
    }

    /// The three-letter English abbreviation, as text.
    pub open spec fn short_name_text(self) -> Seq<char> {
        match self {
            Weekday::Mon => "Mon"@,
            Weekday::Tue => "Tue"@,
            Weekday::Wed => "Wed"@,
            Weekday::Thu => "Thu"@,
            Weekday::Fri => "Fri"@,
            Weekday::Sat => "Sat"@,
            Weekday::Sun => "Sun"@,
        }
    }

    /// The three-letter abbreviation in lower case, as text.
    pub open spec fn lower_name_text(self) -> Seq<char> {
        match self {
            Weekday::Mon => "mon"@,
            Weekday::Tue => "tue"@,
            Weekday::Wed => "wed"@,
            Weekday::Thu => "thu"@,
            Weekday::Fri => "fri"@,
            Weekday::Sat => "sat"@,
            Weekday::Sun => "sun"@,
        }
    }

    /// The full English name, as text.
    pub open spec fn long_name_text(self) -> Seq<char> {
        match self {
            Weekday::Mon => "Monday"@,
            Weekday::Tue => "Tuesday"@,
            Weekday::Wed => "Wednesday"@,
            Weekday::Thu => "Thursday"@,
            Weekday::Fri => "Friday"@,
            Weekday::Sat => "Saturday"@,
            Weekday::Sun => "Sunday"@,
        }
    }

    /// The number of days since the last Sunday: 0 for Sunday, 6 for Saturday.
    pub fn num_days_from_sunday(&self) -> (r: u32)
        ensures
            r == self.days_from_sunday(),
    {
        match self {
            Weekday::Sun => 0,
            Weekday::Mon => 1,
            Weekday::Tue => 2,
            Weekday::Wed => 3,
            Weekday::Thu => 4,
            Weekday::Fri => 5,
            Weekday::Sat => 6,
        }
    }

    /// The three-letter English abbreviation: `Mon`, `Tue`, and so on.
    pub fn short_name(&self) -> (r: &'static str)
        ensures
            r@ == self.short_name_text(),
    {
        match self {
            Weekday::Mon => "Mon",
            Weekday::Tue => "Tue",
            Weekday::Wed => "Wed",
            Weekday::Thu => "Thu",
            Weekday::Fri => "Fri",
            Weekday::Sat => "Sat",
            Weekday::Sun => "Sun",
        }
    }

    /// The three-letter abbreviation in lower case: `mon`, `tue`, and so on.
    pub fn lower_name(&self) -> (r: &'static str)
        ensures
            r@ == self.lower_name_text(),
    {
        match self {
            Weekday::Mon => "mon",
            Weekday::Tue => "tue",
            Weekday::Wed => "wed",
            Weekday::Thu => "thu",
            Weekday::Fri => "fri",
            Weekday::Sat => "sat",
            Weekday::Sun => "sun",
        }
    }

    /// The full English name: `Monday`, `Tuesday`, and so on.
    pub fn long_name(&self) -> (r: &'static str)
        ensures
            r@ == self.long_name_text(),
    {
        match self {
            Weekday::Mon => "Monday",
            Weekday::Tue => "Tuesday",
            Weekday::Wed => "Wednesday",
            Weekday::Thu => "Thursday",
            Weekday::Fri => "Friday",
            Weekday::Sat => "Saturday",
            Weekday::Sun => "Sunday",
        }
    }
}

/// A civil date: year, month (1 to 12) and day of the month (from 1).
///
/// The functions of this crate hand out valid dates only, and ask for valid
/// dates in their preconditions; [`Date::from_ymd_opt`] is the way to make one.
#[derive(Clone, Copy, Debug, PartialEq, Eq, Structural, PartialOrd, Ord, Hash)]
pub struct Date {
    pub year: i32,
    pub month: u32,
    pub day: u32,
}

/// Month and day written as `MM-DD`.
pub open spec fn month_day_text(m: int, d: int) -> Seq<char> {
    two_digits(m) + seq!['-'] + two_digits(d)
}

/// Whether year, month and day name a day of the calendar.
///
/// Calls `chrono::NaiveDate::from_ymd_opt`, which returns a date exactly
/// when the month is 1 to 12, the day exists in that month of that year, and
/// the year lies within `chrono`'s range, [`MIN_YEAR`] to [`MAX_YEAR`].
#[verifier::external_body]
fn chrono_date_exists(year: i32, month: u32, day: u32) -> (r: bool)
    ensures
        r == valid_ymd(year as int, month as int, day as int),
{
    chrono::NaiveDate::from_ymd_opt(year, month, day).is_some()
}

/// The date that lies `days` days after `date` (before it, if negative).
///
/// Calls `chrono`'s `NaiveDate + Duration::days(days)`, which moves the date
/// by that many days of the calendar and panics only when the result would
/// leave `chrono`'s range.
#[verifier::external_body]
fn chrono_add_days(date: Date, days: i64) -> (r: Date)
    requires
        date.valid(),
        day_in_range(date.day_number() + days),
    ensures
        r.valid(),
        r.day_number() == date.day_number() + days,
{
    let start = chrono::NaiveDate::from_ymd_opt(date.year, date.month, date.day).unwrap();
    let moved = start + chrono::Duration::days(days);
    Date { year: moved.year(), month: moved.month(), day: moved.day() }
}

/// The day of the week on which `date` falls.
///
/// Calls `chrono`'s `NaiveDate::weekday`. Day number 1, the first of January
/// of year 1, is a Monday in the proleptic Gregorian calendar.
#[verifier::external_body]
fn chrono_weekday(date: Date) -> (r: Weekday)
    requires
        date.valid(),
    ensures
        r == weekday_of(date.day_number()),
{
    let day = chrono::NaiveDate::from_ymd_opt(date.year, date.month, date.day).unwrap();
    match day.weekday() {
        chrono::Weekday::Mon => Weekday::Mon,
        chrono::Weekday::Tue => Weekday::Tue,
        chrono::Weekday::Wed => Weekday::Wed,
        chrono::Weekday::Thu => Weekday::Thu,
        chrono::Weekday::Fri => Weekday::Fri,
        chrono::Weekday::Sat => Weekday::Sat,
        chrono::Weekday::Sun => Weekday::Sun,
    }
}

/// The number of days from `earlier` to `later`; negative when `later`
/// comes first.
///
/// Calls `chrono`'s `NaiveDate - NaiveDate` and `Duration::num_days`.
#[verifier::external_body]
fn chrono_days_between(later: Date, earlier: Date) -> (r: i64)
    requires
        later.valid(),
        earlier.valid(),
    ensures
        r == later.day_number() - earlier.day_number(),
{
    let a = chrono::NaiveDate::from_ymd_opt(later.year, later.month, later.day).unwrap();
    let b = chrono::NaiveDate::from_ymd_opt(earlier.year, earlier.month, earlier.day).unwrap();
    (a - b).num_days()
}

/// Month and day of `date` written as `MM-DD`.
///
/// Calls `chrono`'s `NaiveDate::format` with the pattern `%m-%d`: the month
/// and the day of the month, each padded with a zero to two digits, with a
/// hyphen between them.
#[verifier::external_body]
fn chrono_format_month_day(date: Date) -> (r: String)
    requires
        date.valid(),
    ensures
        r@ == month_day_text(date.month as int, date.day as int),
{
    let day = chrono::NaiveDate::from_ymd_opt(date.year, date.month, date.day).unwrap();
    day.format("%m-%d").to_string()
}

impl Date {
    /// Whether this is a day of the calendar, within the years a date can
    /// hold.
    pub open spec fn valid(&self) -> bool {
        valid_ymd(self.year as int, self.month as int, self.day as int)
    }

    /// The day number: 1 for 1 January of year 1, and one more for each day
    /// after it.
    pub open spec fn day_number(&self) -> int {
        day_number_of(self.year as int, self.month as int, self.day as int)
    }

    /// The date of the given year, month and day, or `None` when there is no
    /// such day or the year is out of range.
    pub fn from_ymd_opt(year: i32, month: u32, day: u32) -> (r: Option<Date>)
        ensures
            r == if valid_ymd(year as int, month as int, day as int) {
                Some(Date { year, month, day })
            } else {
                None::<Date>
            },
    {
        if chrono_date_exists(year, month, day) {
            Some(Date { year, month, day })
        } else {
            None
        }
    }

    /// The year.
    pub fn year(&self) -> (r: i32)
        ensures
            r == self.year,
    {
        self.year
    }

    /// The month, from 1.
    pub fn month(&self) -> (r: u32)
        ensures
            r == self.month,
    {
        self.month
    }

    /// The day of the month, from 1.
    pub fn day(&self) -> (r: u32)
        ensures
            r == self.day,
    {
        self.day
    }

    /// The date `days` days after this one; before it, if `days` is negative.
    pub fn plus_days(&self, days: i64) -> (r: Date)
        requires
            self.valid(),
            day_in_range(self.day_number() + days),
        ensures
            r.valid(),
            r.day_number() == self.day_number() + days,
    {
        chrono_add_days(*self, days)
    }

    /// The day of the week.
    pub fn weekday(&self) -> (r: Weekday)
        requires
            self.valid(),
        ensures
            r == weekday_of(self.day_number()),
    {
        chrono_weekday(*self)
    }

    /// The number of days from `earlier` to this date.
    pub fn days_since(&self, earlier: &Date) -> (r: i64)
        requires
            self.valid(),
            earlier.valid(),
        ensures
            r == self.day_number() - earlier.day_number(),
    {
        chrono_days_between(*self, *earlier)
    }

    /// Month and day written as `MM-DD`.
    pub fn format_month_day(&self) -> (r: String)
        requires
            self.valid(),
        ensures
            r@ == month_day_text(self.month as int, self.day as int),
    {
        chrono_format_month_day(*self)
    }

    /// Whether this date and `other` are the same day.
    pub fn is_on(&self, other: &Date) -> (r: bool)
        requires
            self.valid(),
            other.valid(),
        ensures
            r == (self.day_number() == other.day_number()),
            r == (*self == *other),
    {
        proof {
            if self.day_number() == other.day_number() {
                lemma_day_number_injective(*self, *other);
            }
        }
        *self == *other
    }

    /// Whether this date comes before `other`.
    pub fn is_before(&self, other: &Date) -> (r: bool)
        requires
            self.valid(),
            other.valid(),
        ensures
            r == (self.day_number() < other.day_number()),
    {
        proof {
            lemma_day_number_order(*self, *other);
            lemma_day_number_order(*other, *self);
        }
        if self.year != other.year {
            self.year < other.year
        } else if self.month != other.month {
            self.month < other.month
        } else {
            self.day < other.day
        }
    }

    /// Whether this date is `other` or comes before it.
    pub fn is_on_or_before(&self, other: &Date) -> (r: bool)
        requires
            self.valid(),
            other.valid(),
        ensures
            r == (self.day_number() <= other.day_number()),
    {
        !other.is_before(self)
    }
}

/// Each year begins where the year before it ends.
pub proof fn lemma_days_before_year_step(y: int)
    ensures
        days_before_year(y + 1) == days_before_year(y) + days_in_year(y),
{
    reveal(days_before_year);
    reveal(is_leap_year);
    let s4: int = if y % 4 == 0 {
        1
    } else {
        0
    };
    let s100: int = if y % 100 == 0 {
        1
    } else {
        0
    };
    let s400: int = if y % 400 == 0 {
        1
    } else {
        0
    };
    assert(y / 4 == (y - 1) / 4 + s4);
    assert(y / 100 == (y - 1) / 100 + s100);
    assert(y / 400 == (y - 1) / 400 + s400);
    assert(y % 100 == 0 ==> y % 4 == 0);
    assert(y % 400 == 0 ==> y % 100 == 0);
}

/// Later years begin later, by at least the length of the years between.
pub proof fn lemma_days_before_year_monotone(y1: int, y2: int)
    requires
        y1 < y2,
    ensures
        days_before_year(y1) + days_in_year(y1) <= days_before_year(y2),
{
    lemma_days_before_year_step(y1);
    reveal(days_before_year);
    let a = y1;
    let b = y2 - 1;
    assert(a / 4 <= b / 4);
    assert(a / 400 <= b / 400);
    assert(b / 100 - a / 100 <= (b - a));
}

/// Every valid date lies within its year.
pub proof fn lemma_day_number_within_year(d: Date)
    requires
        d.valid(),
    ensures
        days_before_year(d.year as int) < d.day_number() <= days_before_year(d.year as int)
            + days_in_year(d.year as int),
        d.day_number() == first_day_of_year(d.year as int) + days_before_month(
            d.year as int,
            d.month as int,
        ) + d.day - 1,
{
}

/// Day numbers order valid dates as year, month and day do.
pub proof fn lemma_day_number_order(a: Date, b: Date)
    requires
        a.valid(),
        b.valid(),
    ensures
        (a.year < b.year || (a.year == b.year && (a.month < b.month || (a.month == b.month && a.day
            < b.day)))) ==> a.day_number() < b.day_number(),
{
    lemma_day_number_within_year(a);
    lemma_day_number_within_year(b);
    if a.year < b.year {
        lemma_days_before_year_monotone(a.year as int, b.year as int);
    } else if a.year == b.year && a.month < b.month {
        assert(days_before_month(a.year as int, a.month as int) + days_in_month(
            a.year as int,
            a.month as int,
        ) <= days_before_month(b.year as int, b.month as int));
    }
}

/// Two valid dates with the same day number are the same date.
pub proof fn lemma_day_number_injective(a: Date, b: Date)
    requires
        a.valid(),
        b.valid(),
        a.day_number() == b.day_number(),
    ensures
        a == b,
{
    lemma_day_number_order(a, b);
    lemma_day_number_order(b, a);
}

/// A valid date whose day number lies within year `y` is a date of year `y`.
pub proof fn lemma_year_of_day_number(d: Date, y: int)
    requires
        d.valid(),
        first_day_of_year(y) <= d.day_number() < first_day_of_year(y) + days_in_year(y),
    ensures
        d.year == y,
{
    lemma_day_number_within_year(d);
    if d.year < y {
        lemma_days_before_year_monotone(d.year as int, y);
    } else if d.year > y {
        lemma_days_before_year_monotone(y, d.year as int);
    }
}

/// Every day of a year that a date can hold is itself in range.
pub proof fn lemma_day_of_year_in_range(y: int, n: int)
    requires
        MIN_YEAR <= y <= MAX_YEAR,
        first_day_of_year(y) <= n < first_day_of_year(y) + days_in_year(y),
    ensures
        day_in_range(n),
{
    if MIN_YEAR < y {
        lemma_days_before_year_monotone(MIN_YEAR as int, y);
    }
    if y < MAX_YEAR {
        lemma_days_before_year_monotone(y, MAX_YEAR as int);
    }
}

/// Every valid date has a day number in range.
pub proof fn lemma_valid_in_range(d: Date)
    requires
        d.valid(),
    ensures
        day_in_range(d.day_number()),
        first_day_of_year(d.year as int) <= d.day_number() < first_day_of_year(d.year as int)
            + days_in_year(d.year as int),
{
    lemma_day_number_within_year(d);
    lemma_day_of_year_in_range(d.year as int, d.day_number());
}

/// A date is pinned down by its year and its place in the year.
pub proof fn lemma_date_in_year(d: Date, y: int, m: int, day: int)
    requires
        d.valid(),
        valid_ymd(y, m, day),
        d.day_number() == day_number_of(y, m, day),
    ensures
        d.year == y,
        d.month == m,
        d.day == day,
{
    let e = Date { year: y as i32, month: m as u32, day: day as u32 };
    lemma_day_number_injective(d, e);
}

/// A valid date whose day number lies between two days of one month is a
/// day of that month.
pub proof fn lemma_date_within_month(d: Date, y: int, m: int, first: int, last: int)
    requires
        d.valid(),
        valid_ymd(y, m, first),
        valid_ymd(y, m, last),
        day_number_of(y, m, first) <= d.day_number() <= day_number_of(y, m, last),
    ensures
        d.year == y,
        d.month == m,
        first <= d.day <= last,
{
    let day = d.day_number() - day_number_of(y, m, first) + first;
    lemma_date_in_year(d, y, m, day);
}

} // verus!
