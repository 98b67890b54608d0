//! The date of Easter and the moveable feasts that hang on it.

use crate::date::{
    day_in_range, day_number_of, days_before_year, days_in_year, first_day_of_year,
    lemma_date_within_month, lemma_day_of_year_in_range, lemma_days_before_year_step, weekday_of,
    Date, Weekday, MAX_YEAR, MIN_YEAR,
};
use crate::types::MoveableFeasts;
use vstd::prelude::*;

verus! {

/// The quotient of `a` by `b`, rounded down.
fn floor_div(a: i32, b: i32) -> (q: i32)
    requires
        b > 0,
    ensures
        q == (a as int) / (b as int),
{
    assert(i32::MIN <= (a as int) / (b as int) <= i32::MAX) by (nonlinear_arith)
        requires
            i32::MIN <= a <= i32::MAX,
            b > 0,
    ;
    a.checked_div_euclid(b).unwrap()
}

/// The remainder of `a` by `b`, from 0 up to `b`.
fn floor_mod(a: i32, b: i32) -> (r: i32)
    requires
        b > 0,
    ensures
        r == (a as int) % (b as int),
{
    assert(0 <= (a as int) % (b as int) < b) by (nonlinear_arith)
        requires
            b > 0,
    ;
    a.checked_rem_euclid(b).unwrap()
}


/// The number of days from 21 March to the Paschal full moon of the given
/// year, from 0 to 29, by the computus of the Gregorian calendar in the
/// form of Meeus, Jones and Butcher. All divisions round down, so that the
/// reckoning holds for years before year 0 as well.
#[verifier::opaque]
pub open spec fn paschal_moon(year: int) -> int {
    let a = year % 19;
    let b = year / 100;
    let d = b / 4;
    let f = (b + 8) / 25;
    let g = (b - f + 1) / 3;
    (19 * a + b - d - g + 15) % 30
}

/// The number of days from 22 March to Easter Sunday, given the place `a`
/// of the year in the cycle of 19 years, the century modulo four `e`, the
/// leap years `i` of the century so far, the years `k` since the last of
/// them, and the days `h` to the Paschal full moon.
#[verifier::opaque]
pub open spec fn paschal_offset_from(a: int, e: int, i: int, k: int, h: int) -> int {
    let l = (32 + 2 * e + 2 * i - h - k) % 7;
    let m = (a + 11 * h + 22 * l) / 451;
    h + l - 7 * m
}

/// The number of days from 22 March to Easter Sunday of the given year.
pub open spec fn paschal_offset(year: int) -> int {
    paschal_offset_from(
        year % 19,
        (year / 100) % 4,
        (year % 100) / 4,
        (year % 100) % 4,
        paschal_moon(year),
    )
}

/// The month of Easter Sunday: 3 or 4.
pub open spec fn easter_month(year: int) -> int {
    (paschal_offset(year) + 114) / 31
}

/// The day of the month of Easter Sunday.
pub open spec fn easter_day(year: int) -> int {
    (paschal_offset(year) + 114) % 31 + 1
}

/// The date of Easter Sunday.
pub open spec fn easter_date(year: int) -> Date {
    Date { year: year as i32, month: easter_month(year) as u32, day: easter_day(year) as u32 }
}

/// The day number of Easter Sunday.
#[verifier::opaque]
pub open spec fn easter_day_number(year: int) -> int {
    day_number_of(year, easter_month(year), easter_day(year))
}

/// Easter falls on 22 March at the earliest and 34 days later at the latest.
pub proof fn lemma_paschal_offset_bounds(year: int)
    ensures
        0 <= paschal_offset(year) <= 34,
{
    reveal(paschal_moon);
    lemma_offset_from(
        year % 19,
        (year / 100) % 4,
        (year % 100) / 4,
        (year % 100) % 4,
        paschal_moon(year),
    );
}

/// The offset of Easter lies between 0 and 34, and differs by a number of
/// whole weeks from `32 + 2e + 2i - k`.
proof fn lemma_offset_from(a: int, e: int, i: int, k: int, h: int)
    requires
        0 <= a < 19,
        0 <= e < 4,
        0 <= i < 25,
        0 <= k < 4,
        0 <= h < 30,
    ensures
        0 <= paschal_offset_from(a, e, i, k, h) <= 34,
        (paschal_offset_from(a, e, i, k, h) - (32 + 2 * e + 2 * i - k)) % 7 == 0,
{
    reveal(paschal_offset_from);
    let x = 32 + 2 * e + 2 * i - h - k;
    let l = x % 7;
    let q = x / 7;
    let m = (a + 11 * h + 22 * l) / 451;
    assert(paschal_offset_from(a, e, i, k, h) - (32 + 2 * e + 2 * i - k) == 7 * (-q - m));
}

/// Easter is a day of March or April: from 22 March to 25 April.
pub proof fn lemma_easter_within_bounds(year: int)
    ensures
        easter_month(year) == 3 || easter_month(year) == 4,
        easter_month(year) == 3 ==> 22 <= easter_day(year) <= 31,
        easter_month(year) == 4 ==> 1 <= easter_day(year) <= 25,
        easter_day_number(year) == day_number_of(year, 3, 22) + paschal_offset(year),
{
    reveal(easter_day_number);
    lemma_paschal_offset_bounds(year);
    let p = paschal_offset(year);
    assert(easter_month(year) == (p + 114) / 31);
    assert(easter_day(year) == (p + 114) % 31 + 1);
    if p <= 9 {
        assert(easter_month(year) == 3 && easter_day(year) == p + 22);
    } else {
        assert(easter_month(year) == 4 && easter_day(year) == p - 9);
    }
}

/// How the quotients of a year by 4, 100 and 400 follow from its century
/// and its year of the century.
proof fn lemma_year_quotients(year: int)
    ensures
        year / 4 == 25 * (year / 100) + (year % 100) / 4,
        year / 400 == (year / 100) / 4,
{
}

/// The day number of 22 March, counted with the leap days up to this year.
proof fn lemma_march_22(year: int)
    ensures
        day_number_of(year, 3, 22) == 365 * (year - 1) + year / 4 - year / 100 + year / 400 + 81,
{
    lemma_days_before_year_step(year);
    assert(days_before_year(year + 1) == 365 * year + year / 4 - year / 100 + year / 400) by {
        reveal(days_before_year);
    }
}

/// A day number built from the parts of the computus is a multiple of seven.
proof fn lemma_sunday_linear(
    year: int,
    b: int,
    c: int,
    d: int,
    e: int,
    i: int,
    k: int,
    p: int,
    t: int,
    n: int,
)
    requires
        year == 100 * b + c,
        b == 4 * d + e,
        c == 4 * i + k,
        p == 32 + 2 * e + 2 * i - k + 7 * t,
        n == 365 * (year - 1) + (25 * b + i) - b + d + 81 + p,
    ensures
        n % 7 == 0,
{
    assert(n == 7 * (52 * (year - 1) + 71 * d + 18 * e + i + 16 + t));
}

/// Easter falls on a Sunday, in every year.
pub proof fn lemma_easter_is_sunday(year: int)
    ensures
        easter_day_number(year) % 7 == 0,
        weekday_of(easter_day_number(year)) == Weekday::Sun,
{
    let p = paschal_offset(year);
    let b = year / 100;
    let c = year % 100;
    let d = b / 4;
    let e = b % 4;
    let i = c / 4;
    let k = c % 4;
    let n = easter_day_number(year);
    assert(n == 365 * (year - 1) + (25 * b + i) - b + d + 81 + p) by {
        lemma_easter_within_bounds(year);
        lemma_year_quotients(year);
        lemma_march_22(year);
    }
    let r = p - (32 + 2 * e + 2 * i - k);
    assert(r % 7 == 0) by {
        reveal(paschal_moon);
        lemma_offset_from(year % 19, e, i, k, paschal_moon(year));
    }
    let t = r / 7;
    assert(p == 32 + 2 * e + 2 * i - k + 7 * t);
    lemma_sunday_linear(year, b, c, d, e, i, k, p, t, n);
}

/// The date of Easter Sunday of the given year.
pub fn easter(year: i32) -> (r: Date)
    requires
        MIN_YEAR <= year <= MAX_YEAR,
    ensures
        r == easter_date(year as int),
        r.valid(),
        r.day_number() == easter_day_number(year as int),
        weekday_of(r.day_number()) == Weekday::Sun,
        (r.month == 3 && r.day >= 22) || (r.month == 4 && r.day <= 25),
{
    let a: i32 = floor_mod(year, 19);
    let b: i32 = floor_div(year, 100);
    let c: i32 = floor_mod(year, 100);
    let d: i32 = floor_div(b, 4);
    let e: i32 = floor_mod(b, 4);
    let f: i32 = floor_div(b + 8, 25);
    let g: i32 = floor_div(b - f + 1, 3);
    let h: i32 = floor_mod(19 * a + b - d - g + 15, 30);
    let i: i32 = c / 4;
    let k: i32 = c % 4;
    let l: i32 = (32 + 2 * e + 2 * i - h - k) % 7;
    let m: i32 = (a + 11 * h + 22 * l) / 451;
    let month: i32 = (h + l - 7 * m + 114) / 31;
    let day: i32 = (h + l - 7 * m + 114) % 31 + 1;
    proof {
        reveal(paschal_moon);
        reveal(paschal_offset_from);
        reveal(easter_day_number);
        lemma_paschal_offset_bounds(year as int);
        lemma_easter_within_bounds(year as int);
        lemma_easter_is_sunday(year as int);
    }
    Date::from_ymd_opt(year, month as u32, day as u32).unwrap()
}


/// The day numbers of the moveable feasts of one year.
pub struct FeastDays {
    pub easter: int,
    pub septuagesima: int,
    pub ash_wednesday: int,
    pub passion_sunday: int,
    pub palm_sunday: int,
    pub holy_thursday: int,
    pub good_friday: int,
    pub holy_saturday: int,
    pub ascension: int,
    pub pentecost: int,
    pub corpus_christi: int,
    pub sacred_heart: int,
    pub christ_the_king: int,
    pub advent_1: int,
    pub ember: Seq<int>,
    pub rogation: Seq<int>,
}

/// The last Sunday on or before the day with number `n`.
#[verifier::opaque]
pub open spec fn sunday_on_or_before(n: int) -> int {
    n - n % 7
}

/// The first Sunday on or after the day with number `n`.
#[verifier::opaque]
pub open spec fn sunday_on_or_after(n: int) -> int {
    n + (7 - n % 7) % 7
}

/// The Sunday nearest to the day with number `n`: the one on or before it
/// when that is at most three days away, else the one after it.
#[verifier::opaque]
pub open spec fn nearest_sunday(n: int) -> int {
    if n % 7 <= 3 {
        n - n % 7
    } else {
        n + (7 - n % 7)
    }
}

/// The Sundays near a day: each is a Sunday, the one on or before the day
/// at most six days before it, the one on or after it at most six days
/// after it, and the nearest at most three days away. A Sunday is its own
/// Sunday.
pub proof fn lemma_sundays(n: int)
    ensures
        sunday_on_or_before(n) % 7 == 0,
        n - 6 <= sunday_on_or_before(n) <= n,
        sunday_on_or_after(n) % 7 == 0,
        n <= sunday_on_or_after(n) <= n + 6,
        nearest_sunday(n) % 7 == 0,
        n - 3 <= nearest_sunday(n) <= n + 3,
        n % 7 == 0 ==> sunday_on_or_before(n) == n && sunday_on_or_after(n) == n,
        n % 7 != 0 ==> sunday_on_or_after(n) == sunday_on_or_after(n + 1),
{
    reveal(sunday_on_or_before);
    reveal(sunday_on_or_after);
    reveal(nearest_sunday);
}

/// The weekday of a day that lies `k` days after a Sunday.
pub proof fn lemma_days_after_sunday(sunday: int, k: int)
    requires
        sunday % 7 == 0,
    ensures
        weekday_of(sunday + k) == weekday_of(k),
        (sunday + k) % 7 == k % 7,
{
}

/// The moveable feasts of a year, each by its day number.
///
/// The feasts of the Easter cycle lie a fixed number of days from Easter.
/// Christ the King is the last Sunday of October, and the first Sunday of
/// Advent is the Sunday nearest to 30 November. The Ember days are the
/// Wednesday, Friday and Saturday after the first Sunday of Lent, after
/// Pentecost, after the third Sunday of September and after the third
/// Sunday of Advent. The Rogation days are the three days before the
/// Ascension.
pub open spec fn feast_days(year: int) -> FeastDays {
    let easter = easter_day_number(year);
    let ash_wednesday = easter - 46;
    let ascension = easter + 39;
    let pentecost = easter + 49;
    let corpus_christi = easter + 60;
    let advent_1 = nearest_sunday(day_number_of(year, 11, 30));
    let first_sunday_of_lent = ash_wednesday + 4;
    let third_sunday_of_september = sunday_on_or_after(day_number_of(year, 9, 1)) + 14;
    let third_sunday_of_advent = advent_1 + 14;
    FeastDays {
        easter,
        septuagesima: easter - 63,
        ash_wednesday,
        passion_sunday: easter - 14,
        palm_sunday: easter - 7,
        holy_thursday: easter - 3,
        good_friday: easter - 2,
        holy_saturday: easter - 1,
        ascension,
        pentecost,
        corpus_christi,
        sacred_heart: corpus_christi + 8,
        christ_the_king: sunday_on_or_before(day_number_of(year, 10, 31)),
        advent_1,
        ember: seq![
            first_sunday_of_lent + 3,
            first_sunday_of_lent + 5,
            first_sunday_of_lent + 6,
            pentecost + 3,
            pentecost + 5,
            pentecost + 6,
            third_sunday_of_september + 3,
            third_sunday_of_september + 5,
            third_sunday_of_september + 6,
            third_sunday_of_advent + 3,
            third_sunday_of_advent + 5,
            third_sunday_of_advent + 6,
        ],
        rogation: seq![ascension - 3, ascension - 2, ascension - 1],
    }
}

/// Whether `d` is the valid date with day number `n`.
pub open spec fn is_day(d: Date, n: int) -> bool {
    d.valid() && d.day_number() == n
}

impl MoveableFeasts {
    /// Whether these are the moveable feasts of the given year: every date
    /// is valid and has the day number that [`feast_days`] gives.
    pub open spec fn is_for(&self, year: int) -> bool {
        let days = feast_days(year);
        &&& is_day(self.easter, days.easter)
        &&& is_day(self.septuagesima, days.septuagesima)
        &&& is_day(self.ash_wednesday, days.ash_wednesday)
        &&& is_day(self.passion_sunday, days.passion_sunday)
        &&& is_day(self.palm_sunday, days.palm_sunday)
        &&& is_day(self.holy_thursday, days.holy_thursday)
        &&& is_day(self.good_friday, days.good_friday)
        &&& is_day(self.holy_saturday, days.holy_saturday)
        &&& is_day(self.ascension, days.ascension)
        &&& is_day(self.pentecost, days.pentecost)
        &&& is_day(self.corpus_christi, days.corpus_christi)
        &&& is_day(self.sacred_heart, days.sacred_heart)
        &&& is_day(self.christ_the_king, days.christ_the_king)
        &&& is_day(self.advent_1, days.advent_1)
        &&& self.ember_days@.len() == 12
        &&& forall|j: int| 0 <= j < 12 ==> is_day(#[trigger] self.ember_days@[j], days.ember[j])
        &&& self.rogation_days@.len() == 3
        &&& forall|j: int|
            0 <= j < 3 ==> is_day(#[trigger] self.rogation_days@[j], days.rogation[j])
    }
}

/// Whether the day with number `n` is a day of the given year.
pub open spec fn in_year(n: int, year: int) -> bool {
    first_day_of_year(year) <= n < first_day_of_year(year) + days_in_year(year)
}

/// Where the moveable feasts lie in their year and in the week.
///
/// All of them fall within the year itself. Easter is a Sunday; Christ the
/// King is a Sunday from 25 to 31 October, the first Sunday of Advent a
/// Sunday from 27 November to 3 December, and the third Sunday of
/// September, three days before the first of its Ember days, falls from 15
/// to 21 September.
pub proof fn lemma_feast_days(year: int)
    ensures
        ({
            let days = feast_days(year);
            &&& days.ember.len() == 12
            &&& days.rogation.len() == 3
            &&& in_year(days.septuagesima, year)
            &&& in_year(days.sacred_heart, year)
            &&& in_year(days.christ_the_king, year)
            &&& in_year(days.advent_1, year)
            &&& forall|j: int| 0 <= j < 12 ==> in_year(#[trigger] days.ember[j], year)
            &&& days.easter % 7 == 0
            &&& days.christ_the_king % 7 == 0
            &&& days.advent_1 % 7 == 0
            &&& (days.ember[6] - 3) % 7 == 0
            &&& day_number_of(year, 3, 22) <= days.easter <= day_number_of(year, 4, 25)
            &&& day_number_of(year, 10, 25) <= days.christ_the_king <= day_number_of(year, 10, 31)
            &&& day_number_of(year, 11, 27) <= days.advent_1 <= day_number_of(year, 12, 3)
            &&& day_number_of(year, 9, 18) <= days.ember[6] <= day_number_of(year, 9, 24)
        }),
{
    lemma_easter_within_bounds(year);
    lemma_easter_is_sunday(year);
    lemma_paschal_offset_bounds(year);
    lemma_sundays(day_number_of(year, 10, 31));
    lemma_sundays(day_number_of(year, 11, 30));
    lemma_sundays(day_number_of(year, 9, 1));
    let days = feast_days(year);
    let first = first_day_of_year(year);
    let leap = days_in_year(year) - 365;
    assert(0 <= leap <= 1);
    assert(day_number_of(year, 3, 22) == first + 80 + leap);
    assert(day_number_of(year, 9, 1) == first + 243 + leap);
    assert(day_number_of(year, 10, 31) == first + 303 + leap);
    assert(day_number_of(year, 11, 30) == first + 333 + leap);
    assert forall|j: int| 0 <= j < 12 implies in_year(#[trigger] days.ember[j], year) by {
        assert(first + 40 <= days.ember[j] <= first + 360);
    }
}

/// The feasts that hang on Easter keep their day of the week: the Sundays
/// from Septuagesima to Pentecost, Ash Wednesday, the Thursday, Friday and
/// Saturday of Holy Week, the Thursdays of the Ascension and of Corpus
/// Christi, and the Friday of the Sacred Heart.
pub proof fn lemma_feast_weekdays(year: int)
    ensures
        ({
            let days = feast_days(year);
            &&& weekday_of(days.easter) == Weekday::Sun
            &&& weekday_of(days.septuagesima) == Weekday::Sun
            &&& weekday_of(days.ash_wednesday) == Weekday::Wed
            &&& weekday_of(days.passion_sunday) == Weekday::Sun
            &&& weekday_of(days.palm_sunday) == Weekday::Sun
            &&& weekday_of(days.holy_thursday) == Weekday::Thu
            &&& weekday_of(days.good_friday) == Weekday::Fri
            &&& weekday_of(days.holy_saturday) == Weekday::Sat
            &&& weekday_of(days.ascension) == Weekday::Thu
            &&& weekday_of(days.pentecost) == Weekday::Sun
            &&& weekday_of(days.corpus_christi) == Weekday::Thu
            &&& weekday_of(days.sacred_heart) == Weekday::Fri
            &&& weekday_of(days.christ_the_king) == Weekday::Sun
            &&& weekday_of(days.advent_1) == Weekday::Sun
        }),
{
    lemma_feast_days(year);
    let easter = feast_days(year).easter;
    lemma_days_after_sunday(easter, -63);
    lemma_days_after_sunday(easter, -46);
    lemma_days_after_sunday(easter, -14);
    lemma_days_after_sunday(easter, -7);
    lemma_days_after_sunday(easter, -3);
    lemma_days_after_sunday(easter, -2);
    lemma_days_after_sunday(easter, -1);
    lemma_days_after_sunday(easter, 39);
    lemma_days_after_sunday(easter, 49);
    lemma_days_after_sunday(easter, 60);
    lemma_days_after_sunday(easter, 68);
}

/// The Ember days of each of the four seasons are a Wednesday, a Friday and
/// a Saturday; the Rogation days are a Monday, a Tuesday and a Wednesday.
pub proof fn lemma_ember_and_rogation_weekdays(year: int)
    ensures
        ({
            let days = feast_days(year);
            &&& days.ember.len() == 12
            &&& days.rogation.len() == 3
            &&& forall|j: int|
                0 <= j < 12 ==> weekday_of(#[trigger] days.ember[j]) == (if j % 3 == 0 {
                    Weekday::Wed
                } else if j % 3 == 1 {
                    Weekday::Fri
                } else {
                    Weekday::Sat
                })
            &&& weekday_of(days.rogation[0]) == Weekday::Mon
            &&& weekday_of(days.rogation[1]) == Weekday::Tue
            &&& weekday_of(days.rogation[2]) == Weekday::Wed
        }),
{
    lemma_feast_days(year);
    let days = feast_days(year);
    let easter = days.easter;
    let september = days.ember[6] - 3;
    let advent = days.advent_1;
    lemma_days_after_sunday(easter, 36);
    lemma_days_after_sunday(easter, 37);
    lemma_days_after_sunday(easter, 38);
    lemma_days_after_sunday(easter, -39);
    lemma_days_after_sunday(easter, -37);
    lemma_days_after_sunday(easter, -36);
    lemma_days_after_sunday(easter, 52);
    lemma_days_after_sunday(easter, 54);
    lemma_days_after_sunday(easter, 55);
    lemma_days_after_sunday(september, 3);
    lemma_days_after_sunday(september, 5);
    lemma_days_after_sunday(september, 6);
    lemma_days_after_sunday(advent, 17);
    lemma_days_after_sunday(advent, 19);
    lemma_days_after_sunday(advent, 20);
    assert(days.ember =~= seq![
        easter - 39,
        easter - 37,
        easter - 36,
        easter + 52,
        easter + 54,
        easter + 55,
        september + 3,
        september + 5,
        september + 6,
        advent + 17,
        advent + 19,
        advent + 20,
    ]);
    assert(days.rogation =~= seq![easter + 36, easter + 37, easter + 38]);
}

/// The moveable feasts of the given year.
pub fn moveable_feasts(year: i32) -> (r: MoveableFeasts)
    requires
        MIN_YEAR <= year <= MAX_YEAR,
    ensures
        r.is_for(year as int),
        r.easter == easter_date(year as int),
        weekday_of(r.easter.day_number()) == Weekday::Sun,
        weekday_of(r.christ_the_king.day_number()) == Weekday::Sun,
        r.christ_the_king.year == year && r.christ_the_king.month == 10 && 25
            <= r.christ_the_king.day <= 31,
        weekday_of(r.advent_1.day_number()) == Weekday::Sun,
        r.advent_1.year == year && ((r.advent_1.month == 11 && r.advent_1.day >= 27) || (
        r.advent_1.month == 12 && r.advent_1.day <= 3)),
{
    proof {
        reveal(sunday_on_or_before);
        reveal(sunday_on_or_after);
        reveal(nearest_sunday);
        lemma_feast_days(year as int);
        lemma_easter_within_bounds(year as int);
        assert forall|n: int| in_year(n, year as int) implies day_in_range(n) by {
            lemma_day_of_year_in_range(year as int, n);
        }
    }
    let easter_date = easter(year);
    let septuagesima = easter_date.plus_days(-63);
    let ash_wednesday = easter_date.plus_days(-46);
    let passion_sunday = easter_date.plus_days(-14);
    let palm_sunday = easter_date.plus_days(-7);
    let holy_thursday = easter_date.plus_days(-3);
    let good_friday = easter_date.plus_days(-2);
    let holy_saturday = easter_date.plus_days(-1);
    let ascension = easter_date.plus_days(39);
    let pentecost = easter_date.plus_days(49);
    let corpus_christi = easter_date.plus_days(60);
    let sacred_heart = corpus_christi.plus_days(8);

    let oct31 = Date::from_ymd_opt(year, 10, 31).unwrap();
    let days_from_sunday: u32 = oct31.weekday().num_days_from_sunday();
    let christ_the_king = oct31.plus_days(-(days_from_sunday as i64));

    let nov30 = Date::from_ymd_opt(year, 11, 30).unwrap();
    let days_from_sun: u32 = nov30.weekday().num_days_from_sunday();
    let advent_1 = if days_from_sun <= 3 {
        nov30.plus_days(-(days_from_sun as i64))
    } else {
        nov30.plus_days((7 - days_from_sun) as i64)
    };

    let first_sunday_of_lent = ash_wednesday.plus_days(4);
    let sept1 = Date::from_ymd_opt(year, 9, 1).unwrap();
    let days_to_sun: u32 = (7 - sept1.weekday().num_days_from_sunday()) % 7;
    let first_sunday_sept = sept1.plus_days(days_to_sun as i64);
    let third_sunday_sept = first_sunday_sept.plus_days(14);
    let advent_3 = advent_1.plus_days(14);
    let ember_days = vec![
        first_sunday_of_lent.plus_days(3),
        first_sunday_of_lent.plus_days(5),
        first_sunday_of_lent.plus_days(6),
        pentecost.plus_days(3),
        pentecost.plus_days(5),
        pentecost.plus_days(6),
        third_sunday_sept.plus_days(3),
        third_sunday_sept.plus_days(5),
        third_sunday_sept.plus_days(6),
        advent_3.plus_days(3),
        advent_3.plus_days(5),
        advent_3.plus_days(6),
    ];
    let rogation_days = vec![
        ascension.plus_days(-3),
        ascension.plus_days(-2),
        ascension.plus_days(-1),
    ];
    proof {
        lemma_date_within_month(christ_the_king, year as int, 10, 25, 31);
        if advent_1.day_number() <= day_number_of(year as int, 11, 30) {
            lemma_date_within_month(advent_1, year as int, 11, 27, 30);
        } else {
            lemma_date_within_month(advent_1, year as int, 12, 1, 3);
        }
    }
    MoveableFeasts {
        easter: easter_date,
        septuagesima,
        ash_wednesday,
        passion_sunday,
        palm_sunday,
        holy_thursday,
        good_friday,
        holy_saturday,
        ascension,
        pentecost,
        corpus_christi,
        sacred_heart,
        christ_the_king,
        advent_1,
        ember_days,
        rogation_days,
    }
}

} // verus!
