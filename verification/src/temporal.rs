//! The temporal cycle: the season and week of every day of a year, and the
//! days that have a celebration of their own.

use crate::computus::{
    feast_days, in_year, lemma_ember_and_rogation_weekdays, lemma_feast_days, moveable_feasts,
    FeastDays,
};
use crate::date::{
    day_in_range, day_number_of, days_in_year, first_day_of_year, lemma_day_of_year_in_range,
    month_day_text, weekday_of, Date, Weekday, MAX_YEAR, MIN_YEAR,
};
use crate::text::{decimal_string, decimal_text, lemma_decimal_text_nonempty};
use crate::types::{
    celebration_of, celebration_view_of, sunday_view, Celebration, CelebrationCategory,
    CelebrationRank, CelebrationView, LiturgicalColor, LiturgicalSeason, MoveableFeasts,
};
use vstd::prelude::*;

verus! {

/// The season of a day and its week within the season.
#[derive(Clone, Copy, Debug, PartialEq, Eq, Structural)]
pub struct TemporalEntry {
    pub season: LiturgicalSeason,
    pub week: u8,
}

/// One day of the temporal cycle: its date, its season and week, and the
/// celebration proper to it, if it has one.
#[derive(Clone, Debug)]
pub struct TemporalDay {
    pub date: Date,
    pub entry: TemporalEntry,
    pub special: Option<Celebration>,
}

/// The week of a day within its season: one more than the whole weeks that
/// have passed since the season began on day `start`.
pub open spec fn week_from(start: int, n: int) -> u8 {
    ((n - start) / 7 + 1) as u8
}

/// The season and week of the day with number `n` in the given year.
///
/// The year runs through eleven stretches, each beginning on a fixed or
/// moveable day: Christmastide up to the Epiphany, the time after Epiphany,
/// Septuagesima, Lent, Passiontide, Holy Week, Eastertide, Ascensiontide up
/// to and including Pentecost, the time after Pentecost, Advent, and
/// Christmastide again from 25 December. In Lent the days before its first
/// Sunday are of week 0.
pub open spec fn season_entry(n: int, year: int) -> TemporalEntry {
    let days = feast_days(year);
    let epiphany = day_number_of(year, 1, 6);
    let christmas = day_number_of(year, 12, 25);
    let first_sunday_of_lent = days.ash_wednesday + 4;
    if n < epiphany {
        TemporalEntry { season: LiturgicalSeason::Christmas, week: 1 }
    } else if n >= epiphany && n < days.septuagesima {
        TemporalEntry { season: LiturgicalSeason::AfterEpiphany, week: week_from(epiphany, n) }
    } else if n >= days.septuagesima && n < days.ash_wednesday {
        TemporalEntry {
            season: LiturgicalSeason::Septuagesima,
            week: week_from(days.septuagesima, n),
        }
    } else if n >= days.ash_wednesday && n < days.passion_sunday {
        if n < first_sunday_of_lent {
            TemporalEntry { season: LiturgicalSeason::Lent, week: 0 }
        } else {
            TemporalEntry {
                season: LiturgicalSeason::Lent,
                week: week_from(first_sunday_of_lent, n),
            }
        }
    } else if n >= days.passion_sunday && n < days.palm_sunday {
        TemporalEntry { season: LiturgicalSeason::Passiontide, week: 1 }
    } else if n >= days.palm_sunday && n < days.easter {
        TemporalEntry { season: LiturgicalSeason::HolyWeek, week: 1 }
    } else if n >= days.easter && n < days.ascension {
        TemporalEntry { season: LiturgicalSeason::Easter, week: week_from(days.easter, n) }
    } else if n >= days.ascension && n <= days.pentecost {
        TemporalEntry { season: LiturgicalSeason::Ascensiontide, week: 1 }
    } else if n > days.pentecost && n < days.advent_1 {
        TemporalEntry {
            season: LiturgicalSeason::AfterPentecost,
            week: week_from(days.pentecost, n),
        }
    } else if n >= days.advent_1 && n < christmas {
        TemporalEntry { season: LiturgicalSeason::Advent, week: week_from(days.advent_1, n) }
    } else {
        TemporalEntry { season: LiturgicalSeason::Christmas, week: 1 }
    }
}

/// Whether the day with number `n` lies in the stretch of the year that
/// belongs to `season`.
pub open spec fn in_season(n: int, year: int, season: LiturgicalSeason) -> bool {
    let days = feast_days(year);
    let epiphany = day_number_of(year, 1, 6);
    let christmas = day_number_of(year, 12, 25);
    match season {
        LiturgicalSeason::Christmas => n < epiphany || christmas <= n,
        LiturgicalSeason::AfterEpiphany => epiphany <= n < days.septuagesima,
        LiturgicalSeason::Septuagesima => days.septuagesima <= n < days.ash_wednesday,
        LiturgicalSeason::Lent => days.ash_wednesday <= n < days.passion_sunday,
        LiturgicalSeason::Passiontide => days.passion_sunday <= n < days.palm_sunday,
        LiturgicalSeason::HolyWeek => days.palm_sunday <= n < days.easter,
        LiturgicalSeason::Easter => days.easter <= n < days.ascension,
        LiturgicalSeason::Ascensiontide => days.ascension <= n <= days.pentecost,
        LiturgicalSeason::AfterPentecost => days.pentecost < n < days.advent_1,
        LiturgicalSeason::Advent => days.advent_1 <= n < christmas,
    }
}

/// The seasons cover the year without gap or overlap. The days on which
/// they begin follow one another from 1 January to 31 December, so every
/// day of the year lies in the stretch of exactly one season, and that is
/// the season that [`season_entry`] gives it.
pub proof fn lemma_seasons_tile_year(year: int)
    ensures
        ({
            let days = feast_days(year);
            &&& first_day_of_year(year) < day_number_of(year, 1, 6) < days.septuagesima
                < days.ash_wednesday < days.passion_sunday < days.palm_sunday < days.easter
                < days.ascension < days.pentecost < days.advent_1 < day_number_of(year, 12, 25)
                < first_day_of_year(year) + days_in_year(year)
        }),
        forall|n: int, season: LiturgicalSeason|
            in_year(n, year) ==> (#[trigger] in_season(n, year, season) <==> season_entry(
                n,
                year,
            ).season == season),
{
    lemma_feast_days(year);
}

/// The day within the octave of Easter that lies `k` days after Easter.
pub open spec fn easter_octave_view(k: int, w: Weekday) -> CelebrationView {
    celebration_of(
        "easter-octave-"@ + decimal_text(k as nat),
        "Infra Octavam Paschae"@,
        w.long_name_text() + " within the Octave of Easter"@,
        CelebrationRank::ClassI,
        CelebrationCategory::WithinOctave,
        LiturgicalColor::White,
        1,
    )
}

/// The day within the octave of Pentecost that lies `k` days after
/// Pentecost.
pub open spec fn pentecost_octave_view(k: int, w: Weekday) -> CelebrationView {
    celebration_of(
        "pentecost-octave-"@ + decimal_text(k as nat),
        "Infra Octavam Pentecostes"@,
        w.long_name_text() + " within the Octave of Pentecost"@,
        CelebrationRank::ClassI,
        CelebrationCategory::WithinOctave,
        LiturgicalColor::Red,
        1,
    )
}

/// An Ember day, named by its month and day.
pub open spec fn ember_view(date: Date, w: Weekday) -> CelebrationView {
    celebration_of(
        "ember-"@ + month_day_text(date.month as int, date.day as int),
        "Feria Quatuor Temporum"@,
        "Ember "@ + w.long_name_text(),
        CelebrationRank::FeriaPrivileged,
        CelebrationCategory::EmberDay,
        LiturgicalColor::Violet,
        8,
    )
}

/// A Rogation day, named by its month and day.
pub open spec fn rogation_view(date: Date, w: Weekday) -> CelebrationView {
    celebration_of(
        "rogation-"@ + month_day_text(date.month as int, date.day as int),
        "Feria Rogationum"@,
        "Rogation "@ + w.long_name_text(),
        CelebrationRank::ClassIV,
        CelebrationCategory::RogationDay,
        LiturgicalColor::Violet,
        11,
    )
}

/// Whether the day with number `n` is the last Sunday after Pentecost: a
/// Sunday at least a week after Pentecost and less than a week before the
/// first Sunday of Advent.
pub open spec fn is_last_sunday_after_pentecost(n: int, days: FeastDays) -> bool {
    &&& weekday_of(n) == Weekday::Sun
    &&& n >= days.pentecost + 7
    &&& n < days.advent_1
    &&& n + 7 >= days.advent_1
}

/// The celebration proper to a day of the temporal cycle, if it has one.
///
/// The cases are tried in this order, and the first that fits decides:
/// Easter; the six days after it; Low Sunday; Ash Wednesday; Palm Sunday;
/// Holy Thursday, Good Friday and Holy Saturday; the Ascension; Pentecost;
/// the six days after it; Corpus Christi; the Sacred Heart; Christ the King;
/// the Ember days; the Rogation days; the last Sunday after Pentecost; the
/// three Sundays from Septuagesima; Passion Sunday.
pub open spec fn special_view(date: Date, year: int) -> Option<CelebrationView> {
    let days = feast_days(year);
    let n = date.day_number();
    let w = weekday_of(n);
    if n == days.easter {
        Some(
            celebration_of(
                "easter-sunday"@,
                "Dominica Resurrectionis"@,
                "Easter Sunday"@,
                CelebrationRank::ClassI,
                CelebrationCategory::Solemnity,
                LiturgicalColor::White,
                1,
            ),
        )
    } else if n > days.easter && n < days.easter + 7 {
        Some(easter_octave_view(n - days.easter, w))
    } else if n == days.easter + 7 {
        Some(
            celebration_of(
                "low-sunday"@,
                "Dominica in Albis"@,
                "Low Sunday (Octave Day of Easter)"@,
                CelebrationRank::ClassI,
                CelebrationCategory::OctaveDay,
                LiturgicalColor::White,
                1,
            ),
        )
    } else if n == days.ash_wednesday {
        Some(
            celebration_of(
                "ash-wednesday"@,
                "Feria IV Cinerum"@,
                "Ash Wednesday"@,
                CelebrationRank::ClassI,
                CelebrationCategory::Feria,
                LiturgicalColor::Violet,
                3,
            ),
        )
    } else if n == days.palm_sunday {
        Some(
            celebration_of(
                "palm-sunday"@,
                "Dominica in Palmis"@,
                "Palm Sunday"@,
                CelebrationRank::ClassI,
                CelebrationCategory::Sunday,
                LiturgicalColor::Violet,
                2,
            ),
        )
    } else if n == days.holy_thursday {
        Some(
            celebration_of(
                "holy-thursday"@,
                "Feria V in Cena Domini"@,
                "Holy Thursday"@,
                CelebrationRank::ClassI,
                CelebrationCategory::Solemnity,
                LiturgicalColor::White,
                1,
            ),
        )
    } else if n == days.good_friday {
        Some(
            celebration_of(
                "good-friday"@,
                "Feria VI in Parasceve"@,
                "Good Friday"@,
                CelebrationRank::ClassI,
                CelebrationCategory::Solemnity,
                LiturgicalColor::Black,
                1,
            ),
        )
    } else if n == days.holy_saturday {
        Some(
            celebration_of(
                "holy-saturday"@,
                "Sabbato Sancto"@,
                "Holy Saturday"@,
                CelebrationRank::ClassI,
                CelebrationCategory::Solemnity,
                LiturgicalColor::Violet,
                1,
            ),
        )
    } else if n == days.ascension {
        Some(
            celebration_of(
                "ascension"@,
                "In Ascensione Domini"@,
                "The Ascension of Our Lord"@,
                CelebrationRank::ClassI,
                CelebrationCategory::FeastOfLord,
                LiturgicalColor::White,
                1,
            ),
        )
    } else if n == days.pentecost {
        Some(
            celebration_of(
                "pentecost"@,
                "Dominica Pentecostes"@,
                "Pentecost Sunday"@,
                CelebrationRank::ClassI,
                CelebrationCategory::Solemnity,
                LiturgicalColor::Red,
                1,
            ),
        )
    } else if n > days.pentecost && n < days.pentecost + 7 {
        Some(pentecost_octave_view(n - days.pentecost, w))
    } else if n == days.corpus_christi {
        Some(
            celebration_of(
                "corpus-christi"@,
                "Ss.mi Corporis Christi"@,
                "Corpus Christi"@,
                CelebrationRank::ClassI,
                CelebrationCategory::FeastOfLord,
                LiturgicalColor::White,
                1,
            ),
        )
    } else if n == days.sacred_heart {
        Some(
            celebration_of(
                "sacred-heart"@,
                "Ss.mi Cordis Jesu"@,
                "The Most Sacred Heart of Jesus"@,
                CelebrationRank::ClassI,
                CelebrationCategory::FeastOfLord,
                LiturgicalColor::White,
                4,
            ),
        )
    } else if n == days.christ_the_king {
        Some(
            celebration_of(
                "christ-the-king"@,
                "D.N. Jesu Christi Regis"@,
                "Our Lord Jesus Christ the King"@,
                CelebrationRank::ClassI,
                CelebrationCategory::FeastOfLord,
                LiturgicalColor::White,
                4,
            ),
        )
    } else if days.ember.contains(n) {
        Some(ember_view(date, w))
    } else if days.rogation.contains(n) {
        Some(rogation_view(date, w))
    } else if is_last_sunday_after_pentecost(n, days) {
        Some(
            celebration_of(
                "last-sunday-after-pentecost"@,
                "Dominica Ultima post Pentecosten"@,
                "Last Sunday after Pentecost"@,
                CelebrationRank::ClassI,
                CelebrationCategory::Sunday,
                LiturgicalColor::Green,
                2,
            ),
        )
    } else if n == days.septuagesima {
        Some(sunday_view(LiturgicalSeason::Septuagesima, 1))
    } else if n == days.septuagesima + 7 {
        Some(sunday_view(LiturgicalSeason::Septuagesima, 2))
    } else if n == days.septuagesima + 14 {
        Some(sunday_view(LiturgicalSeason::Septuagesima, 3))
    } else if n == days.passion_sunday {
        Some(sunday_view(LiturgicalSeason::Passiontide, 1))
    } else {
        None
    }
}

/// The celebration proper to a day has an identifier, and on a Sunday it
/// is either a Sunday with a precedence of 6 at most or a celebration with
/// a precedence of 5 at most: the Ember days and the Rogation days, which
/// alone rank lower, never fall on a Sunday.
pub proof fn lemma_special_view(date: Date, year: int)
    ensures
        match special_view(date, year) {
            Some(c) => {
                &&& c.id.len() > 0
                &&& weekday_of(date.day_number()) == Weekday::Sun ==> (c.category
                    == CelebrationCategory::Sunday && c.precedence <= 6) || c.precedence <= 5
            },
            None => true,
        },
{
    let days = feast_days(year);
    let n = date.day_number();
    lemma_ember_and_rogation_weekdays(year);
    reveal_strlit("easter-sunday");
    reveal_strlit("low-sunday");
    reveal_strlit("ash-wednesday");
    reveal_strlit("palm-sunday");
    reveal_strlit("holy-thursday");
    reveal_strlit("good-friday");
    reveal_strlit("holy-saturday");
    reveal_strlit("ascension");
    reveal_strlit("pentecost");
    reveal_strlit("corpus-christi");
    reveal_strlit("sacred-heart");
    reveal_strlit("christ-the-king");
    reveal_strlit("last-sunday-after-pentecost");
    lemma_decimal_text_nonempty((n - days.easter) as nat);
    lemma_decimal_text_nonempty((n - days.pentecost) as nat);
    lemma_decimal_text_nonempty(1);
    lemma_decimal_text_nonempty(2);
    lemma_decimal_text_nonempty(3);
    if days.ember.contains(n) {
        let j = choose|j: int| 0 <= j < days.ember.len() && days.ember[j] == n;
        assert(weekday_of(days.ember[j]) != Weekday::Sun);
    }
    if days.rogation.contains(n) {
        let j = choose|j: int| 0 <= j < days.rogation.len() && days.rogation[j] == n;
        assert(weekday_of(days.rogation[j]) != Weekday::Sun);
    }
}

/// The day numbers of a sequence of dates, in order.
spec fn day_numbers(dates: Seq<Date>) -> Seq<int> {
    dates.map_values(|d: Date| d.day_number())
}

/// Whether `date` is one of the dates of `list`.
fn contains_date(list: &Vec<Date>, date: &Date) -> (r: bool)
    requires
        date.valid(),
        forall|j: int| 0 <= j < list@.len() ==> (#[trigger] list@[j]).valid(),
    ensures
        r == day_numbers(list@).contains(date.day_number()),
{
    let mut j: usize = 0;
    while j < list.len()
        invariant
            j <= list@.len(),
            date.valid(),
            forall|i: int| 0 <= i < list@.len() ==> (#[trigger] list@[i]).valid(),
            forall|i: int| 0 <= i < j ==> day_numbers(list@)[i] != date.day_number(),
        decreases list@.len() - j,
    {
        if list[j].is_on(date) {
            assert(day_numbers(list@)[j as int] == date.day_number());
            return true;
        }
        j += 1;
    }
    false
}

/// The celebration proper to a day of the temporal cycle, if it has one.
pub fn classify_special(date: Date, year: i32, mf: &MoveableFeasts) -> (r: Option<Celebration>)
    requires
        date.valid(),
        MIN_YEAR <= year <= MAX_YEAR,
        mf.is_for(year as int),
    ensures
        celebration_view_of(r) == special_view(date, year as int),
{
    proof {
        let days = feast_days(year as int);
        lemma_feast_days(year as int);
        assert forall|n: int| in_year(n, year as int) implies day_in_range(n) by {
            lemma_day_of_year_in_range(year as int, n);
        }
        assert(day_numbers(mf.ember_days@) =~= days.ember);
        assert(day_numbers(mf.rogation_days@) =~= days.rogation);
    }
    // Easter
    if date.is_on(&mf.easter) {
        return Some(
            Celebration::new(
                "easter-sunday",
                "Dominica Resurrectionis",
                "Easter Sunday",
                CelebrationRank::ClassI,
                CelebrationCategory::Solemnity,
                LiturgicalColor::White,
                1,
            ),
        );
    }
    // The days within the octave of Easter

    if mf.easter.is_before(&date) && date.is_before(&mf.easter.plus_days(7)) {
        let mut id = String::from_str("easter-octave-");
        id.append(decimal_string(date.days_since(&mf.easter) as u8).as_str());
        let mut title_en = String::from_str(date.weekday().long_name());
        title_en.append(" within the Octave of Easter");
        return Some(
            Celebration::new(
                id.as_str(),
                "Infra Octavam Paschae",
                title_en.as_str(),
                CelebrationRank::ClassI,
                CelebrationCategory::WithinOctave,
                LiturgicalColor::White,
                1,
            ),
        );
    }
    // Low Sunday, the octave day of Easter

    if date.is_on(&mf.easter.plus_days(7)) {
        return Some(
            Celebration::new(
                "low-sunday",
                "Dominica in Albis",
                "Low Sunday (Octave Day of Easter)",
                CelebrationRank::ClassI,
                CelebrationCategory::OctaveDay,
                LiturgicalColor::White,
                1,
            ),
        );
    }
    if date.is_on(&mf.ash_wednesday) {
        return Some(
            Celebration::new(
                "ash-wednesday",
                "Feria IV Cinerum",
                "Ash Wednesday",
                CelebrationRank::ClassI,
                CelebrationCategory::Feria,
                LiturgicalColor::Violet,
                3,
            ),
        );
    }
    if date.is_on(&mf.palm_sunday) {
        return Some(
            Celebration::new(
                "palm-sunday",
                "Dominica in Palmis",
                "Palm Sunday",
                CelebrationRank::ClassI,
                CelebrationCategory::Sunday,
                LiturgicalColor::Violet,
                2,
            ),
        );
    }
    if date.is_on(&mf.holy_thursday) {
        return Some(
            Celebration::new(
                "holy-thursday",
                "Feria V in Cena Domini",
                "Holy Thursday",
                CelebrationRank::ClassI,
                CelebrationCategory::Solemnity,
                LiturgicalColor::White,
                1,
            ),
        );
    }
    if date.is_on(&mf.good_friday) {
        return Some(
            Celebration::new(
                "good-friday",
                "Feria VI in Parasceve",
                "Good Friday",
                CelebrationRank::ClassI,
                CelebrationCategory::Solemnity,
                LiturgicalColor::Black,
                1,
            ),
        );
    }
    if date.is_on(&mf.holy_saturday) {
        return Some(
            Celebration::new(
                "holy-saturday",
                "Sabbato Sancto",
                "Holy Saturday",
                CelebrationRank::ClassI,
                CelebrationCategory::Solemnity,
                LiturgicalColor::Violet,
                1,
            ),
        );
    }
    if date.is_on(&mf.ascension) {
        return Some(
            Celebration::new(
                "ascension",
                "In Ascensione Domini",
                "The Ascension of Our Lord",
                CelebrationRank::ClassI,
                CelebrationCategory::FeastOfLord,
                LiturgicalColor::White,
                1,
            ),
        );
    }
    if date.is_on(&mf.pentecost) {
        return Some(
            Celebration::new(
                "pentecost",
                "Dominica Pentecostes",
                "Pentecost Sunday",
                CelebrationRank::ClassI,
                CelebrationCategory::Solemnity,
                LiturgicalColor::Red,
                1,
            ),
        );
    }
    // The days within the octave of Pentecost

    if mf.pentecost.is_before(&date) && date.is_before(&mf.pentecost.plus_days(7)) {
        let mut id = String::from_str("pentecost-octave-");
        id.append(decimal_string(date.days_since(&mf.pentecost) as u8).as_str());
        let mut title_en = String::from_str(date.weekday().long_name());
        title_en.append(" within the Octave of Pentecost");
        return Some(
            Celebration::new(
                id.as_str(),
                "Infra Octavam Pentecostes",
                title_en.as_str(),
                CelebrationRank::ClassI,
                CelebrationCategory::WithinOctave,
                LiturgicalColor::Red,
                1,
            ),
        );
    }
    if date.is_on(&mf.corpus_christi) {
        return Some(
            Celebration::new(
                "corpus-christi",
                "Ss.mi Corporis Christi",
                "Corpus Christi",
                CelebrationRank::ClassI,
                CelebrationCategory::FeastOfLord,
                LiturgicalColor::White,
                1,
            ),
        );
    }
    if date.is_on(&mf.sacred_heart) {
        return Some(
            Celebration::new(
                "sacred-heart",
                "Ss.mi Cordis Jesu",
                "The Most Sacred Heart of Jesus",
                CelebrationRank::ClassI,
                CelebrationCategory::FeastOfLord,
                LiturgicalColor::White,
                4,
            ),
        );
    }
    if date.is_on(&mf.christ_the_king) {
        return Some(
            Celebration::new(
                "christ-the-king",
                "D.N. Jesu Christi Regis",
                "Our Lord Jesus Christ the King",
                CelebrationRank::ClassI,
                CelebrationCategory::FeastOfLord,
                LiturgicalColor::White,
                4,
            ),
        );
    }
    if contains_date(&mf.ember_days, &date) {
        let mut id = String::from_str("ember-");
        id.append(date.format_month_day().as_str());
        let mut title_en = String::from_str("Ember ");
        title_en.append(date.weekday().long_name());
        return Some(
            Celebration::new(
                id.as_str(),
                "Feria Quatuor Temporum",
                title_en.as_str(),
                CelebrationRank::FeriaPrivileged,
                CelebrationCategory::EmberDay,
                LiturgicalColor::Violet,
                8,
            ),
        );
    }
    if contains_date(&mf.rogation_days, &date) {
        let mut id = String::from_str("rogation-");
        id.append(date.format_month_day().as_str());
        let mut title_en = String::from_str("Rogation ");
        title_en.append(date.weekday().long_name());
        return Some(
            Celebration::new(
                id.as_str(),
                "Feria Rogationum",
                title_en.as_str(),
                CelebrationRank::ClassIV,
                CelebrationCategory::RogationDay,
                LiturgicalColor::Violet,
                11,
            ),
        );
    }
    // The last Sunday after Pentecost, the Sunday before Advent

    if date.weekday() == Weekday::Sun && mf.pentecost.plus_days(7).is_on_or_before(&date)
        && date.is_before(&mf.advent_1) && mf.advent_1.is_on_or_before(&date.plus_days(7)) {
        return Some(
            Celebration::new(
                "last-sunday-after-pentecost",
                "Dominica Ultima post Pentecosten",
                "Last Sunday after Pentecost",
                CelebrationRank::ClassI,
                CelebrationCategory::Sunday,
                LiturgicalColor::Green,
                2,
            ),
        );
    }
    // Septuagesima, Sexagesima and Quinquagesima

    if date.is_on(&mf.septuagesima) {
        return Some(Celebration::sunday(LiturgicalSeason::Septuagesima, 1));
    }
    if date.is_on(&mf.septuagesima.plus_days(7)) {
        return Some(Celebration::sunday(LiturgicalSeason::Septuagesima, 2));
    }
    if date.is_on(&mf.septuagesima.plus_days(14)) {
        return Some(Celebration::sunday(LiturgicalSeason::Septuagesima, 3));
    }
    if date.is_on(&mf.passion_sunday) {
        return Some(Celebration::sunday(LiturgicalSeason::Passiontide, 1));
    }
    None
}

/// The season and week of a day of the given year.
pub fn classify_season(date: Date, year: i32, mf: &MoveableFeasts) -> (r: TemporalEntry)
    requires
        date.valid(),
        MIN_YEAR <= year <= MAX_YEAR,
        in_year(date.day_number(), year as int),
        mf.is_for(year as int),
    ensures
        r == season_entry(date.day_number(), year as int),
{
    proof {
        lemma_seasons_tile_year(year as int);
        assert forall|n: int| in_year(n, year as int) implies day_in_range(n) by {
            lemma_day_of_year_in_range(year as int, n);
        }
    }
    let epiphany = Date::from_ymd_opt(year, 1, 6).unwrap();
    let christmas = Date::from_ymd_opt(year, 12, 25).unwrap();

    if date.is_before(&epiphany) {
        // Christmastide, begun in the year before
        TemporalEntry { season: LiturgicalSeason::Christmas, week: 1 }
    } else if epiphany.is_on_or_before(&date) && date.is_before(&mf.septuagesima) {
        let weeks_after_epiphany: u8 = (date.days_since(&epiphany) / 7) as u8;
        TemporalEntry { season: LiturgicalSeason::AfterEpiphany, week: weeks_after_epiphany + 1 }
    } else if mf.septuagesima.is_on_or_before(&date) && date.is_before(&mf.ash_wednesday) {
        let weeks: u8 = (date.days_since(&mf.septuagesima) / 7) as u8;
        TemporalEntry { season: LiturgicalSeason::Septuagesima, week: weeks + 1 }
    } else if mf.ash_wednesday.is_on_or_before(&date) && date.is_before(&mf.passion_sunday) {
        // From Ash Wednesday to the Saturday after it the week is 0; the
        // first Sunday of Lent begins week 1.
        let first_sunday_of_lent = mf.ash_wednesday.plus_days(4);
        if date.is_before(&first_sunday_of_lent) {
            TemporalEntry { season: LiturgicalSeason::Lent, week: 0 }
        } else {
            let weeks: u8 = (date.days_since(&first_sunday_of_lent) / 7) as u8;
            TemporalEntry { season: LiturgicalSeason::Lent, week: weeks + 1 }
        }
    } else if mf.passion_sunday.is_on_or_before(&date) && date.is_before(&mf.palm_sunday) {
        TemporalEntry { season: LiturgicalSeason::Passiontide, week: 1 }
    } else if mf.palm_sunday.is_on_or_before(&date) && date.is_before(&mf.easter) {
        TemporalEntry { season: LiturgicalSeason::HolyWeek, week: 1 }
    } else if mf.easter.is_on_or_before(&date) && date.is_before(&mf.ascension) {
        let weeks: u8 = (date.days_since(&mf.easter) / 7) as u8;
        TemporalEntry { season: LiturgicalSeason::Easter, week: weeks + 1 }
    } else if mf.ascension.is_on_or_before(&date) && date.is_on_or_before(&mf.pentecost) {
        TemporalEntry { season: LiturgicalSeason::Ascensiontide, week: 1 }
    } else if mf.pentecost.is_before(&date) && date.is_before(&mf.advent_1) {
        let weeks: u8 = (date.days_since(&mf.pentecost) / 7) as u8;
        TemporalEntry { season: LiturgicalSeason::AfterPentecost, week: weeks + 1 }
    } else if mf.advent_1.is_on_or_before(&date) && date.is_before(&christmas) {
        let weeks: u8 = (date.days_since(&mf.advent_1) / 7) as u8;
        TemporalEntry { season: LiturgicalSeason::Advent, week: weeks + 1 }
    } else {
        // Christmastide, from 25 December
        TemporalEntry { season: LiturgicalSeason::Christmas, week: 1 }
    }
}

/// The season and week of a day of the given year, and the celebration
/// proper to it, if it has one.
pub fn classify_date(date: Date, year: i32, mf: &MoveableFeasts) -> (r: (
    TemporalEntry,
    Option<Celebration>,
))
    requires
        date.valid(),
        MIN_YEAR <= year <= MAX_YEAR,
        in_year(date.day_number(), year as int),
        mf.is_for(year as int),
    ensures
        r.0 == season_entry(date.day_number(), year as int),
        celebration_view_of(r.1) == special_view(date, year as int),
{
    let special = classify_special(date, year, mf);
    let entry = classify_season(date, year, mf);
    (entry, special)
}

/// Whether `day` is the day of the temporal cycle of the given year that
/// stands at place `i`, counted from 0 for 1 January.
pub open spec fn is_temporal_day(day: TemporalDay, year: int, i: int) -> bool {
    &&& day.date.valid()
    &&& day.date.day_number() == first_day_of_year(year) + i
    &&& day.entry == season_entry(day.date.day_number(), year)
    &&& celebration_view_of(day.special) == special_view(day.date, year)
}

/// Whether `cycle` is the temporal cycle of the given year: one entry for
/// every day of the year, from 1 January to 31 December, with no day left
/// out and none twice.
pub open spec fn is_temporal_cycle(cycle: Seq<TemporalDay>, year: int) -> bool {
    &&& cycle.len() == days_in_year(year)
    &&& forall|i: int| 0 <= i < cycle.len() ==> is_temporal_day(#[trigger] cycle[i], year, i)
}

/// The temporal cycle of the given year: for every day of the year, in
/// order, its season and week and the celebration proper to it.
pub fn build_temporal_cycle(year: i32) -> (r: Vec<TemporalDay>)
    requires
        MIN_YEAR <= year <= MAX_YEAR,
    ensures
        is_temporal_cycle(r@, year as int),
        r@.len() == 365 || r@.len() == 366,
{
    let mf = moveable_feasts(year);
    let mut cycle: Vec<TemporalDay> = Vec::new();

    let jan1 = Date::from_ymd_opt(year, 1, 1).unwrap();
    let dec31 = Date::from_ymd_opt(year, 12, 31).unwrap();
    let length: i64 = dec31.days_since(&jan1) + 1;
    proof {
        assert forall|n: int| in_year(n, year as int) implies day_in_range(n) by {
            lemma_day_of_year_in_range(year as int, n);
        }
    }

    let mut i: i64 = 0;
    while i < length
        invariant
            0 <= i <= length,
            length == days_in_year(year as int),
            MIN_YEAR <= year <= MAX_YEAR,
            mf.is_for(year as int),
            jan1.valid(),
            jan1.day_number() == first_day_of_year(year as int),
            forall|n: int| in_year(n, year as int) ==> day_in_range(n),
            cycle@.len() == i,
            forall|j: int| 0 <= j < i ==> is_temporal_day(#[trigger] cycle@[j], year as int, j),
        decreases length - i,
    {
        let date = jan1.plus_days(i);
        let (entry, special) = classify_date(date, year, &mf);
        cycle.push(TemporalDay { date, entry, special });
        i += 1;
    }
    cycle
}

} // verus!
