//! The vocabulary of the calendar: seasons, ranks, colours, celebrations and
//! the record kept for each day.

use crate::date::{Date, Weekday};
use crate::text::{decimal_string, decimal_text};
use vstd::prelude::*;

verus! {

/// The set of rubrics a calendar follows.
#[derive(Clone, Copy, Debug, PartialEq, Eq, Structural, Hash)]
pub enum RubricalSystem {
    Rubrics1962,
    Rubrics1955,
    PrePius,
}

impl Default for RubricalSystem {
    fn default() -> (r: Self)
        ensures
            r == RubricalSystem::Rubrics1962,
    {
        RubricalSystem::Rubrics1962
    }
}

/// The seasons of the liturgical year.
#[derive(Clone, Copy, Debug, PartialEq, Eq, Structural, Hash)]
pub enum LiturgicalSeason {
    Advent,
    Christmas,
    AfterEpiphany,
    Septuagesima,
    Lent,
    Passiontide,
    HolyWeek,
    Easter,
    Ascensiontide,
    AfterPentecost,
}

/// The rank of a celebration.
#[derive(Clone, Copy, Debug, PartialEq, Eq, Structural, PartialOrd, Ord, Hash)]
pub enum CelebrationRank {
    ClassI,
    ClassII,
    ClassIII,
    ClassIV,
    Feria,
    FeriaPrivileged,
}

impl CelebrationRank {
    /// The place of the rank in the order of precedence: 1 for the highest.
    /// A privileged feria stands between the third and the fourth class.
    pub open spec fn value(self) -> int {
        match self {
            CelebrationRank::ClassI => 1,
            CelebrationRank::ClassII => 2,
            CelebrationRank::ClassIII => 3,
            CelebrationRank::FeriaPrivileged => 4,
            CelebrationRank::ClassIV => 5,
            CelebrationRank::Feria => 6,
        }
    }

    /// The place of the rank in the order of precedence: 1 for the highest.
    pub fn precedence_value(&self) -> (r: u8)
        ensures
            r == self.value(),
    {
        match self {
            CelebrationRank::ClassI => 1,
            CelebrationRank::ClassII => 2,
            CelebrationRank::ClassIII => 3,
            CelebrationRank::FeriaPrivileged => 4,
            CelebrationRank::ClassIV => 5,
            CelebrationRank::Feria => 6,
        }
    }
}

/// The kind of a celebration.
#[derive(Clone, Copy, Debug, PartialEq, Eq, Structural, Hash)]
pub enum CelebrationCategory {
    FeastOfLord,
    Solemnity,
    Feast,
    Memorial,
    OptionalMemorial,
    Feria,
    Vigil,
    WithinOctave,
    OctaveDay,
    RogationDay,
    EmberDay,
    Sunday,
}

/// The colour of the vestments.
#[derive(Clone, Copy, Debug, PartialEq, Eq, Structural, Hash)]
pub enum LiturgicalColor {
    White,
    Red,
    Green,
    Violet,
    Rose,
    Black,
    Gold,
}

/// The name of a season as it stands in identifiers.
pub open spec fn season_id_text(s: LiturgicalSeason) -> Seq<char> {
    match s {
        LiturgicalSeason::Advent => "advent"@,
        LiturgicalSeason::Christmas => "christmas"@,
        LiturgicalSeason::AfterEpiphany => "after-epiphany"@,
        LiturgicalSeason::Septuagesima => "septuagesima"@,
        LiturgicalSeason::Lent => "lent"@,
        LiturgicalSeason::Passiontide => "passiontide"@,
        LiturgicalSeason::HolyWeek => "holy-week"@,
        LiturgicalSeason::Easter => "easter"@,
        LiturgicalSeason::Ascensiontide => "ascensiontide"@,
        LiturgicalSeason::AfterPentecost => "after-pentecost"@,
    }
}

/// The name of a season as it stands in titles.
pub open spec fn season_name_text(s: LiturgicalSeason) -> Seq<char> {
    match s {
        LiturgicalSeason::Advent => "Advent"@,
        LiturgicalSeason::Christmas => "Christmas"@,
        LiturgicalSeason::AfterEpiphany => "the Time after Epiphany"@,
        LiturgicalSeason::Septuagesima => "Septuagesima"@,
        LiturgicalSeason::Lent => "Lent"@,
        LiturgicalSeason::Passiontide => "Passiontide"@,
        LiturgicalSeason::HolyWeek => "Holy Week"@,
        LiturgicalSeason::Easter => "Easter"@,
        LiturgicalSeason::Ascensiontide => "Ascensiontide"@,
        LiturgicalSeason::AfterPentecost => "the Time after Pentecost"@,
    }
}

/// The name of a season as it is shown to readers.
pub open spec fn season_display_text(s: LiturgicalSeason) -> Seq<char> {
    match s {
        LiturgicalSeason::Advent => "Advent"@,
        LiturgicalSeason::Christmas => "Christmastide"@,
        LiturgicalSeason::AfterEpiphany => "Time after Epiphany"@,
        LiturgicalSeason::Septuagesima => "Septuagesima"@,
        LiturgicalSeason::Lent => "Lent"@,
        LiturgicalSeason::Passiontide => "Passiontide"@,
        LiturgicalSeason::HolyWeek => "Holy Week"@,
        LiturgicalSeason::Easter => "Eastertide"@,
        LiturgicalSeason::Ascensiontide => "Ascensiontide"@,
        LiturgicalSeason::AfterPentecost => "Time after Pentecost"@,
    }
}

/// A number with its English ordinal ending: `1st`, `2nd`, `3rd`, `4th`.
/// Every number but one, two and three takes `th`.
pub open spec fn ordinal_text(n: u8) -> Seq<char> {
    if n == 1 {
        "1st"@
    } else if n == 2 {
        "2nd"@
    } else if n == 3 {
        "3rd"@
    } else {
        decimal_text(n as nat) + "th"@
    }
}

/// The name of a season as it stands in identifiers.
pub fn season_id(s: LiturgicalSeason) -> (r: &'static str)
    ensures
        r@ == season_id_text(s),
{
    match s {
        LiturgicalSeason::Advent => "advent",
        LiturgicalSeason::Christmas => "christmas",
        LiturgicalSeason::AfterEpiphany => "after-epiphany",
        LiturgicalSeason::Septuagesima => "septuagesima",
        LiturgicalSeason::Lent => "lent",
        LiturgicalSeason::Passiontide => "passiontide",
        LiturgicalSeason::HolyWeek => "holy-week",
        LiturgicalSeason::Easter => "easter",
        LiturgicalSeason::Ascensiontide => "ascensiontide",
        LiturgicalSeason::AfterPentecost => "after-pentecost",
    }
}

/// The name of a season as it stands in titles.
pub fn season_name(s: LiturgicalSeason) -> (r: &'static str)
    ensures
        r@ == season_name_text(s),
{
    match s {
        LiturgicalSeason::Advent => "Advent",
        LiturgicalSeason::Christmas => "Christmas",
        LiturgicalSeason::AfterEpiphany => "the Time after Epiphany",
        LiturgicalSeason::Septuagesima => "Septuagesima",
        LiturgicalSeason::Lent => "Lent",
        LiturgicalSeason::Passiontide => "Passiontide",
        LiturgicalSeason::HolyWeek => "Holy Week",
        LiturgicalSeason::Easter => "Easter",
        LiturgicalSeason::Ascensiontide => "Ascensiontide",
        LiturgicalSeason::AfterPentecost => "the Time after Pentecost",
    }
}

/// The name of a season as it is shown to readers.
pub fn season_display_name(s: LiturgicalSeason) -> (r: &'static str)
    ensures
        r@ == season_display_text(s),
{
    match s {
        LiturgicalSeason::Advent => "Advent",
        LiturgicalSeason::Christmas => "Christmastide",
        LiturgicalSeason::AfterEpiphany => "Time after Epiphany",
        LiturgicalSeason::Septuagesima => "Septuagesima",
        LiturgicalSeason::Lent => "Lent",
        LiturgicalSeason::Passiontide => "Passiontide",
        LiturgicalSeason::HolyWeek => "Holy Week",
        LiturgicalSeason::Easter => "Eastertide",
        LiturgicalSeason::Ascensiontide => "Ascensiontide",
        LiturgicalSeason::AfterPentecost => "Time after Pentecost",
    }
}

/// A number with its English ordinal ending.
pub fn ordinal(n: u8) -> (r: String)
    ensures
        r@ == ordinal_text(n),
{
    if n == 1 {
        String::from_str("1st")
    } else if n == 2 {
        String::from_str("2nd")
    } else if n == 3 {
        String::from_str("3rd")
    } else {
        let mut s = decimal_string(n);
        s.append("th");
        s
    }
}

/// A celebration: a feast, a Sunday, a feria or another day of the calendar.
#[derive(Debug, PartialEq, Eq)]
pub struct Celebration {
    pub id: String,
    pub title: String,
    pub title_vernacular: Option<String>,
    pub rank: CelebrationRank,
    pub category: CelebrationCategory,
    pub color: LiturgicalColor,
    /// Place in the table of precedence, 1 to 11; the lower number wins.
    pub precedence: u8,
}

/// What a [`Celebration`] holds, with its texts as sequences of characters.
pub struct CelebrationView {
    pub id: Seq<char>,
    pub title: Seq<char>,
    pub title_vernacular: Option<Seq<char>>,
    pub rank: CelebrationRank,
    pub category: CelebrationCategory,
    pub color: LiturgicalColor,
    pub precedence: u8,
}

/// The text held by an optional string.
pub open spec fn text_of(s: Option<String>) -> Option<Seq<char>> {
    match s {
        Some(t) => Some(t@),
        None => None,
    }
}

impl View for Celebration {
    type V = CelebrationView;

    open spec fn view(&self) -> CelebrationView {
        CelebrationView {
            id: self.id@,
            title: self.title@,
            title_vernacular: text_of(self.title_vernacular),
            rank: self.rank,
            category: self.category,
            color: self.color,
            precedence: self.precedence,
        }
    }
}

/// The views of a sequence of celebrations, in order.
pub open spec fn celebration_views(s: Seq<Celebration>) -> Seq<CelebrationView> {
    s.map_values(|c: Celebration| c@)
}

/// The view of an optional celebration.
pub open spec fn celebration_view_of(c: Option<Celebration>) -> Option<CelebrationView> {
    match c {
        Some(x) => Some(x@),
        None => None,
    }
}

/// A copy of an optional string.
pub fn clone_text(s: &Option<String>) -> (r: Option<String>)
    ensures
        text_of(r) == text_of(*s),
{
    match s {
        Some(t) => Some(t.clone()),
        None => None,
    }
}

impl Clone for Celebration {
    fn clone(&self) -> (r: Self)
        ensures
            r@ == self@,
    {
        Celebration {
            id: self.id.clone(),
            title: self.title.clone(),
            title_vernacular: clone_text(&self.title_vernacular),
            rank: self.rank,
            category: self.category,
            color: self.color,
            precedence: self.precedence,
        }
    }
}

/// Colour, rank and precedence of a feria of the given season.
pub open spec fn feria_grade(season: LiturgicalSeason) -> (LiturgicalColor, CelebrationRank, u8) {
    match season {
        LiturgicalSeason::Advent | LiturgicalSeason::Lent | LiturgicalSeason::Passiontide => (
            LiturgicalColor::Violet,
            CelebrationRank::FeriaPrivileged,
            8u8,
        ),
        LiturgicalSeason::HolyWeek => (LiturgicalColor::Violet, CelebrationRank::ClassI, 3u8),
        LiturgicalSeason::Christmas | LiturgicalSeason::AfterEpiphany | LiturgicalSeason::Easter
        | LiturgicalSeason::Ascensiontide => (LiturgicalColor::White, CelebrationRank::Feria, 11u8),
        LiturgicalSeason::Septuagesima => (LiturgicalColor::Violet, CelebrationRank::Feria, 11u8),
        LiturgicalSeason::AfterPentecost => (LiturgicalColor::Green, CelebrationRank::Feria, 11u8),
    }
}

/// Colour, rank and precedence of the Sunday of the given week of a season.
///
/// The first Sundays of Advent and of Lent, Passion Sunday and Palm Sunday
/// are of the first class with precedence 2; the other Sundays of Advent and
/// Lent are of the first class with precedence 6, rose on the third of Advent
/// and the fourth of Lent; the first Sunday of Easter has precedence 1; all
/// other Sundays are of the second class with precedence 6.
pub open spec fn sunday_grade(season: LiturgicalSeason, week: u8) -> (
    LiturgicalColor,
    CelebrationRank,
    u8,
) {
    match season {
        LiturgicalSeason::Advent => if week == 1 {
            (LiturgicalColor::Violet, CelebrationRank::ClassI, 2u8)
        } else if week == 3 {
            (LiturgicalColor::Rose, CelebrationRank::ClassI, 6u8)
        } else {
            (LiturgicalColor::Violet, CelebrationRank::ClassI, 6u8)
        },
        LiturgicalSeason::Lent => if week == 1 {
            (LiturgicalColor::Violet, CelebrationRank::ClassI, 2u8)
        } else if week == 4 {
            (LiturgicalColor::Rose, CelebrationRank::ClassI, 6u8)
        } else {
            (LiturgicalColor::Violet, CelebrationRank::ClassI, 6u8)
        },
        LiturgicalSeason::Passiontide | LiturgicalSeason::HolyWeek => (
            LiturgicalColor::Violet,
            CelebrationRank::ClassI,
            2u8,
        ),
        LiturgicalSeason::Easter => if week == 1 {
            (LiturgicalColor::White, CelebrationRank::ClassI, 1u8)
        } else {
            (LiturgicalColor::White, CelebrationRank::ClassII, 6u8)
        },
        LiturgicalSeason::Christmas | LiturgicalSeason::AfterEpiphany
        | LiturgicalSeason::Ascensiontide => (
            LiturgicalColor::White,
            CelebrationRank::ClassII,
            6u8,
        ),
        LiturgicalSeason::Septuagesima => (LiturgicalColor::Violet, CelebrationRank::ClassII, 6u8),
        LiturgicalSeason::AfterPentecost => (LiturgicalColor::Green, CelebrationRank::ClassII, 6u8),
    }
}

/// The identifier of a feria: `feria-`, the season, `-week-`, the week, a
/// hyphen and the weekday in lower case.
pub open spec fn feria_id_text(season: LiturgicalSeason, week: u8, day: Weekday) -> Seq<char> {
    "feria-"@ + season_id_text(season) + "-week-"@ + decimal_text(week as nat) + "-"@
        + day.lower_name_text()
}

/// The title of a feria.
pub open spec fn feria_title_text(season: LiturgicalSeason, week: u8, day: Weekday) -> Seq<char> {
    "Feria "@ + day.short_name_text() + " of "@ + season_name_text(season) + " Week "@
        + decimal_text(week as nat)
}

/// The identifier of a Sunday: `sunday-`, the season, a hyphen and the week.
pub open spec fn sunday_id_text(season: LiturgicalSeason, week: u8) -> Seq<char> {
    "sunday-"@ + season_id_text(season) + "-"@ + decimal_text(week as nat)
}

/// The title of a Sunday.
pub open spec fn sunday_title_text(season: LiturgicalSeason, week: u8) -> Seq<char> {
    ordinal_text(week) + " Sunday of "@ + season_name_text(season)
}

/// The celebration with the given identifier, Latin title, vernacular
/// title, rank, category, colour and precedence.
pub open spec fn celebration_of(
    id: Seq<char>,
    title: Seq<char>,
    title_en: Seq<char>,
    rank: CelebrationRank,
    category: CelebrationCategory,
    color: LiturgicalColor,
    precedence: u8,
) -> CelebrationView {
    CelebrationView {
        id,
        title,
        title_vernacular: Some(title_en),
        rank,
        category,
        color,
        precedence,
    }
}

/// The celebration of an ordinary weekday of a season.
pub open spec fn feria_view(season: LiturgicalSeason, week: u8, day: Weekday) -> CelebrationView {
    CelebrationView {
        id: feria_id_text(season, week, day),
        title: feria_title_text(season, week, day),
        title_vernacular: Some(feria_title_text(season, week, day)),
        rank: feria_grade(season).1,
        category: CelebrationCategory::Feria,
        color: feria_grade(season).0,
        precedence: feria_grade(season).2,
    }
}

/// The celebration of an ordinary Sunday of a season.
pub open spec fn sunday_view(season: LiturgicalSeason, week: u8) -> CelebrationView {
    CelebrationView {
        id: sunday_id_text(season, week),
        title: sunday_title_text(season, week),
        title_vernacular: Some(sunday_title_text(season, week)),
        rank: sunday_grade(season, week).1,
        category: CelebrationCategory::Sunday,
        color: sunday_grade(season, week).0,
        precedence: sunday_grade(season, week).2,
    }
}

impl Celebration {
    /// A celebration with the given identifier, Latin title, vernacular
    /// title, rank, category, colour and precedence.
    pub fn new(
        id: &str,
        title: &str,
        title_en: &str,
        rank: CelebrationRank,
        category: CelebrationCategory,
        color: LiturgicalColor,
        precedence: u8,
    ) -> (r: Celebration)
        ensures
            r@ == celebration_of(id@, title@, title_en@, rank, category, color, precedence),
    {
        Celebration {
            id: String::from_str(id),
            title: String::from_str(title),
            title_vernacular: Some(String::from_str(title_en)),
            rank,
            category,
            color,
            precedence,
        }
    }

    /// The celebration of an ordinary weekday in the given week of a season.
    pub fn feria(season: LiturgicalSeason, week: u8, day: Weekday) -> (r: Celebration)
        ensures
            r@ == feria_view(season, week, day),
    {
        let (color, rank, precedence): (LiturgicalColor, CelebrationRank, u8) = match season {
            LiturgicalSeason::Advent => (
                LiturgicalColor::Violet,
                CelebrationRank::FeriaPrivileged,
                8,
            ),
            LiturgicalSeason::Lent | LiturgicalSeason::Passiontide => (
                LiturgicalColor::Violet,
                CelebrationRank::FeriaPrivileged,
                8,
            ),
            LiturgicalSeason::HolyWeek => (LiturgicalColor::Violet, CelebrationRank::ClassI, 3),
            LiturgicalSeason::Christmas | LiturgicalSeason::AfterEpiphany => (
                LiturgicalColor::White,
                CelebrationRank::Feria,
                11,
            ),
            LiturgicalSeason::Septuagesima => (LiturgicalColor::Violet, CelebrationRank::Feria, 11),
            LiturgicalSeason::Easter | LiturgicalSeason::Ascensiontide => (
                LiturgicalColor::White,
                CelebrationRank::Feria,
                11,
            ),
            LiturgicalSeason::AfterPentecost => (
                LiturgicalColor::Green,
                CelebrationRank::Feria,
                11,
            ),
        };
        let number = decimal_string(week);
        let mut id = String::from_str("feria-");
        id.append(season_id(season));
        id.append("-week-");
        id.append(number.as_str());
        id.append("-");
        id.append(day.lower_name());
        let mut title = String::from_str("Feria ");
        title.append(day.short_name());
        title.append(" of ");
        title.append(season_name(season));
        title.append(" Week ");
        title.append(number.as_str());
        let vernacular = title.clone();
        Celebration {
            id,
            title,
            title_vernacular: Some(vernacular),
            rank,
            category: CelebrationCategory::Feria,
            color,
            precedence,
        }
    }

    /// The celebration of an ordinary Sunday in the given week of a season.
    pub fn sunday(season: LiturgicalSeason, week: u8) -> (r: Celebration)
        ensures
            r@ == sunday_view(season, week),
    {
        let (color, rank, precedence): (LiturgicalColor, CelebrationRank, u8) = match season {
            LiturgicalSeason::Advent => {
                if week == 1 {
                    (LiturgicalColor::Violet, CelebrationRank::ClassI, 2)
                } else if week == 3 {
                    (LiturgicalColor::Rose, CelebrationRank::ClassI, 6)
                } else {
                    (LiturgicalColor::Violet, CelebrationRank::ClassI, 6)
                }
            },
            LiturgicalSeason::Christmas | LiturgicalSeason::AfterEpiphany => (
                LiturgicalColor::White,
                CelebrationRank::ClassII,
                6,
            ),
            LiturgicalSeason::Septuagesima => (
                LiturgicalColor::Violet,
                CelebrationRank::ClassII,
                6,
            ),
            LiturgicalSeason::Lent => {
                if week == 1 {
                    (LiturgicalColor::Violet, CelebrationRank::ClassI, 2)
                } else if week == 4 {
                    (LiturgicalColor::Rose, CelebrationRank::ClassI, 6)
                } else {
                    (LiturgicalColor::Violet, CelebrationRank::ClassI, 6)
                }
            },
            LiturgicalSeason::Passiontide => (LiturgicalColor::Violet, CelebrationRank::ClassI, 2),
            LiturgicalSeason::HolyWeek => (LiturgicalColor::Violet, CelebrationRank::ClassI, 2),
            LiturgicalSeason::Easter => {
                if week == 1 {
                    (LiturgicalColor::White, CelebrationRank::ClassI, 1)
                } else {
                    (LiturgicalColor::White, CelebrationRank::ClassII, 6)
                }
            },
            LiturgicalSeason::Ascensiontide => (
                LiturgicalColor::White,
                CelebrationRank::ClassII,
                6,
            ),
            LiturgicalSeason::AfterPentecost => (
                LiturgicalColor::Green,
                CelebrationRank::ClassII,
                6,
            ),
        };
        let number = decimal_string(week);
        let mut id = String::from_str("sunday-");
        id.append(season_id(season));
        id.append("-");
        id.append(number.as_str());
        let mut title = ordinal(week);
        title.append(" Sunday of ");
        title.append(season_name(season));
        let vernacular = title.clone();
        Celebration {
            id,
            title,
            title_vernacular: Some(vernacular),
            rank,
            category: CelebrationCategory::Sunday,
            color,
            precedence,
        }
    }
}

/// References to the readings of a day.
#[derive(Clone, Debug, PartialEq, Eq)]
pub struct Readings {
    pub epistle: Option<String>,
    pub gospel: Option<String>,
    pub old_testament: Option<String>,
    pub gradual: Option<String>,
}

/// What a [`Readings`] holds, with its texts as sequences of characters.
pub struct ReadingsView {
    pub epistle: Option<Seq<char>>,
    pub gospel: Option<Seq<char>>,
    pub old_testament: Option<Seq<char>>,
    pub gradual: Option<Seq<char>>,
}

impl View for Readings {
    type V = ReadingsView;

    open spec fn view(&self) -> ReadingsView {
        ReadingsView {
            epistle: text_of(self.epistle),
            gospel: text_of(self.gospel),
            old_testament: text_of(self.old_testament),
            gradual: text_of(self.gradual),
        }
    }
}

/// The view of optional readings.
pub open spec fn readings_view_of(r: Option<Readings>) -> Option<ReadingsView> {
    match r {
        Some(x) => Some(x@),
        None => None,
    }
}

/// One day of the calendar with all that is kept on it.
#[derive(Clone, Debug, PartialEq, Eq)]
pub struct LiturgicalDay {
    pub date: Date,
    pub season: LiturgicalSeason,
    pub week: u8,
    pub day_of_week: String,
    pub celebration: Celebration,
    pub commemorations: Vec<Celebration>,
    pub color: LiturgicalColor,
    pub readings: Option<Readings>,
    pub notes: Option<String>,
}

/// What a [`LiturgicalDay`] holds, with its texts as sequences of characters.
pub struct LiturgicalDayView {
    pub date: Date,
    pub season: LiturgicalSeason,
    pub week: u8,
    pub day_of_week: Seq<char>,
    pub celebration: CelebrationView,
    pub commemorations: Seq<CelebrationView>,
    pub color: LiturgicalColor,
    pub readings: Option<ReadingsView>,
    pub notes: Option<Seq<char>>,
}

impl View for LiturgicalDay {
    type V = LiturgicalDayView;

    open spec fn view(&self) -> LiturgicalDayView {
        LiturgicalDayView {
            date: self.date,
            season: self.season,
            week: self.week,
            day_of_week: self.day_of_week@,
            celebration: self.celebration@,
            commemorations: celebration_views(self.commemorations@),
            color: self.color,
            readings: readings_view_of(self.readings),
            notes: text_of(self.notes),
        }
    }
}

/// The dates of the moveable feasts of one year.
#[derive(Clone, Debug)]
pub struct MoveableFeasts {
    pub easter: Date,
    pub septuagesima: Date,
    pub ash_wednesday: Date,
    pub passion_sunday: Date,
    pub palm_sunday: Date,
    pub holy_thursday: Date,
    pub good_friday: Date,
    pub holy_saturday: Date,
    pub ascension: Date,
    pub pentecost: Date,
    pub corpus_christi: Date,
    pub sacred_heart: Date,
    pub christ_the_king: Date,
    pub advent_1: Date,
    /// The twelve Ember days, in the order of the year.
    pub ember_days: Vec<Date>,
    /// The three Rogation days, in the order of the year.
    pub rogation_days: Vec<Date>,
}

} // verus!
