use liturgical_calendar::computus::{easter, moveable_feasts};
use liturgical_calendar::precedence::resolve_precedence;
use liturgical_calendar::readings::{get_notes, get_readings};
use liturgical_calendar::sanctoral::{build_sanctoral_cycle, find_sunday_between, fixed};
use liturgical_calendar::temporal::{build_temporal_cycle, classify_date, classify_special};
use liturgical_calendar::text::{decimal_string, digit_str};
use liturgical_calendar::types::{ordinal, season_display_name, season_id, season_name};
use liturgical_calendar::{
    version, Calendar, Celebration, CelebrationCategory, CelebrationRank, Date, LiturgicalColor,
    LiturgicalSeason, RubricalSystem, Weekday,
};

fn date(y: i32, m: u32, d: u32) -> Date {
    Date::from_ymd_opt(y, m, d).unwrap()
}

// The year 2026, feast by feast

#[test]
fn year_2026_easter_sunday() {
    let cal = Calendar::new(2026);
    let day = cal.get(date(2026, 4, 5)).unwrap();
    assert_eq!(day.date, date(2026, 4, 5));
    assert_eq!(day.celebration.id, "easter-sunday");
    assert_eq!(day.celebration.title, "Dominica Resurrectionis");
    assert_eq!(day.celebration.title_vernacular.as_deref(), Some("Easter Sunday"));
    assert_eq!(day.color, LiturgicalColor::White);
    assert_eq!(day.day_of_week, "Sun");
    assert_eq!(day.season, LiturgicalSeason::Easter);
    assert_eq!(day.week, 1);
}

#[test]
fn year_2026_ash_wednesday() {
    let cal = Calendar::new(2026);
    let day = cal.get(date(2026, 2, 18)).unwrap();
    assert_eq!(day.celebration.id, "ash-wednesday");
    assert_eq!(day.color, LiturgicalColor::Violet);
    assert_eq!(day.season, LiturgicalSeason::Lent);
    assert_eq!(day.week, 0);
    assert_eq!(day.day_of_week, "Wed");
}

#[test]
fn year_2026_pentecost() {
    let cal = Calendar::new(2026);
    let day = cal.get(date(2026, 5, 24)).unwrap();
    assert_eq!(day.celebration.id, "pentecost");
    assert_eq!(day.color, LiturgicalColor::Red);
    assert_eq!(day.season, LiturgicalSeason::Ascensiontide);
}

#[test]
fn year_2026_christ_the_king() {
    let mf = moveable_feasts(2026);
    assert_eq!(mf.christ_the_king, date(2026, 10, 25));
    let cal = Calendar::new(2026);
    let day = cal.get(date(2026, 10, 25)).unwrap();
    assert_eq!(day.celebration.id, "christ-the-king");
    assert_eq!(day.celebration.rank, CelebrationRank::ClassI);
}

#[test]
fn year_2026_christmas() {
    let cal = Calendar::new(2026);
    let day = cal.get(date(2026, 12, 25)).unwrap();
    assert_eq!(day.celebration.id, "christmas");
    assert_eq!(day.celebration.precedence, 1);
    assert_eq!(day.color, LiturgicalColor::White);
    assert_eq!(day.day_of_week, "Fri");
    // The feria of Christmastide gives way and is not commemorated
    assert!(day.commemorations.is_empty());
}

#[test]
fn year_2026_rogation_days() {
    let mf = moveable_feasts(2026);
    assert_eq!(mf.ascension, date(2026, 5, 14));
    assert_eq!(mf.rogation_days, vec![date(2026, 5, 11), date(2026, 5, 12), date(2026, 5, 13)]);
    assert_eq!(mf.rogation_days[0].weekday(), Weekday::Mon);
    assert_eq!(mf.rogation_days[1].weekday(), Weekday::Tue);
    assert_eq!(mf.rogation_days[2].weekday(), Weekday::Wed);
}

#[test]
fn moveable_feasts_2026_all_dates() {
    let mf = moveable_feasts(2026);
    assert_eq!(mf.easter, date(2026, 4, 5));
    assert_eq!(mf.septuagesima, date(2026, 2, 1));
    assert_eq!(mf.ash_wednesday, date(2026, 2, 18));
    assert_eq!(mf.passion_sunday, date(2026, 3, 22));
    assert_eq!(mf.palm_sunday, date(2026, 3, 29));
    assert_eq!(mf.holy_thursday, date(2026, 4, 2));
    assert_eq!(mf.good_friday, date(2026, 4, 3));
    assert_eq!(mf.holy_saturday, date(2026, 4, 4));
    assert_eq!(mf.ascension, date(2026, 5, 14));
    assert_eq!(mf.pentecost, date(2026, 5, 24));
    assert_eq!(mf.corpus_christi, date(2026, 6, 4));
    assert_eq!(mf.sacred_heart, date(2026, 6, 12));
    assert_eq!(mf.christ_the_king, date(2026, 10, 25));
    assert_eq!(mf.advent_1, date(2026, 11, 29));
    assert_eq!(
        mf.ember_days,
        vec![
            date(2026, 2, 25),
            date(2026, 2, 27),
            date(2026, 2, 28),
            date(2026, 5, 27),
            date(2026, 5, 29),
            date(2026, 5, 30),
            date(2026, 9, 23),
            date(2026, 9, 25),
            date(2026, 9, 26),
            date(2026, 12, 16),
            date(2026, 12, 18),
            date(2026, 12, 19),
        ]
    );
}

#[test]
fn advent_begins_on_the_sunday_nearest_to_saint_andrew() {
    // 30 November 2025 is a Sunday: Advent begins on that day
    assert_eq!(moveable_feasts(2025).advent_1, date(2025, 11, 30));
    // 30 November 2022 is a Wednesday: the Sunday before, 27 November
    assert_eq!(moveable_feasts(2022).advent_1, date(2022, 11, 27));
    // 30 November 2023 is a Thursday: the Sunday after, 3 December
    assert_eq!(moveable_feasts(2023).advent_1, date(2023, 12, 3));
}

#[test]
fn christ_the_king_on_31_october() {
    // 31 October 2021 is a Sunday
    assert_eq!(moveable_feasts(2021).christ_the_king, date(2021, 10, 31));
}

#[test]
fn september_ember_days_follow_the_third_sunday() {
    // 1 September 2024 is a Sunday: the third Sunday is 15 September
    let mf = moveable_feasts(2024);
    assert_eq!(mf.ember_days[6], date(2024, 9, 18));
    assert_eq!(mf.ember_days[7], date(2024, 9, 20));
    assert_eq!(mf.ember_days[8], date(2024, 9, 21));
}

#[test]
fn ember_days_are_wednesday_friday_and_saturday() {
    for year in 1990..=2060 {
        let mf = moveable_feasts(year);
        assert_eq!(mf.ember_days.len(), 12);
        for (place, day) in mf.ember_days.iter().enumerate() {
            let expected = match place % 3 {
                0 => Weekday::Wed,
                1 => Weekday::Fri,
                _ => Weekday::Sat,
            };
            assert_eq!(day.weekday(), expected);
        }
    }
}

// Easter

#[test]
fn easter_earliest_and_latest() {
    assert_eq!(easter(1818), date(1818, 3, 22));
    assert_eq!(easter(2285), date(2285, 3, 22));
    assert_eq!(easter(1943), date(1943, 4, 25));
    assert_eq!(easter(2038), date(2038, 4, 25));
}

#[test]
fn easter_when_the_moon_falls_latest() {
    // The two years in which the full moon falls so late that Easter is
    // brought back a week
    assert_eq!(easter(1954), date(1954, 4, 18));
    assert_eq!(easter(1981), date(1981, 4, 19));
}

#[test]
fn easter_is_a_sunday_in_range_far_from_now() {
    for year in [-262143, -5000, -401, -400, -1, 0, 1, 1582, 40000, 262142] {
        let e = easter(year);
        assert_eq!(e.weekday(), Weekday::Sun, "Easter {} not Sunday", year);
        assert_eq!(e.year(), year);
        assert!(
            (e.month() == 3 && e.day() >= 22) || (e.month() == 4 && e.day() <= 25),
            "Easter {} = {:?} out of range",
            year,
            e
        );
    }
}

#[test]
fn easter_is_a_sunday_four_centuries_on() {
    for year in 1600..=1700 {
        assert_eq!(easter(year).weekday(), Weekday::Sun);
        assert_eq!(easter(year + 400).weekday(), Weekday::Sun);
    }
}

// Dates

#[test]
fn dates_that_do_not_exist() {
    assert!(Date::from_ymd_opt(2025, 2, 29).is_none());
    assert!(Date::from_ymd_opt(2024, 2, 29).is_some());
    assert!(Date::from_ymd_opt(1900, 2, 29).is_none());
    assert!(Date::from_ymd_opt(2000, 2, 29).is_some());
    assert!(Date::from_ymd_opt(2026, 4, 31).is_none());
    assert!(Date::from_ymd_opt(2026, 0, 1).is_none());
    assert!(Date::from_ymd_opt(2026, 13, 1).is_none());
    assert!(Date::from_ymd_opt(2026, 1, 0).is_none());
    assert!(Date::from_ymd_opt(2026, 1, 32).is_none());
    assert!(Date::from_ymd_opt(262143, 1, 1).is_none());
    assert!(Date::from_ymd_opt(-262144, 12, 31).is_none());
    assert!(Date::from_ymd_opt(262142, 12, 31).is_some());
    assert!(Date::from_ymd_opt(-262143, 1, 1).is_some());
}

#[test]
fn date_holds_what_it_was_made_of() {
    let d = date(2026, 4, 5);
    assert_eq!((d.year(), d.month(), d.day()), (2026, 4, 5));
    assert_eq!(d, Date { year: 2026, month: 4, day: 5 });
}

#[test]
fn plus_days_moves_the_date() {
    let d = date(2026, 4, 5);
    assert_eq!(d.plus_days(0), d);
    assert_eq!(d.plus_days(1), date(2026, 4, 6));
    assert_eq!(d.plus_days(-5), date(2026, 3, 31));
    assert_eq!(d.plus_days(39), date(2026, 5, 14));
    assert_eq!(date(2024, 2, 28).plus_days(1), date(2024, 2, 29));
    assert_eq!(date(2025, 2, 28).plus_days(1), date(2025, 3, 1));
    assert_eq!(date(2025, 12, 31).plus_days(1), date(2026, 1, 1));
    assert_eq!(date(2026, 1, 1).plus_days(-1), date(2025, 12, 31));
    assert_eq!(date(2014, 1, 1).plus_days(365 * 400 + 97), date(2414, 1, 1));
}

#[test]
fn days_since_counts_the_days() {
    assert_eq!(date(2026, 4, 5).days_since(&date(2026, 4, 5)), 0);
    assert_eq!(date(2026, 4, 6).days_since(&date(2026, 4, 5)), 1);
    assert_eq!(date(2026, 4, 5).days_since(&date(2026, 4, 6)), -1);
    assert_eq!(date(2026, 12, 31).days_since(&date(2026, 1, 1)), 364);
    assert_eq!(date(2024, 12, 31).days_since(&date(2024, 1, 1)), 365);
    assert_eq!(date(2014, 1, 1).days_since(&date(1614, 1, 1)), 365 * 400 + 97);
}

#[test]
fn weekday_of_known_days() {
    assert_eq!(date(1, 1, 1).weekday(), Weekday::Mon);
    assert_eq!(date(2000, 1, 1).weekday(), Weekday::Sat);
    assert_eq!(date(2026, 4, 5).weekday(), Weekday::Sun);
    assert_eq!(date(2026, 4, 6).weekday(), Weekday::Mon);
    assert_eq!(date(2026, 4, 7).weekday(), Weekday::Tue);
    assert_eq!(date(2026, 4, 8).weekday(), Weekday::Wed);
    assert_eq!(date(2026, 4, 9).weekday(), Weekday::Thu);
    assert_eq!(date(2026, 4, 10).weekday(), Weekday::Fri);
    assert_eq!(date(2026, 4, 11).weekday(), Weekday::Sat);
}

#[test]
fn month_and_day_in_two_digits() {
    assert_eq!(date(2026, 2, 5).format_month_day(), "02-05");
    assert_eq!(date(2026, 12, 16).format_month_day(), "12-16");
    assert_eq!(date(2026, 10, 9).format_month_day(), "10-09");
}

#[test]
fn order_of_dates() {
    let a = date(2026, 4, 5);
    let b = date(2026, 4, 6);
    let c = date(2026, 5, 1);
    let d = date(2027, 1, 1);
    assert!(a.is_before(&b) && b.is_before(&c) && c.is_before(&d));
    assert!(!b.is_before(&a) && !a.is_before(&a));
    assert!(a.is_on_or_before(&a) && a.is_on_or_before(&b) && !b.is_on_or_before(&a));
    assert!(a.is_on(&a) && !a.is_on(&b));
    assert!(a < b && b < c && c < d);
}

#[test]
fn weekday_names_and_numbers() {
    let all = [
        (Weekday::Sun, 0, "Sun", "sun", "Sunday"),
        (Weekday::Mon, 1, "Mon", "mon", "Monday"),
        (Weekday::Tue, 2, "Tue", "tue", "Tuesday"),
        (Weekday::Wed, 3, "Wed", "wed", "Wednesday"),
        (Weekday::Thu, 4, "Thu", "thu", "Thursday"),
        (Weekday::Fri, 5, "Fri", "fri", "Friday"),
        (Weekday::Sat, 6, "Sat", "sat", "Saturday"),
    ];
    for (day, number, short, lower, long) in all {
        assert_eq!(day.num_days_from_sunday(), number);
        assert_eq!(day.short_name(), short);
        assert_eq!(day.lower_name(), lower);
        assert_eq!(day.long_name(), long);
    }
}

// Text

#[test]
fn numbers_in_decimal() {
    assert_eq!(decimal_string(0), "0");
    assert_eq!(decimal_string(7), "7");
    assert_eq!(decimal_string(10), "10");
    assert_eq!(decimal_string(27), "27");
    assert_eq!(decimal_string(99), "99");
    assert_eq!(decimal_string(100), "100");
    assert_eq!(decimal_string(105), "105");
    assert_eq!(decimal_string(255), "255");
    for n in 0..=255u8 {
        assert_eq!(decimal_string(n), format!("{}", n));
    }
    for d in 0..10u8 {
        assert_eq!(digit_str(d), format!("{}", d));
    }
}

#[test]
fn ordinal_endings() {
    assert_eq!(ordinal(1), "1st");
    assert_eq!(ordinal(2), "2nd");
    assert_eq!(ordinal(3), "3rd");
    assert_eq!(ordinal(4), "4th");
    assert_eq!(ordinal(11), "11th");
    assert_eq!(ordinal(21), "21th");
    assert_eq!(ordinal(0), "0th");
}

#[test]
fn names_of_the_seasons() {
    assert_eq!(season_id(LiturgicalSeason::AfterEpiphany), "after-epiphany");
    assert_eq!(season_id(LiturgicalSeason::HolyWeek), "holy-week");
    assert_eq!(season_name(LiturgicalSeason::AfterPentecost), "the Time after Pentecost");
    assert_eq!(season_name(LiturgicalSeason::Christmas), "Christmas");
    assert_eq!(season_display_name(LiturgicalSeason::Christmas), "Christmastide");
    assert_eq!(season_display_name(LiturgicalSeason::Easter), "Eastertide");
    assert_eq!(season_display_name(LiturgicalSeason::AfterEpiphany), "Time after Epiphany");
    assert_eq!(season_display_name(LiturgicalSeason::Lent), "Lent");
}

#[test]
fn version_of_the_tables() {
    assert_eq!(version(), "0.1.0");
}

#[test]
fn rubrics_of_1962_by_default() {
    assert_eq!(RubricalSystem::default(), RubricalSystem::Rubrics1962);
}

// Celebrations

#[test]
fn rank_in_the_order_of_precedence() {
    assert_eq!(CelebrationRank::ClassI.precedence_value(), 1);
    assert_eq!(CelebrationRank::ClassII.precedence_value(), 2);
    assert_eq!(CelebrationRank::ClassIII.precedence_value(), 3);
    assert_eq!(CelebrationRank::FeriaPrivileged.precedence_value(), 4);
    assert_eq!(CelebrationRank::ClassIV.precedence_value(), 5);
    assert_eq!(CelebrationRank::Feria.precedence_value(), 6);
}

#[test]
fn a_feria_by_season() {
    let c = Celebration::feria(LiturgicalSeason::AfterPentecost, 5, Weekday::Tue);
    assert_eq!(c.id, "feria-after-pentecost-week-5-tue");
    assert_eq!(c.title, "Feria Tue of the Time after Pentecost Week 5");
    assert_eq!(c.title_vernacular.as_deref(), Some("Feria Tue of the Time after Pentecost Week 5"));
    assert_eq!(c.category, CelebrationCategory::Feria);
    assert_eq!(
        (c.color, c.rank, c.precedence),
        (LiturgicalColor::Green, CelebrationRank::Feria, 11)
    );
    let grades = [
        (LiturgicalSeason::Advent, LiturgicalColor::Violet, CelebrationRank::FeriaPrivileged, 8),
        (LiturgicalSeason::Lent, LiturgicalColor::Violet, CelebrationRank::FeriaPrivileged, 8),
        (
            LiturgicalSeason::Passiontide,
            LiturgicalColor::Violet,
            CelebrationRank::FeriaPrivileged,
            8,
        ),
        (LiturgicalSeason::HolyWeek, LiturgicalColor::Violet, CelebrationRank::ClassI, 3),
        (LiturgicalSeason::Christmas, LiturgicalColor::White, CelebrationRank::Feria, 11),
        (LiturgicalSeason::AfterEpiphany, LiturgicalColor::White, CelebrationRank::Feria, 11),
        (LiturgicalSeason::Septuagesima, LiturgicalColor::Violet, CelebrationRank::Feria, 11),
        (LiturgicalSeason::Easter, LiturgicalColor::White, CelebrationRank::Feria, 11),
        (LiturgicalSeason::Ascensiontide, LiturgicalColor::White, CelebrationRank::Feria, 11),
        (LiturgicalSeason::AfterPentecost, LiturgicalColor::Green, CelebrationRank::Feria, 11),
    ];
    for (season, color, rank, precedence) in grades {
        let c = Celebration::feria(season, 1, Weekday::Mon);
        assert_eq!((c.color, c.rank, c.precedence), (color, rank, precedence));
    }
}

#[test]
fn a_sunday_by_season_and_week() {
    let c = Celebration::sunday(LiturgicalSeason::AfterPentecost, 21);
    assert_eq!(c.id, "sunday-after-pentecost-21");
    assert_eq!(c.title, "21th Sunday of the Time after Pentecost");
    assert_eq!(c.title_vernacular.as_deref(), Some("21th Sunday of the Time after Pentecost"));
    assert_eq!(c.category, CelebrationCategory::Sunday);
    let grades = [
        (LiturgicalSeason::Advent, 1, LiturgicalColor::Violet, CelebrationRank::ClassI, 2),
        (LiturgicalSeason::Advent, 2, LiturgicalColor::Violet, CelebrationRank::ClassI, 6),
        (LiturgicalSeason::Advent, 3, LiturgicalColor::Rose, CelebrationRank::ClassI, 6),
        (LiturgicalSeason::Advent, 4, LiturgicalColor::Violet, CelebrationRank::ClassI, 6),
        (LiturgicalSeason::Christmas, 1, LiturgicalColor::White, CelebrationRank::ClassII, 6),
        (LiturgicalSeason::AfterEpiphany, 2, LiturgicalColor::White, CelebrationRank::ClassII, 6),
        (LiturgicalSeason::Septuagesima, 1, LiturgicalColor::Violet, CelebrationRank::ClassII, 6),
        (LiturgicalSeason::Lent, 1, LiturgicalColor::Violet, CelebrationRank::ClassI, 2),
        (LiturgicalSeason::Lent, 2, LiturgicalColor::Violet, CelebrationRank::ClassI, 6),
        (LiturgicalSeason::Lent, 4, LiturgicalColor::Rose, CelebrationRank::ClassI, 6),
        (LiturgicalSeason::Passiontide, 1, LiturgicalColor::Violet, CelebrationRank::ClassI, 2),
        (LiturgicalSeason::HolyWeek, 1, LiturgicalColor::Violet, CelebrationRank::ClassI, 2),
        (LiturgicalSeason::Easter, 1, LiturgicalColor::White, CelebrationRank::ClassI, 1),
        (LiturgicalSeason::Easter, 3, LiturgicalColor::White, CelebrationRank::ClassII, 6),
        (LiturgicalSeason::Ascensiontide, 1, LiturgicalColor::White, CelebrationRank::ClassII, 6),
        (LiturgicalSeason::AfterPentecost, 9, LiturgicalColor::Green, CelebrationRank::ClassII, 6),
    ];
    for (season, week, color, rank, precedence) in grades {
        let c = Celebration::sunday(season, week);
        assert_eq!((c.color, c.rank, c.precedence), (color, rank, precedence));
    }
}

#[test]
fn a_celebration_and_its_copy() {
    let c = Celebration::new(
        "st-ambrose",
        "S. Ambrosii",
        "St. Ambrose",
        CelebrationRank::ClassIII,
        CelebrationCategory::Feast,
        LiturgicalColor::White,
        9,
    );
    assert_eq!(c.id, "st-ambrose");
    assert_eq!(c.title, "S. Ambrosii");
    assert_eq!(c.title_vernacular.as_deref(), Some("St. Ambrose"));
    assert_eq!(c.clone(), c);
    let f = fixed(
        12,
        7,
        "st-ambrose",
        "S. Ambrosii",
        "St. Ambrose",
        CelebrationRank::ClassIII,
        CelebrationCategory::Feast,
        LiturgicalColor::White,
        9,
    );
    assert_eq!((f.month, f.day), (12, 7));
    assert_eq!(f.celebration, c);
    assert_eq!(f.clone().celebration, c);
}

// The temporal cycle

#[test]
fn seasons_and_weeks_of_2026() {
    let cycle = build_temporal_cycle(2026);
    let expected = [
        ((1, 1), LiturgicalSeason::Christmas, 1),
        ((1, 5), LiturgicalSeason::Christmas, 1),
        ((1, 6), LiturgicalSeason::AfterEpiphany, 1),
        ((1, 12), LiturgicalSeason::AfterEpiphany, 1),
        ((1, 13), LiturgicalSeason::AfterEpiphany, 2),
        ((1, 31), LiturgicalSeason::AfterEpiphany, 4),
        ((2, 1), LiturgicalSeason::Septuagesima, 1),
        ((2, 8), LiturgicalSeason::Septuagesima, 2),
        ((2, 17), LiturgicalSeason::Septuagesima, 3),
        ((2, 18), LiturgicalSeason::Lent, 0),
        ((2, 21), LiturgicalSeason::Lent, 0),
        ((2, 22), LiturgicalSeason::Lent, 1),
        ((3, 15), LiturgicalSeason::Lent, 4),
        ((3, 21), LiturgicalSeason::Lent, 4),
        ((3, 22), LiturgicalSeason::Passiontide, 1),
        ((3, 28), LiturgicalSeason::Passiontide, 1),
        ((3, 29), LiturgicalSeason::HolyWeek, 1),
        ((4, 4), LiturgicalSeason::HolyWeek, 1),
        ((4, 5), LiturgicalSeason::Easter, 1),
        ((4, 12), LiturgicalSeason::Easter, 2),
        ((5, 13), LiturgicalSeason::Easter, 6),
        ((5, 14), LiturgicalSeason::Ascensiontide, 1),
        ((5, 24), LiturgicalSeason::Ascensiontide, 1),
        ((5, 25), LiturgicalSeason::AfterPentecost, 1),
        ((5, 31), LiturgicalSeason::AfterPentecost, 2),
        ((11, 28), LiturgicalSeason::AfterPentecost, 27),
        ((11, 29), LiturgicalSeason::Advent, 1),
        ((12, 13), LiturgicalSeason::Advent, 3),
        ((12, 24), LiturgicalSeason::Advent, 4),
        ((12, 25), LiturgicalSeason::Christmas, 1),
        ((12, 31), LiturgicalSeason::Christmas, 1),
    ];
    for ((m, d), season, week) in expected {
        let day = cycle.iter().find(|day| day.date == date(2026, m, d)).unwrap();
        assert_eq!((day.entry.season, day.entry.week), (season, week), "{}-{}", m, d);
    }
}

#[test]
fn special_days_of_2026() {
    let mf = moveable_feasts(2026);
    let id = |m, d| classify_special(date(2026, m, d), 2026, &mf).map(|c| c.id);
    assert_eq!(id(4, 6).as_deref(), Some("easter-octave-1"));
    assert_eq!(id(4, 11).as_deref(), Some("easter-octave-6"));
    assert_eq!(id(4, 12).as_deref(), Some("low-sunday"));
    assert_eq!(id(4, 13), None);
    assert_eq!(id(5, 25).as_deref(), Some("pentecost-octave-1"));
    // The Ember days after Pentecost lie within its octave, which comes first
    assert_eq!(id(5, 27).as_deref(), Some("pentecost-octave-3"));
    assert_eq!(id(5, 30).as_deref(), Some("pentecost-octave-6"));
    assert_eq!(id(5, 31), None);
    assert_eq!(id(2, 25).as_deref(), Some("ember-02-25"));
    assert_eq!(id(9, 23).as_deref(), Some("ember-09-23"));
    assert_eq!(id(12, 19).as_deref(), Some("ember-12-19"));
    assert_eq!(id(5, 11).as_deref(), Some("rogation-05-11"));
    assert_eq!(id(5, 13).as_deref(), Some("rogation-05-13"));
    assert_eq!(id(11, 22).as_deref(), Some("last-sunday-after-pentecost"));
    assert_eq!(id(11, 15), None);
    assert_eq!(id(2, 1).as_deref(), Some("sunday-septuagesima-1"));
    assert_eq!(id(2, 8).as_deref(), Some("sunday-septuagesima-2"));
    assert_eq!(id(2, 15).as_deref(), Some("sunday-septuagesima-3"));
    assert_eq!(id(3, 22).as_deref(), Some("sunday-passiontide-1"));
    assert_eq!(id(7, 14), None);
}

#[test]
fn special_days_in_full() {
    let mf = moveable_feasts(2026);
    let c = classify_special(date(2026, 4, 7), 2026, &mf).unwrap();
    assert_eq!(c.id, "easter-octave-2");
    assert_eq!(c.title, "Infra Octavam Paschae");
    assert_eq!(c.title_vernacular.as_deref(), Some("Tuesday within the Octave of Easter"));
    assert_eq!(c.category, CelebrationCategory::WithinOctave);
    assert_eq!(
        (c.rank, c.color, c.precedence),
        (CelebrationRank::ClassI, LiturgicalColor::White, 1)
    );
    let c = classify_special(date(2026, 5, 29), 2026, &mf).unwrap();
    assert_eq!(c.title_vernacular.as_deref(), Some("Friday within the Octave of Pentecost"));
    assert_eq!(c.color, LiturgicalColor::Red);
    let c = classify_special(date(2026, 2, 27), 2026, &mf).unwrap();
    assert_eq!(c.id, "ember-02-27");
    assert_eq!(c.title, "Feria Quatuor Temporum");
    assert_eq!(c.title_vernacular.as_deref(), Some("Ember Friday"));
    assert_eq!(c.category, CelebrationCategory::EmberDay);
    assert_eq!(
        (c.rank, c.color, c.precedence),
        (CelebrationRank::FeriaPrivileged, LiturgicalColor::Violet, 8)
    );
    let c = classify_special(date(2026, 5, 12), 2026, &mf).unwrap();
    assert_eq!(c.id, "rogation-05-12");
    assert_eq!(c.title_vernacular.as_deref(), Some("Rogation Tuesday"));
    assert_eq!(c.category, CelebrationCategory::RogationDay);
    assert_eq!(
        (c.rank, c.color, c.precedence),
        (CelebrationRank::ClassIV, LiturgicalColor::Violet, 11)
    );
    let c = classify_special(date(2026, 6, 12), 2026, &mf).unwrap();
    assert_eq!((c.id.as_str(), c.precedence), ("sacred-heart", 4));
    let c = classify_special(date(2026, 11, 22), 2026, &mf).unwrap();
    assert_eq!(
        (c.category, c.color, c.precedence),
        (CelebrationCategory::Sunday, LiturgicalColor::Green, 2)
    );
}

#[test]
fn classify_date_gives_season_and_special() {
    let mf = moveable_feasts(2026);
    let (entry, special) = classify_date(date(2026, 2, 18), 2026, &mf);
    assert_eq!((entry.season, entry.week), (LiturgicalSeason::Lent, 0));
    assert_eq!(special.unwrap().id, "ash-wednesday");
    let (entry, special) = classify_date(date(2026, 7, 14), 2026, &mf);
    assert_eq!((entry.season, entry.week), (LiturgicalSeason::AfterPentecost, 8));
    assert!(special.is_none());
}

// The sanctoral cycle

#[test]
fn first_sunday_between_two_days() {
    // 4 January 2026 is a Sunday
    assert_eq!(find_sunday_between(2026, 1, 2, 1, 5), Some(date(2026, 1, 4)));
    // 1 January 2023 is a Sunday: none from 2 to 5 January
    assert_eq!(find_sunday_between(2023, 1, 2, 1, 5), None);
    assert_eq!(find_sunday_between(2026, 4, 5, 4, 5), Some(date(2026, 4, 5)));
    assert_eq!(find_sunday_between(2026, 4, 6, 4, 11), None);
    assert_eq!(find_sunday_between(2026, 4, 6, 4, 12), Some(date(2026, 4, 12)));
    // The first day after the last
    assert_eq!(find_sunday_between(2026, 4, 12, 4, 5), None);
    // Days that do not exist
    assert_eq!(find_sunday_between(2026, 2, 30, 3, 5), None);
    assert_eq!(find_sunday_between(2026, 2, 1, 2, 29), None);
}

#[test]
fn holy_name_of_jesus() {
    // 2026: the Sunday from 2 to 5 January is 4 January
    let cycle = build_sanctoral_cycle(2026);
    let list = cycle.get(date(2026, 1, 4)).unwrap();
    assert_eq!(list.len(), 1);
    assert_eq!(list[0].id, "holy-name-of-jesus");
    assert_eq!(list[0].rank, CelebrationRank::ClassII);
    assert_eq!(list[0].precedence, 5);
    assert!(cycle.get(date(2026, 1, 2)).is_none());
    // 2023 and 2024: no Sunday from 2 to 5 January, so 2 January
    for year in [2023, 2024] {
        let cycle = build_sanctoral_cycle(year);
        let list = cycle.get(date(year, 1, 2)).unwrap();
        assert_eq!(list[0].id, "holy-name-of-jesus");
    }
}

#[test]
fn holy_family_stays_in_the_old_year() {
    for year in 2000..=2040 {
        let cycle = build_sanctoral_cycle(year);
        assert_eq!(cycle.year(), year);
        for day in cycle.days() {
            assert!(day.iter().all(|c| c.id != "holy-family"));
        }
        let jan1 = cycle.get(date(year, 1, 1)).unwrap();
        assert_eq!(jan1.len(), 1);
        assert_eq!(jan1[0].id, "circumcision");
    }
}

#[test]
fn sanctoral_cycle_by_day() {
    let cycle = build_sanctoral_cycle(2026);
    assert_eq!(cycle.days().len(), 365);
    assert_eq!(cycle.days().iter().filter(|day| !day.is_empty()).count(), 55);
    assert!(!cycle.contains_key(date(2026, 1, 3)));
    assert!(cycle.get(date(2026, 1, 3)).is_none());
    // A day of another year
    assert!(!cycle.contains_key(date(2025, 12, 25)));
    assert!(cycle.get(date(2027, 12, 25)).is_none());
    let st_andrew = cycle.get(date(2026, 11, 30)).unwrap();
    assert_eq!(st_andrew[0].id, "st-andrew");
    assert_eq!(st_andrew[0].title, "S. Andreae");
    assert_eq!(st_andrew[0].color, LiturgicalColor::Red);
    assert_eq!(st_andrew[0].precedence, 7);
}

// Precedence

#[test]
fn precedence_number_before_rank() {
    // A feast of the third class with the lower precedence number is kept
    // before a celebration of the first class
    let temporal = Celebration::new(
        "a",
        "A",
        "A",
        CelebrationRank::ClassI,
        CelebrationCategory::Feast,
        LiturgicalColor::White,
        4,
    );
    let saint = Celebration::new(
        "b",
        "B",
        "B",
        CelebrationRank::ClassIII,
        CelebrationCategory::Feast,
        LiturgicalColor::Red,
        1,
    );
    let (winner, comms) = resolve_precedence(&temporal, &[saint]);
    assert_eq!(winner.id, "b");
    assert_eq!(comms.len(), 1);
    assert_eq!(comms[0].id, "a");
}

#[test]
fn among_equals_the_first_stays_first() {
    let make = |id: &str, rank, precedence| {
        let category = CelebrationCategory::Feast;
        Celebration::new(id, "", "", rank, category, LiturgicalColor::White, precedence)
    };
    let temporal = make("t", CelebrationRank::ClassII, 7);
    let others = [
        make("a", CelebrationRank::ClassII, 7),
        make("b", CelebrationRank::ClassIII, 9),
        make("c", CelebrationRank::Feria, 11),
        make("d", CelebrationRank::ClassII, 7),
        make("e", CelebrationRank::ClassI, 7),
        make("f", CelebrationRank::ClassIV, 11),
        make("g", CelebrationRank::FeriaPrivileged, 8),
        make("h", CelebrationRank::ClassIII, 9),
    ];
    let (winner, comms) = resolve_precedence(&temporal, &others);
    assert_eq!(winner.id, "e");
    let ids: Vec<&str> = comms.iter().map(|c| c.id.as_str()).collect();
    assert_eq!(ids, vec!["t", "a", "d", "g", "b", "h", "f"]);
}

#[test]
fn nothing_meets_the_temporal_celebration() {
    let temporal = Celebration::feria(LiturgicalSeason::AfterPentecost, 5, Weekday::Tue);
    let (winner, comms) = resolve_precedence(&temporal, &[]);
    assert_eq!(winner, temporal);
    assert!(comms.is_empty());
}

#[test]
fn a_feast_of_the_first_class_that_loses_is_commemorated() {
    let cal = Calendar::new(2027);
    // 28 March 2027 is Easter Sunday; the Annunciation fell three days before
    let day = cal.get(date(2027, 3, 25)).unwrap();
    assert_eq!(day.celebration.id, "holy-thursday");
    assert_eq!(day.commemorations.len(), 1);
    assert_eq!(day.commemorations[0].id, "annunciation");
}

// Readings and notes

#[test]
fn readings_by_identifier() {
    let r = get_readings("christmas").unwrap();
    assert_eq!(r.epistle.as_deref(), Some("Titus 2:11-15"));
    assert_eq!(r.gospel.as_deref(), Some("Luke 2:1-14"));
    assert_eq!(r.old_testament, None);
    assert_eq!(r.gradual.as_deref(), Some("Ps 97:3-4, 2"));
    let r = get_readings("good-friday").unwrap();
    assert_eq!(r.old_testament.as_deref(), Some("Isaias 52:13–53:12"));
    let r = get_readings("holy-saturday").unwrap();
    assert_eq!(r.gradual, None);
    let r = get_readings("holy-innocents").unwrap();
    assert_eq!(r.gospel.as_deref(), Some("Matt 2:13-18"));
    assert_eq!(get_readings("st-andrew"), None);
    assert_eq!(get_readings(""), None);
    assert_eq!(get_readings("christmas "), None);
}

#[test]
fn notes_by_identifier() {
    assert_eq!(get_notes("pentecost").as_deref(), Some("Sequence: Veni Sancte Spiritus."));
    assert_eq!(
        get_notes("ash-wednesday").as_deref(),
        Some("Blessing and imposition of ashes. Fast and abstinence.")
    );
    assert_eq!(
        get_notes("ss-peter-paul").as_deref(),
        Some("Holy Day of Obligation in many countries.")
    );
    assert_eq!(get_notes("holy-innocents"), None);
    assert_eq!(get_notes("Pentecost"), None);
}

#[test]
fn readings_and_notes_follow_the_celebration_kept() {
    let cal = Calendar::new(2026);
    let day = cal.get(date(2026, 12, 25)).unwrap();
    assert_eq!(day.readings, get_readings("christmas"));
    assert_eq!(day.notes, get_notes("christmas"));
    let day = cal.get(date(2026, 7, 14)).unwrap();
    assert_eq!(day.celebration.id, "feria-after-pentecost-week-8-tue");
    assert_eq!(day.readings, None);
    assert_eq!(day.notes, None);
}

// The calendar

#[test]
fn calendar_of_another_year_has_no_such_day() {
    let cal = Calendar::new(2026);
    assert_eq!(cal.year(), 2026);
    assert!(cal.get(date(2025, 12, 31)).is_none());
    assert!(cal.get(date(2027, 1, 1)).is_none());
    assert!(cal.get(date(2026, 1, 1)).is_some());
    assert!(cal.get(date(2026, 12, 31)).is_some());
    assert_eq!(cal.moveable_feasts().easter, date(2026, 4, 5));
}

#[test]
fn calendar_at_the_ends_of_the_range() {
    let cal = Calendar::new(262142);
    assert_eq!(cal.days().len(), 365);
    assert_eq!(cal.days()[364].date, date(262142, 12, 31));
    let cal = Calendar::new(-262142);
    assert_eq!(cal.days().len(), 365);
    assert_eq!(cal.days()[0].date, date(-262142, 1, 1));
}

#[test]
fn days_of_a_month() {
    let cal = Calendar::new(2024);
    let february = cal.days_of_month(2);
    assert_eq!(february.len(), 29);
    assert_eq!(february[0].date, date(2024, 2, 1));
    assert_eq!(february[28].date, date(2024, 2, 29));
    assert_eq!(february[13].celebration.id, "ash-wednesday");
    assert_eq!(cal.days_of_month(12).len(), 31);
    assert!(cal.days_of_month(0).is_empty());
    assert!(cal.days_of_month(13).is_empty());
    let all: usize = (1..=12).map(|m| cal.days_of_month(m).len()).sum();
    assert_eq!(all, 366);
}
