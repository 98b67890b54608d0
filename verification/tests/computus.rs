use liturgical_calendar::computus::{easter, moveable_feasts};
use liturgical_calendar::{Date, Weekday};

#[test]
fn test_easter_known_dates() {
    // Checked against published dates of Easter
    let cases = vec![
        (2000, 4, 23),
        (2001, 4, 15),
        (2005, 3, 27),
        (2008, 3, 23),
        (2010, 4, 4),
        (2015, 4, 5),
        (2016, 3, 27),
        (2017, 4, 16),
        (2018, 4, 1),
        (2019, 4, 21),
        (2020, 4, 12),
        (2021, 4, 4),
        (2022, 4, 17),
        (2023, 4, 9),
        (2024, 3, 31),
        (2025, 4, 20),
        (2026, 4, 5),
        (2027, 3, 28),
        (2028, 4, 16),
        (2029, 4, 1),
        (2030, 4, 21),
        (2038, 4, 25), // the latest day possible
        (1818, 3, 22), // the earliest day possible
    ];
    for (year, month, day) in cases {
        let expected = Date::from_ymd_opt(year, month, day).unwrap();
        assert_eq!(easter(year), expected, "Easter {} failed", year);
    }
}

#[test]
fn test_easter_range() {
    // Easter always falls from 22 March to 25 April
    for year in 1900..=2100 {
        let e = easter(year);
        let mar22 = Date::from_ymd_opt(year, 3, 22).unwrap();
        let apr25 = Date::from_ymd_opt(year, 4, 25).unwrap();
        assert!(e >= mar22 && e <= apr25, "Easter {} = {:?} out of range", year, e);
    }
}

#[test]
fn test_easter_always_sunday() {
    for year in 1900..=2100 {
        assert_eq!(easter(year).weekday(), Weekday::Sun, "Easter {} not Sunday", year);
    }
}

#[test]
fn test_moveable_feasts_2026() {
    let mf = moveable_feasts(2026);
    assert_eq!(mf.easter, Date::from_ymd_opt(2026, 4, 5).unwrap());
    assert_eq!(mf.ash_wednesday, Date::from_ymd_opt(2026, 2, 18).unwrap());
    assert_eq!(mf.pentecost, Date::from_ymd_opt(2026, 5, 24).unwrap());
    assert_eq!(mf.ascension, Date::from_ymd_opt(2026, 5, 14).unwrap());
    assert_eq!(mf.corpus_christi, Date::from_ymd_opt(2026, 6, 4).unwrap());
    assert_eq!(mf.palm_sunday, Date::from_ymd_opt(2026, 3, 29).unwrap());
    assert_eq!(mf.septuagesima, Date::from_ymd_opt(2026, 2, 1).unwrap());
}

#[test]
fn test_christ_the_king_is_last_sunday_october() {
    for year in 2020..=2030 {
        let mf = moveable_feasts(year);
        assert_eq!(mf.christ_the_king.weekday(), Weekday::Sun);
        assert_eq!(mf.christ_the_king.month(), 10);
        // Never before 25 October
        assert!(mf.christ_the_king.day() >= 25);
    }
}

#[test]
fn test_advent_1_range() {
    for year in 2020..=2030 {
        let mf = moveable_feasts(year);
        assert_eq!(mf.advent_1.weekday(), Weekday::Sun);
        // From 27 November to 3 December
        let (m, d) = (mf.advent_1.month(), mf.advent_1.day());
        assert!(
            (m == 11 && d >= 27) || (m == 12 && d <= 3),
            "Advent 1 {} = {:?} out of range",
            year,
            mf.advent_1
        );
    }
}

#[test]
fn test_rogation_days_before_ascension() {
    let mf = moveable_feasts(2026);
    assert_eq!(mf.rogation_days.len(), 3);
    assert_eq!(mf.rogation_days[0].weekday(), Weekday::Mon);
    assert_eq!(mf.rogation_days[1].weekday(), Weekday::Tue);
    assert_eq!(mf.rogation_days[2].weekday(), Weekday::Wed);
    assert_eq!(mf.rogation_days[2].plus_days(1), mf.ascension);
}
