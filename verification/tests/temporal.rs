use liturgical_calendar::temporal::{build_temporal_cycle, TemporalDay};
use liturgical_calendar::{Date, LiturgicalSeason};

fn day_of(cycle: &[TemporalDay], date: Date) -> &TemporalDay {
    cycle.iter().find(|day| day.date == date).unwrap()
}

#[test]
fn test_all_days_assigned() {
    for year in 2020..=2030 {
        let cycle = build_temporal_cycle(year);
        let jan1 = Date::from_ymd_opt(year, 1, 1).unwrap();
        let dec31 = Date::from_ymd_opt(year, 12, 31).unwrap();
        let expected = dec31.days_since(&jan1) + 1;
        assert_eq!(
            cycle.len() as i64,
            expected,
            "Year {} missing days: got {}, expected {}",
            year,
            cycle.len(),
            expected
        );
    }
}

#[test]
fn test_ash_wednesday_2026_is_lent() {
    let cycle = build_temporal_cycle(2026);
    let ash_wed = Date::from_ymd_opt(2026, 2, 18).unwrap();
    let day = day_of(&cycle, ash_wed);
    assert_eq!(day.entry.season, LiturgicalSeason::Lent);
    assert!(day.special.is_some());
    assert_eq!(day.special.as_ref().unwrap().id, "ash-wednesday");
}

#[test]
fn test_easter_2026_in_cycle() {
    let cycle = build_temporal_cycle(2026);
    let easter = Date::from_ymd_opt(2026, 4, 5).unwrap();
    let day = day_of(&cycle, easter);
    assert_eq!(day.entry.season, LiturgicalSeason::Easter);
    assert!(day.special.is_some());
    assert_eq!(day.special.as_ref().unwrap().id, "easter-sunday");
}

#[test]
fn test_christmas_season_dec() {
    let cycle = build_temporal_cycle(2026);
    let dec25 = Date::from_ymd_opt(2026, 12, 25).unwrap();
    let day = day_of(&cycle, dec25);
    assert_eq!(day.entry.season, LiturgicalSeason::Christmas);
}

#[test]
fn test_advent_2026() {
    let cycle = build_temporal_cycle(2026);
    // The first Sunday of Advent 2026 is 29 November
    let advent1 = Date::from_ymd_opt(2026, 11, 29).unwrap();
    let day = day_of(&cycle, advent1);
    assert_eq!(day.entry.season, LiturgicalSeason::Advent);
    assert_eq!(day.entry.week, 1);
}
