use liturgical_calendar::{Calendar, Date, LiturgicalColor, LiturgicalSeason};

#[test]
fn test_calendar_has_all_days() {
    let cal = Calendar::new(2026);
    let _jan1 = Date::from_ymd_opt(2026, 1, 1).unwrap();
    let _dec31 = Date::from_ymd_opt(2026, 12, 31).unwrap();
    assert_eq!(cal.days().len(), 365);
}

#[test]
fn test_calendar_leap_year() {
    let cal = Calendar::new(2024);
    assert_eq!(cal.days().len(), 366);
}

#[test]
fn test_easter_sunday_wins() {
    let cal = Calendar::new(2026);
    let easter = Date::from_ymd_opt(2026, 4, 5).unwrap();
    let day = cal.get(easter).unwrap();
    assert_eq!(day.celebration.id, "easter-sunday");
    assert_eq!(day.color, LiturgicalColor::White);
}

#[test]
fn test_christmas_day() {
    let cal = Calendar::new(2026);
    let dec25 = Date::from_ymd_opt(2026, 12, 25).unwrap();
    let day = cal.get(dec25).unwrap();
    assert_eq!(day.celebration.id, "christmas");
    assert_eq!(day.season, LiturgicalSeason::Christmas);
}

#[test]
fn test_ash_wednesday() {
    let cal = Calendar::new(2026);
    let date = Date::from_ymd_opt(2026, 2, 18).unwrap();
    let day = cal.get(date).unwrap();
    assert_eq!(day.celebration.id, "ash-wednesday");
    assert_eq!(day.color, LiturgicalColor::Violet);
}

#[test]
fn test_all_days_have_color() {
    let cal = Calendar::new(2026);
    for day in cal.days() {
        // Every day has a colour
        let _ = day.color;
    }
}

#[test]
fn test_all_days_have_one_celebration() {
    let cal = Calendar::new(2026);
    for day in cal.days() {
        assert!(!day.celebration.id.is_empty());
    }
}
