use liturgical_calendar::precedence::resolve_precedence;
use liturgical_calendar::{
    Celebration, CelebrationCategory, CelebrationRank, LiturgicalColor, LiturgicalSeason, Weekday,
};

#[test]
fn test_class_i_beats_class_iii() {
    let temporal = Celebration::new(
        "easter-sunday", "Dominica Resurrectionis", "Easter Sunday",
        CelebrationRank::ClassI, CelebrationCategory::Solemnity,
        LiturgicalColor::White, 1,
    );
    let sanctoral = Celebration::new(
        "some-saint", "S. Alicujus", "Some Saint",
        CelebrationRank::ClassIII, CelebrationCategory::Feast,
        LiturgicalColor::White, 9,
    );
    let (winner, comms) = resolve_precedence(&temporal, &[sanctoral.clone()]);
    assert_eq!(winner.id, "easter-sunday");
    assert_eq!(comms.len(), 1);
    assert_eq!(comms[0].id, "some-saint");
}

#[test]
fn test_sanctoral_class_i_beats_sunday_class_ii() {
    let temporal = Celebration::sunday(LiturgicalSeason::AfterPentecost, 5);
    let sanctoral = Celebration::new(
        "all-saints", "Omnium Sanctorum", "All Saints",
        CelebrationRank::ClassI, CelebrationCategory::Solemnity,
        LiturgicalColor::White, 4,
    );
    let (winner, comms) = resolve_precedence(&temporal, &[sanctoral]);
    assert_eq!(winner.id, "all-saints");
    // The Sunday is commemorated
    assert!(comms.iter().any(|c| c.category == CelebrationCategory::Sunday));
}

#[test]
fn test_advent_sunday_beats_class_iii_saint() {
    let temporal = Celebration::sunday(LiturgicalSeason::Advent, 2);
    let sanctoral = Celebration::new(
        "st-ambrose", "S. Ambrosii", "St. Ambrose",
        CelebrationRank::ClassIII, CelebrationCategory::Feast,
        LiturgicalColor::White, 9,
    );
    let (winner, comms) = resolve_precedence(&temporal, &[sanctoral.clone()]);
    // A Sunday of Advent, first class with precedence 6 in week 2, against
    // a feast of the third class with precedence 9
    assert_eq!(winner.category, CelebrationCategory::Sunday);
    assert_eq!(comms.len(), 1);
}

#[test]
fn test_privileged_feria_beats_class_iv() {
    let temporal = Celebration::new(
        "lent-feria", "Feria", "Lenten Feria",
        CelebrationRank::FeriaPrivileged, CelebrationCategory::Feria,
        LiturgicalColor::Violet, 8,
    );
    let sanctoral = Celebration::new(
        "minor-saint", "S. Minoris", "Minor Saint",
        CelebrationRank::ClassIV, CelebrationCategory::Memorial,
        LiturgicalColor::White, 11,
    );
    let (winner, comms) = resolve_precedence(&temporal, &[sanctoral]);
    assert_eq!(winner.id, "lent-feria");
    assert_eq!(comms.len(), 1);
}

#[test]
fn test_no_commemorations_for_ordinary_feria() {
    let sanctoral = Celebration::new(
        "st-someone", "S. Alicujus", "St. Someone",
        CelebrationRank::ClassIII, CelebrationCategory::Feast,
        LiturgicalColor::White, 9,
    );
    let temporal = Celebration::feria(LiturgicalSeason::AfterPentecost, 5, Weekday::Tue);
    let (winner, comms) = resolve_precedence(&temporal, &[sanctoral]);
    assert_eq!(winner.id, "st-someone");
    // An ordinary feria is not commemorated
    assert!(comms.is_empty());
}
