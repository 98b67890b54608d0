//! The sanctoral cycle: the feasts that fall on a fixed day of the civil
//! year, and the two feasts of the Lord that fall on a Sunday near the
//! beginning of the year.

use crate::computus::{in_year, lemma_sundays, sunday_on_or_after};
use crate::date::{
    day_in_range, day_number_of, days_in_year, first_day_of_year, lemma_day_number_injective,
    lemma_day_number_within_year, lemma_days_before_year_step, lemma_valid_in_range,
    lemma_year_of_day_number, valid_ymd, weekday_of, Date, Weekday, MAX_YEAR, MIN_YEAR,
};
use crate::types::{
    celebration_of, celebration_views, Celebration, CelebrationCategory, CelebrationRank,
    CelebrationView, LiturgicalColor,
};
use vstd::prelude::*;

verus! {

/// A feast that falls on the same day of the same month every year.
#[derive(Debug)]
pub struct FixedFeast {
    pub month: u32,
    pub day: u32,
    pub celebration: Celebration,
}

/// What a [`FixedFeast`] holds, with its texts as sequences of characters.
pub struct FixedFeastView {
    pub month: u32,
    pub day: u32,
    pub celebration: CelebrationView,
}

impl View for FixedFeast {
    type V = FixedFeastView;

    open spec fn view(&self) -> FixedFeastView {
        FixedFeastView { month: self.month, day: self.day, celebration: self.celebration@ }
    }
}

impl Clone for FixedFeast {
    fn clone(&self) -> (r: Self)
        ensures
            r@ == self@,
    {
        FixedFeast { month: self.month, day: self.day, celebration: self.celebration.clone() }
    }
}

/// The views of a sequence of fixed feasts, in order.
pub open spec fn feast_views(s: Seq<FixedFeast>) -> Seq<FixedFeastView> {
    s.map_values(|f: FixedFeast| f@)
}

/// The feast of the given month and day with the given celebration.
pub open spec fn feast(
    month: u32,
    day: u32,
    id: Seq<char>,
    title: Seq<char>,
    title_en: Seq<char>,
    rank: CelebrationRank,
    category: CelebrationCategory,
    color: LiturgicalColor,
    precedence: u8,
) -> FixedFeastView {
    FixedFeastView {
        month,
        day,
        celebration: celebration_of(id, title, title_en, rank, category, color, precedence),
    }
}

/// The feast of the given month and day with the given celebration.
pub fn fixed(
    month: u32,
    day: u32,
    id: &str,
    title: &str,
    title_en: &str,
    rank: CelebrationRank,
    category: CelebrationCategory,
    color: LiturgicalColor,
    precedence: u8,
) -> (r: FixedFeast)
    ensures
        r@ == feast(month, day, id@, title@, title_en@, rank, category, color, precedence),
{
    FixedFeast {
        month,
        day,
        celebration: Celebration::new(id, title, title_en, rank, category, color, precedence),
    }
}

/// Whether a feast of the table is as the calendar expects it: it has an
/// identifier, and its precedence is that of a feast, never that of a
/// Sunday of the second class.
pub open spec fn is_sound_feast(f: FixedFeastView) -> bool {
    &&& f.celebration.id.len() > 0
    &&& 1 <= f.celebration.precedence <= 11
    &&& f.celebration.precedence != 6
}

/// Whether every feast of a table is sound.
pub open spec fn all_sound(s: Seq<FixedFeastView>) -> bool {
    forall|i: int| 0 <= i < s.len() ==> is_sound_feast(#[trigger] s[i])
}

/// The feasts of January.
pub open spec fn table_january() -> Seq<FixedFeastView> {
    seq![
        feast(
            1,
            1,
            "circumcision"@,
            "In Circumcisione Domini"@,
            "Circumcision of Our Lord"@,
            CelebrationRank::ClassI,
            CelebrationCategory::FeastOfLord,
            LiturgicalColor::White,
            4,
        ),
        feast(
            1,
            6,
            "epiphany"@,
            "In Epiphania Domini"@,
            "The Epiphany of Our Lord"@,
            CelebrationRank::ClassI,
            CelebrationCategory::FeastOfLord,
            LiturgicalColor::White,
            4,
        ),
        feast(
            1,
            25,
            "conversion-of-st-paul"@,
            "Conversio S. Pauli"@,
            "Conversion of St. Paul"@,
            CelebrationRank::ClassIII,
            CelebrationCategory::Feast,
            LiturgicalColor::White,
            9,
        ),
        feast(
            1,
            28,
            "st-thomas-aquinas"@,
            "S. Thomae de Aquino"@,
            "St. Thomas Aquinas"@,
            CelebrationRank::ClassIII,
            CelebrationCategory::Feast,
            LiturgicalColor::White,
            9,
        ),
    ]
}

/// The feasts of February.
pub open spec fn table_february() -> Seq<FixedFeastView> {
    seq![
        feast(
            2,
            2,
            "purification-bvm"@,
            "In Purificatione B.M.V."@,
            "Purification of the BVM (Candlemas)"@,
            CelebrationRank::ClassII,
            CelebrationCategory::FeastOfLord,
            LiturgicalColor::White,
            5,
        ),
        feast(
            2,
            22,
            "chair-of-st-peter"@,
            "Cathedra S. Petri"@,
            "Chair of St. Peter"@,
            CelebrationRank::ClassII,
            CelebrationCategory::Feast,
            LiturgicalColor::White,
            7,
        ),
        feast(
            2,
            24,
            "st-matthias"@,
            "S. Matthiae"@,
            "St. Matthias, Apostle"@,
            CelebrationRank::ClassII,
            CelebrationCategory::Feast,
            LiturgicalColor::Red,
            7,
        ),
    ]
}

/// The feasts of March.
pub open spec fn table_march() -> Seq<FixedFeastView> {
    seq![
        feast(
            3,
            7,
            "st-perpetua-felicity"@,
            "Ss. Perpetuae et Felicitatis"@,
            "Sts. Perpetua and Felicity, Martyrs"@,
            CelebrationRank::ClassIII,
            CelebrationCategory::Feast,
            LiturgicalColor::Red,
            9,
        ),
        feast(
            3,
            12,
            "st-gregory-great"@,
            "S. Gregorii I Papae"@,
            "St. Gregory the Great, Pope and Doctor"@,
            CelebrationRank::ClassIII,
            CelebrationCategory::Feast,
            LiturgicalColor::White,
            9,
        ),
        feast(
            3,
            17,
            "st-patrick"@,
            "S. Patricii"@,
            "St. Patrick, Bishop and Confessor"@,
            CelebrationRank::ClassIII,
            CelebrationCategory::Feast,
            LiturgicalColor::White,
            9,
        ),
        feast(
            3,
            19,
            "st-joseph"@,
            "S. Joseph Sponsi B.M.V."@,
            "St. Joseph, Spouse of the BVM"@,
            CelebrationRank::ClassI,
            CelebrationCategory::Solemnity,
            LiturgicalColor::White,
            4,
        ),
        feast(
            3,
            25,
            "annunciation"@,
            "In Annuntiatione B.M.V."@,
            "The Annunciation of the BVM"@,
            CelebrationRank::ClassI,
            CelebrationCategory::FeastOfLord,
            LiturgicalColor::White,
            4,
        ),
    ]
}

/// The feasts of April.
pub open spec fn table_april() -> Seq<FixedFeastView> {
    seq![
        feast(
            4,
            2,
            "st-francis-of-paola"@,
            "S. Francisci de Paula"@,
            "St. Francis of Paola, Confessor"@,
            CelebrationRank::ClassIII,
            CelebrationCategory::Feast,
            LiturgicalColor::White,
            9,
        ),
        feast(
            4,
            25,
            "st-mark"@,
            "S. Marci"@,
            "St. Mark, Evangelist"@,
            CelebrationRank::ClassII,
            CelebrationCategory::Feast,
            LiturgicalColor::Red,
            7,
        ),
    ]
}

/// The feasts of May.
pub open spec fn table_may() -> Seq<FixedFeastView> {
    seq![
        feast(
            5,
            1,
            "st-joseph-worker"@,
            "S. Joseph Opificis"@,
            "St. Joseph the Worker"@,
            CelebrationRank::ClassI,
            CelebrationCategory::Solemnity,
            LiturgicalColor::White,
            4,
        ),
        feast(
            5,
            3,
            "finding-holy-cross"@,
            "Inventio S. Crucis"@,
            "Finding of the Holy Cross"@,
            CelebrationRank::ClassIII,
            CelebrationCategory::Feast,
            LiturgicalColor::Red,
            9,
        ),
        feast(
            5,
            11,
            "ss-philip-james"@,
            "Ss. Philippi et Jacobi"@,
            "Sts. Philip and James, Apostles"@,
            CelebrationRank::ClassII,
            CelebrationCategory::Feast,
            LiturgicalColor::Red,
            7,
        ),
        feast(
            5,
            31,
            "queenship-of-mary"@,
            "B.M.V. Reginae"@,
            "Queenship of the BVM"@,
            CelebrationRank::ClassII,
            CelebrationCategory::Feast,
            LiturgicalColor::White,
            7,
        ),
    ]
}

/// The feasts of June.
pub open spec fn table_june() -> Seq<FixedFeastView> {
    seq![
        feast(
            6,
            24,
            "nativity-of-st-john-baptist"@,
            "In Nativitate S. Joannis Baptistae"@,
            "Nativity of St. John the Baptist"@,
            CelebrationRank::ClassI,
            CelebrationCategory::Solemnity,
            LiturgicalColor::White,
            4,
        ),
        feast(
            6,
            29,
            "ss-peter-paul"@,
            "Ss. Petri et Pauli"@,
            "Sts. Peter and Paul, Apostles"@,
            CelebrationRank::ClassI,
            CelebrationCategory::Solemnity,
            LiturgicalColor::Red,
            4,
        ),
    ]
}

/// The feasts of July.
pub open spec fn table_july() -> Seq<FixedFeastView> {
    seq![
        feast(
            7,
            2,
            "visitation-bvm"@,
            "Visitatio B.M.V."@,
            "Visitation of the BVM"@,
            CelebrationRank::ClassII,
            CelebrationCategory::Feast,
            LiturgicalColor::White,
            7,
        ),
        feast(
            7,
            25,
            "st-james-greater"@,
            "S. Jacobi Majoris"@,
            "St. James the Greater, Apostle"@,
            CelebrationRank::ClassII,
            CelebrationCategory::Feast,
            LiturgicalColor::Red,
            7,
        ),
        feast(
            7,
            26,
            "st-anne"@,
            "S. Annae Matris B.M.V."@,
            "St. Anne, Mother of the BVM"@,
            CelebrationRank::ClassII,
            CelebrationCategory::Feast,
            LiturgicalColor::White,
            7,
        ),
    ]
}

/// The feasts of August.
pub open spec fn table_august() -> Seq<FixedFeastView> {
    seq![
        feast(
            8,
            6,
            "transfiguration"@,
            "In Transfiguratione Domini"@,
            "The Transfiguration of Our Lord"@,
            CelebrationRank::ClassII,
            CelebrationCategory::FeastOfLord,
            LiturgicalColor::White,
            5,
        ),
        feast(
            8,
            10,
            "st-lawrence"@,
            "S. Laurentii"@,
            "St. Lawrence, Martyr"@,
            CelebrationRank::ClassII,
            CelebrationCategory::Feast,
            LiturgicalColor::Red,
            7,
        ),
        feast(
            8,
            15,
            "assumption-bvm"@,
            "In Assumptione B.M.V."@,
            "The Assumption of the BVM"@,
            CelebrationRank::ClassI,
            CelebrationCategory::Solemnity,
            LiturgicalColor::White,
            4,
        ),
        feast(
            8,
            22,
            "immaculate-heart-of-mary"@,
            "Immaculati Cordis B.M.V."@,
            "Immaculate Heart of Mary"@,
            CelebrationRank::ClassII,
            CelebrationCategory::Feast,
            LiturgicalColor::White,
            7,
        ),
        feast(
            8,
            24,
            "st-bartholomew"@,
            "S. Bartholomaei"@,
            "St. Bartholomew, Apostle"@,
            CelebrationRank::ClassII,
            CelebrationCategory::Feast,
            LiturgicalColor::Red,
            7,
        ),
        feast(
            8,
            28,
            "st-augustine"@,
            "S. Augustini"@,
            "St. Augustine, Bishop and Doctor"@,
            CelebrationRank::ClassIII,
            CelebrationCategory::Feast,
            LiturgicalColor::White,
            9,
        ),
        feast(
            8,
            29,
            "beheading-john-baptist"@,
            "In Decollatione S. Joannis Baptistae"@,
            "Beheading of St. John the Baptist"@,
            CelebrationRank::ClassIII,
            CelebrationCategory::Feast,
            LiturgicalColor::Red,
            9,
        ),
    ]
}

/// The feasts of September.
pub open spec fn table_september() -> Seq<FixedFeastView> {
    seq![
        feast(
            9,
            8,
            "nativity-bvm"@,
            "In Nativitate B.M.V."@,
            "Nativity of the BVM"@,
            CelebrationRank::ClassII,
            CelebrationCategory::Feast,
            LiturgicalColor::White,
            7,
        ),
        feast(
            9,
            14,
            "exaltation-holy-cross"@,
            "In Exaltatione S. Crucis"@,
            "Exaltation of the Holy Cross"@,
            CelebrationRank::ClassII,
            CelebrationCategory::FeastOfLord,
            LiturgicalColor::Red,
            5,
        ),
        feast(
            9,
            15,
            "seven-sorrows-bvm"@,
            "Septem Dolorum B.M.V."@,
            "Seven Sorrows of the BVM"@,
            CelebrationRank::ClassII,
            CelebrationCategory::Feast,
            LiturgicalColor::White,
            7,
        ),
        feast(
            9,
            21,
            "st-matthew"@,
            "S. Matthaei"@,
            "St. Matthew, Apostle and Evangelist"@,
            CelebrationRank::ClassII,
            CelebrationCategory::Feast,
            LiturgicalColor::Red,
            7,
        ),
        feast(
            9,
            29,
            "st-michael"@,
            "Dedicatio S. Michaelis Archangeli"@,
            "St. Michael the Archangel"@,
            CelebrationRank::ClassI,
            CelebrationCategory::Solemnity,
            LiturgicalColor::White,
            4,
        ),
    ]
}

/// The feasts of October.
pub open spec fn table_october() -> Seq<FixedFeastView> {
    seq![
        feast(
            10,
            7,
            "holy-rosary"@,
            "B.M.V. a Rosario"@,
            "Our Lady of the Rosary"@,
            CelebrationRank::ClassII,
            CelebrationCategory::Feast,
            LiturgicalColor::White,
            7,
        ),
        feast(
            10,
            11,
            "divine-motherhood-bvm"@,
            "Maternitatis B.M.V."@,
            "Divine Motherhood of the BVM"@,
            CelebrationRank::ClassII,
            CelebrationCategory::Feast,
            LiturgicalColor::White,
            7,
        ),
        feast(
            10,
            18,
            "st-luke"@,
            "S. Lucae"@,
            "St. Luke, Evangelist"@,
            CelebrationRank::ClassII,
            CelebrationCategory::Feast,
            LiturgicalColor::Red,
            7,
        ),
        feast(
            10,
            28,
            "ss-simon-jude"@,
            "Ss. Simonis et Judae"@,
            "Sts. Simon and Jude, Apostles"@,
            CelebrationRank::ClassII,
            CelebrationCategory::Feast,
            LiturgicalColor::Red,
            7,
        ),
    ]
}

/// The feasts of November.
pub open spec fn table_november() -> Seq<FixedFeastView> {
    seq![
        feast(
            11,
            1,
            "all-saints"@,
            "Omnium Sanctorum"@,
            "All Saints"@,
            CelebrationRank::ClassI,
            CelebrationCategory::Solemnity,
            LiturgicalColor::White,
            4,
        ),
        feast(
            11,
            2,
            "all-souls"@,
            "In Commemoratione Omnium Fidelium Defunctorum"@,
            "All Souls Day"@,
            CelebrationRank::ClassI,
            CelebrationCategory::Solemnity,
            LiturgicalColor::Black,
            4,
        ),
        feast(
            11,
            9,
            "dedication-lateran"@,
            "Dedicatio Archibasilicae Ss.mi Salvatoris"@,
            "Dedication of the Lateran Basilica"@,
            CelebrationRank::ClassII,
            CelebrationCategory::Feast,
            LiturgicalColor::White,
            7,
        ),
        feast(
            11,
            21,
            "presentation-bvm"@,
            "Praesentatio B.M.V."@,
            "Presentation of the BVM"@,
            CelebrationRank::ClassIII,
            CelebrationCategory::Feast,
            LiturgicalColor::White,
            9,
        ),
        feast(
            11,
            30,
            "st-andrew"@,
            "S. Andreae"@,
            "St. Andrew, Apostle"@,
            CelebrationRank::ClassII,
            CelebrationCategory::Feast,
            LiturgicalColor::Red,
            7,
        ),
    ]
}

/// The feasts of November, the feasts added to the table later.
pub open spec fn table_november_more() -> Seq<FixedFeastView> {
    seq![
        feast(
            11,
            11,
            "st-martin-of-tours"@,
            "S. Martini Episcopi"@,
            "St. Martin of Tours, Bishop"@,
            CelebrationRank::ClassIII,
            CelebrationCategory::Feast,
            LiturgicalColor::White,
            9,
        ),
        feast(
            11,
            22,
            "st-cecilia"@,
            "S. Caeciliae"@,
            "St. Cecilia, Virgin and Martyr"@,
            CelebrationRank::ClassIII,
            CelebrationCategory::Feast,
            LiturgicalColor::Red,
            9,
        ),
        feast(
            11,
            25,
            "st-catherine-of-alexandria"@,
            "S. Catharinae"@,
            "St. Catherine of Alexandria, Virgin and Martyr"@,
            CelebrationRank::ClassIII,
            CelebrationCategory::Feast,
            LiturgicalColor::Red,
            9,
        ),
    ]
}

/// The feasts of December.
pub open spec fn table_december() -> Seq<FixedFeastView> {
    seq![
        feast(
            12,
            8,
            "immaculate-conception"@,
            "In Conceptione Immaculata B.M.V."@,
            "Immaculate Conception of the BVM"@,
            CelebrationRank::ClassI,
            CelebrationCategory::Solemnity,
            LiturgicalColor::White,
            4,
        ),
        feast(
            12,
            21,
            "st-thomas-apostle"@,
            "S. Thomae Apostoli"@,
            "St. Thomas, Apostle"@,
            CelebrationRank::ClassII,
            CelebrationCategory::Feast,
            LiturgicalColor::Red,
            7,
        ),
        feast(
            12,
            25,
            "christmas"@,
            "In Nativitate Domini"@,
            "The Nativity of Our Lord"@,
            CelebrationRank::ClassI,
            CelebrationCategory::Solemnity,
            LiturgicalColor::White,
            1,
        ),
        feast(
            12,
            26,
            "st-stephen"@,
            "S. Stephani Protomartyris"@,
            "St. Stephen, Protomartyr"@,
            CelebrationRank::ClassII,
            CelebrationCategory::Feast,
            LiturgicalColor::Red,
            5,
        ),
        feast(
            12,
            27,
            "st-john-evangelist"@,
            "S. Joannis Apostoli et Evangelistae"@,
            "St. John, Apostle and Evangelist"@,
            CelebrationRank::ClassII,
            CelebrationCategory::Feast,
            LiturgicalColor::White,
            5,
        ),
        feast(
            12,
            28,
            "holy-innocents"@,
            "Ss. Innocentium"@,
            "Holy Innocents"@,
            CelebrationRank::ClassII,
            CelebrationCategory::Feast,
            LiturgicalColor::Red,
            5,
        ),
        feast(
            12,
            31,
            "st-sylvester"@,
            "S. Silvestri I"@,
            "St. Sylvester I, Pope"@,
            CelebrationRank::ClassIII,
            CelebrationCategory::Feast,
            LiturgicalColor::White,
            9,
        ),
    ]
}

/// The table of the feasts of fixed date, month by month.
pub open spec fn feast_table() -> Seq<FixedFeastView> {
    table_january()
        + table_february()
        + table_march()
        + table_april()
        + table_may()
        + table_june()
        + table_july()
        + table_august()
        + table_september()
        + table_october()
        + table_november()
        + table_november_more()
        + table_december()
}

/// The feasts of January.
fn january_feasts() -> (r: Vec<FixedFeast>)
    ensures
        feast_views(r@) == table_january(),
{
    let r = vec![
        fixed(
            1,
            1,
            "circumcision",
            "In Circumcisione Domini",
            "Circumcision of Our Lord",
            CelebrationRank::ClassI,
            CelebrationCategory::FeastOfLord,
            LiturgicalColor::White,
            4,
        ),
        fixed(
            1,
            6,
            "epiphany",
            "In Epiphania Domini",
            "The Epiphany of Our Lord",
            CelebrationRank::ClassI,
            CelebrationCategory::FeastOfLord,
            LiturgicalColor::White,
            4,
        ),
        fixed(
            1,
            25,
            "conversion-of-st-paul",
            "Conversio S. Pauli",
            "Conversion of St. Paul",
            CelebrationRank::ClassIII,
            CelebrationCategory::Feast,
            LiturgicalColor::White,
            9,
        ),
        fixed(
            1,
            28,
            "st-thomas-aquinas",
            "S. Thomae de Aquino",
            "St. Thomas Aquinas",
            CelebrationRank::ClassIII,
            CelebrationCategory::Feast,
            LiturgicalColor::White,
            9,
        ),
    ];
    assert(feast_views(r@) =~= table_january());
    r
}

/// The feasts of February.
fn february_feasts() -> (r: Vec<FixedFeast>)
    ensures
        feast_views(r@) == table_february(),
{
    let r = vec![
        fixed(
            2,
            2,
            "purification-bvm",
            "In Purificatione B.M.V.",
            "Purification of the BVM (Candlemas)",
            CelebrationRank::ClassII,
            CelebrationCategory::FeastOfLord,
            LiturgicalColor::White,
            5,
        ),
        fixed(
            2,
            22,
            "chair-of-st-peter",
            "Cathedra S. Petri",
            "Chair of St. Peter",
            CelebrationRank::ClassII,
            CelebrationCategory::Feast,
            LiturgicalColor::White,
            7,
        ),
        fixed(
            2,
            24,
            "st-matthias",
            "S. Matthiae",
            "St. Matthias, Apostle",
            CelebrationRank::ClassII,
            CelebrationCategory::Feast,
            LiturgicalColor::Red,
            7,
        ),
    ];
    assert(feast_views(r@) =~= table_february());
    r
}

/// The feasts of March.
fn march_feasts() -> (r: Vec<FixedFeast>)
    ensures
        feast_views(r@) == table_march(),
{
    let r = vec![
        fixed(
            3,
            7,
            "st-perpetua-felicity",
            "Ss. Perpetuae et Felicitatis",
            "Sts. Perpetua and Felicity, Martyrs",
            CelebrationRank::ClassIII,
            CelebrationCategory::Feast,
            LiturgicalColor::Red,
            9,
        ),
        fixed(
            3,
            12,
            "st-gregory-great",
            "S. Gregorii I Papae",
            "St. Gregory the Great, Pope and Doctor",
            CelebrationRank::ClassIII,
            CelebrationCategory::Feast,
            LiturgicalColor::White,
            9,
        ),
        fixed(
            3,
            17,
            "st-patrick",
            "S. Patricii",
            "St. Patrick, Bishop and Confessor",
            CelebrationRank::ClassIII,
            CelebrationCategory::Feast,
            LiturgicalColor::White,
            9,
        ),
        fixed(
            3,
            19,
            "st-joseph",
            "S. Joseph Sponsi B.M.V.",
            "St. Joseph, Spouse of the BVM",
            CelebrationRank::ClassI,
            CelebrationCategory::Solemnity,
            LiturgicalColor::White,
            4,
        ),
        fixed(
            3,
            25,
            "annunciation",
            "In Annuntiatione B.M.V.",
            "The Annunciation of the BVM",
            CelebrationRank::ClassI,
            CelebrationCategory::FeastOfLord,
            LiturgicalColor::White,
            4,
        ),
    ];
    assert(feast_views(r@) =~= table_march());
    r
}

/// The feasts of April.
fn april_feasts() -> (r: Vec<FixedFeast>)
    ensures
        feast_views(r@) == table_april(),
{
    let r = vec![
        fixed(
            4,
            2,
            "st-francis-of-paola",
            "S. Francisci de Paula",
            "St. Francis of Paola, Confessor",
            CelebrationRank::ClassIII,
            CelebrationCategory::Feast,
            LiturgicalColor::White,
            9,
        ),
        fixed(
            4,
            25,
            "st-mark",
            "S. Marci",
            "St. Mark, Evangelist",
            CelebrationRank::ClassII,
            CelebrationCategory::Feast,
            LiturgicalColor::Red,
            7,
        ),
    ];
    assert(feast_views(r@) =~= table_april());
    r
}

/// The feasts of May.
fn may_feasts() -> (r: Vec<FixedFeast>)
    ensures
        feast_views(r@) == table_may(),
{
    let r = vec![
        fixed(
            5,
            1,
            "st-joseph-worker",
            "S. Joseph Opificis",
            "St. Joseph the Worker",
            CelebrationRank::ClassI,
            CelebrationCategory::Solemnity,
            LiturgicalColor::White,
            4,
        ),
        fixed(
            5,
            3,
            "finding-holy-cross",
            "Inventio S. Crucis",
            "Finding of the Holy Cross",
            CelebrationRank::ClassIII,
            CelebrationCategory::Feast,
            LiturgicalColor::Red,
            9,
        ),
        fixed(
            5,
            11,
            "ss-philip-james",
            "Ss. Philippi et Jacobi",
            "Sts. Philip and James, Apostles",
            CelebrationRank::ClassII,
            CelebrationCategory::Feast,
            LiturgicalColor::Red,
            7,
        ),
        fixed(
            5,
            31,
            "queenship-of-mary",
            "B.M.V. Reginae",
            "Queenship of the BVM",
            CelebrationRank::ClassII,
            CelebrationCategory::Feast,
            LiturgicalColor::White,
            7,
        ),
    ];
    assert(feast_views(r@) =~= table_may());
    r
}

/// The feasts of June.
fn june_feasts() -> (r: Vec<FixedFeast>)
    ensures
        feast_views(r@) == table_june(),
{
    let r = vec![
        fixed(
            6,
            24,
            "nativity-of-st-john-baptist",
            "In Nativitate S. Joannis Baptistae",
            "Nativity of St. John the Baptist",
            CelebrationRank::ClassI,
            CelebrationCategory::Solemnity,
            LiturgicalColor::White,
            4,
        ),
        fixed(
            6,
            29,
            "ss-peter-paul",
            "Ss. Petri et Pauli",
            "Sts. Peter and Paul, Apostles",
            CelebrationRank::ClassI,
            CelebrationCategory::Solemnity,
            LiturgicalColor::Red,
            4,
        ),
    ];
    assert(feast_views(r@) =~= table_june());
    r
}

/// The feasts of July.
fn july_feasts() -> (r: Vec<FixedFeast>)
    ensures
        feast_views(r@) == table_july(),
{
    let r = vec![
        fixed(
            7,
            2,
            "visitation-bvm",
            "Visitatio B.M.V.",
            "Visitation of the BVM",
            CelebrationRank::ClassII,
            CelebrationCategory::Feast,
            LiturgicalColor::White,
            7,
        ),
        fixed(
            7,
            25,
            "st-james-greater",
            "S. Jacobi Majoris",
            "St. James the Greater, Apostle",
            CelebrationRank::ClassII,
            CelebrationCategory::Feast,
            LiturgicalColor::Red,
            7,
        ),
        fixed(
            7,
            26,
            "st-anne",
            "S. Annae Matris B.M.V.",
            "St. Anne, Mother of the BVM",
            CelebrationRank::ClassII,
            CelebrationCategory::Feast,
            LiturgicalColor::White,
            7,
        ),
    ];
    assert(feast_views(r@) =~= table_july());
    r
}

/// The feasts of August.
fn august_feasts() -> (r: Vec<FixedFeast>)
    ensures
        feast_views(r@) == table_august(),
{
    let r = vec![
        fixed(
            8,
            6,
            "transfiguration",
            "In Transfiguratione Domini",
            "The Transfiguration of Our Lord",
            CelebrationRank::ClassII,
            CelebrationCategory::FeastOfLord,
            LiturgicalColor::White,
            5,
        ),
        fixed(
            8,
            10,
            "st-lawrence",
            "S. Laurentii",
            "St. Lawrence, Martyr",
            CelebrationRank::ClassII,
            CelebrationCategory::Feast,
            LiturgicalColor::Red,
            7,
        ),
        fixed(
            8,
            15,
            "assumption-bvm",
            "In Assumptione B.M.V.",
            "The Assumption of the BVM",
            CelebrationRank::ClassI,
            CelebrationCategory::Solemnity,
            LiturgicalColor::White,
            4,
        ),
        fixed(
            8,
            22,
            "immaculate-heart-of-mary",
            "Immaculati Cordis B.M.V.",
            "Immaculate Heart of Mary",
            CelebrationRank::ClassII,
            CelebrationCategory::Feast,
            LiturgicalColor::White,
            7,
        ),
        fixed(
            8,
            24,
            "st-bartholomew",
            "S. Bartholomaei",
            "St. Bartholomew, Apostle",
            CelebrationRank::ClassII,
            CelebrationCategory::Feast,
            LiturgicalColor::Red,
            7,
        ),
        fixed(
            8,
            28,
            "st-augustine",
            "S. Augustini",
            "St. Augustine, Bishop and Doctor",
            CelebrationRank::ClassIII,
            CelebrationCategory::Feast,
            LiturgicalColor::White,
            9,
        ),
        fixed(
            8,
            29,
            "beheading-john-baptist",
            "In Decollatione S. Joannis Baptistae",
            "Beheading of St. John the Baptist",
            CelebrationRank::ClassIII,
            CelebrationCategory::Feast,
            LiturgicalColor::Red,
            9,
        ),
    ];
    assert(feast_views(r@) =~= table_august());
    r
}

/// The feasts of September.
fn september_feasts() -> (r: Vec<FixedFeast>)
    ensures
        feast_views(r@) == table_september(),
{
    let r = vec![
        fixed(
            9,
            8,
            "nativity-bvm",
            "In Nativitate B.M.V.",
            "Nativity of the BVM",
            CelebrationRank::ClassII,
            CelebrationCategory::Feast,
            LiturgicalColor::White,
            7,
        ),
        fixed(
            9,
            14,
            "exaltation-holy-cross",
            "In Exaltatione S. Crucis",
            "Exaltation of the Holy Cross",
            CelebrationRank::ClassII,
            CelebrationCategory::FeastOfLord,
            LiturgicalColor::Red,
            5,
        ),
        fixed(
            9,
            15,
            "seven-sorrows-bvm",
            "Septem Dolorum B.M.V.",
            "Seven Sorrows of the BVM",
            CelebrationRank::ClassII,
            CelebrationCategory::Feast,
            LiturgicalColor::White,
            7,
        ),
        fixed(
            9,
            21,
            "st-matthew",
            "S. Matthaei",
            "St. Matthew, Apostle and Evangelist",
            CelebrationRank::ClassII,
            CelebrationCategory::Feast,
            LiturgicalColor::Red,
            7,
        ),
        fixed(
            9,
            29,
            "st-michael",
            "Dedicatio S. Michaelis Archangeli",
            "St. Michael the Archangel",
            CelebrationRank::ClassI,
            CelebrationCategory::Solemnity,
            LiturgicalColor::White,
            4,
        ),
    ];
    assert(feast_views(r@) =~= table_september());
    r
}

/// The feasts of October.
fn october_feasts() -> (r: Vec<FixedFeast>)
    ensures
        feast_views(r@) == table_october(),
{
    let r = vec![
        fixed(
            10,
            7,
            "holy-rosary",
            "B.M.V. a Rosario",
            "Our Lady of the Rosary",
            CelebrationRank::ClassII,
            CelebrationCategory::Feast,
            LiturgicalColor::White,
            7,
        ),
        fixed(
            10,
            11,
            "divine-motherhood-bvm",
            "Maternitatis B.M.V.",
            "Divine Motherhood of the BVM",
            CelebrationRank::ClassII,
            CelebrationCategory::Feast,
            LiturgicalColor::White,
            7,
        ),
        fixed(
            10,
            18,
            "st-luke",
            "S. Lucae",
            "St. Luke, Evangelist",
            CelebrationRank::ClassII,
            CelebrationCategory::Feast,
            LiturgicalColor::Red,
            7,
        ),
        fixed(
            10,
            28,
            "ss-simon-jude",
            "Ss. Simonis et Judae",
            "Sts. Simon and Jude, Apostles",
            CelebrationRank::ClassII,
            CelebrationCategory::Feast,
            LiturgicalColor::Red,
            7,
        ),
    ];
    assert(feast_views(r@) =~= table_october());
    r
}

/// The feasts of November.
fn november_feasts() -> (r: Vec<FixedFeast>)
    ensures
        feast_views(r@) == table_november(),
{
    let r = vec![
        fixed(
            11,
            1,
            "all-saints",
            "Omnium Sanctorum",
            "All Saints",
            CelebrationRank::ClassI,
            CelebrationCategory::Solemnity,
            LiturgicalColor::White,
            4,
        ),
        fixed(
            11,
            2,
            "all-souls",
            "In Commemoratione Omnium Fidelium Defunctorum",
            "All Souls Day",
            CelebrationRank::ClassI,
            CelebrationCategory::Solemnity,
            LiturgicalColor::Black,
            4,
        ),
        fixed(
            11,
            9,
            "dedication-lateran",
            "Dedicatio Archibasilicae Ss.mi Salvatoris",
            "Dedication of the Lateran Basilica",
            CelebrationRank::ClassII,
            CelebrationCategory::Feast,
            LiturgicalColor::White,
            7,
        ),
        fixed(
            11,
            21,
            "presentation-bvm",
            "Praesentatio B.M.V.",
            "Presentation of the BVM",
            CelebrationRank::ClassIII,
            CelebrationCategory::Feast,
            LiturgicalColor::White,
            9,
        ),
        fixed(
            11,
            30,
            "st-andrew",
            "S. Andreae",
            "St. Andrew, Apostle",
            CelebrationRank::ClassII,
            CelebrationCategory::Feast,
            LiturgicalColor::Red,
            7,
        ),
    ];
    assert(feast_views(r@) =~= table_november());
    r
}

/// The feasts of November, the feasts added to the table later.
fn november_more_feasts() -> (r: Vec<FixedFeast>)
    ensures
        feast_views(r@) == table_november_more(),
{
    let r = vec![
        fixed(
            11,
            11,
            "st-martin-of-tours",
            "S. Martini Episcopi",
            "St. Martin of Tours, Bishop",
            CelebrationRank::ClassIII,
            CelebrationCategory::Feast,
            LiturgicalColor::White,
            9,
        ),
        fixed(
            11,
            22,
            "st-cecilia",
            "S. Caeciliae",
            "St. Cecilia, Virgin and Martyr",
            CelebrationRank::ClassIII,
            CelebrationCategory::Feast,
            LiturgicalColor::Red,
            9,
        ),
        fixed(
            11,
            25,
            "st-catherine-of-alexandria",
            "S. Catharinae",
            "St. Catherine of Alexandria, Virgin and Martyr",
            CelebrationRank::ClassIII,
            CelebrationCategory::Feast,
            LiturgicalColor::Red,
            9,
        ),
    ];
    assert(feast_views(r@) =~= table_november_more());
    r
}

/// The feasts of December.
fn december_feasts() -> (r: Vec<FixedFeast>)
    ensures
        feast_views(r@) == table_december(),
{
    let r = vec![
        fixed(
            12,
            8,
            "immaculate-conception",
            "In Conceptione Immaculata B.M.V.",
            "Immaculate Conception of the BVM",
            CelebrationRank::ClassI,
            CelebrationCategory::Solemnity,
            LiturgicalColor::White,
            4,
        ),
        fixed(
            12,
            21,
            "st-thomas-apostle",
            "S. Thomae Apostoli",
            "St. Thomas, Apostle",
            CelebrationRank::ClassII,
            CelebrationCategory::Feast,
            LiturgicalColor::Red,
            7,
        ),
        fixed(
            12,
            25,
            "christmas",
            "In Nativitate Domini",
            "The Nativity of Our Lord",
            CelebrationRank::ClassI,
            CelebrationCategory::Solemnity,
            LiturgicalColor::White,
            1,
        ),
        fixed(
            12,
            26,
            "st-stephen",
            "S. Stephani Protomartyris",
            "St. Stephen, Protomartyr",
            CelebrationRank::ClassII,
            CelebrationCategory::Feast,
            LiturgicalColor::Red,
            5,
        ),
        fixed(
            12,
            27,
            "st-john-evangelist",
            "S. Joannis Apostoli et Evangelistae",
            "St. John, Apostle and Evangelist",
            CelebrationRank::ClassII,
            CelebrationCategory::Feast,
            LiturgicalColor::White,
            5,
        ),
        fixed(
            12,
            28,
            "holy-innocents",
            "Ss. Innocentium",
            "Holy Innocents",
            CelebrationRank::ClassII,
            CelebrationCategory::Feast,
            LiturgicalColor::Red,
            5,
        ),
        fixed(
            12,
            31,
            "st-sylvester",
            "S. Silvestri I",
            "St. Sylvester I, Pope",
            CelebrationRank::ClassIII,
            CelebrationCategory::Feast,
            LiturgicalColor::White,
            9,
        ),
    ];
    assert(feast_views(r@) =~= table_december());
    r
}

/// Adds the feasts of `more` to the end of `all`.
fn add_feasts(all: &mut Vec<FixedFeast>, more: Vec<FixedFeast>)
    ensures
        feast_views(final(all)@) == feast_views(old(all)@) + feast_views(more@),
{
    let mut more = more;
    let ghost before = all@;
    let ghost added = more@;
    all.append(&mut more);
    assert(feast_views(before + added) =~= feast_views(before) + feast_views(added));
}

/// The table of the feasts of fixed date.
pub fn major_feasts() -> (r: Vec<FixedFeast>)
    ensures
        feast_views(r@) == feast_table(),
        r@.len() == 54,
{
    let mut all = january_feasts();
    add_feasts(&mut all, february_feasts());
    add_feasts(&mut all, march_feasts());
    add_feasts(&mut all, april_feasts());
    add_feasts(&mut all, may_feasts());
    add_feasts(&mut all, june_feasts());
    add_feasts(&mut all, july_feasts());
    add_feasts(&mut all, august_feasts());
    add_feasts(&mut all, september_feasts());
    add_feasts(&mut all, october_feasts());
    add_feasts(&mut all, november_feasts());
    add_feasts(&mut all, november_more_feasts());
    add_feasts(&mut all, december_feasts());
    proof {
        lemma_feast_table();
        assert(feast_views(all@).len() == all@.len());
    }
    all
}

/// Every feast of January is sound.
proof fn lemma_table_january()
    ensures
        all_sound(table_january()),
        table_january().len() == 4,
{
    reveal_strlit("circumcision");
    reveal_strlit("epiphany");
    reveal_strlit("conversion-of-st-paul");
    reveal_strlit("st-thomas-aquinas");
}

/// Every feast of February is sound.
proof fn lemma_table_february()
    ensures
        all_sound(table_february()),
        table_february().len() == 3,
{
    reveal_strlit("purification-bvm");
    reveal_strlit("chair-of-st-peter");
    reveal_strlit("st-matthias");
}

/// Every feast of March is sound.
proof fn lemma_table_march()
    ensures
        all_sound(table_march()),
        table_march().len() == 5,
{
    reveal_strlit("st-perpetua-felicity");
    reveal_strlit("st-gregory-great");
    reveal_strlit("st-patrick");
    reveal_strlit("st-joseph");
    reveal_strlit("annunciation");
}

/// Every feast of April is sound.
proof fn lemma_table_april()
    ensures
        all_sound(table_april()),
        table_april().len() == 2,
{
    reveal_strlit("st-francis-of-paola");
    reveal_strlit("st-mark");
}

/// Every feast of May is sound.
proof fn lemma_table_may()
    ensures
        all_sound(table_may()),
        table_may().len() == 4,
{
    reveal_strlit("st-joseph-worker");
    reveal_strlit("finding-holy-cross");
    reveal_strlit("ss-philip-james");
    reveal_strlit("queenship-of-mary");
}

/// Every feast of June is sound.
proof fn lemma_table_june()
    ensures
        all_sound(table_june()),
        table_june().len() == 2,
{
    reveal_strlit("nativity-of-st-john-baptist");
    reveal_strlit("ss-peter-paul");
}

/// Every feast of July is sound.
proof fn lemma_table_july()
    ensures
        all_sound(table_july()),
        table_july().len() == 3,
{
    reveal_strlit("visitation-bvm");
    reveal_strlit("st-james-greater");
    reveal_strlit("st-anne");
}

/// Every feast of August is sound.
proof fn lemma_table_august()
    ensures
        all_sound(table_august()),
        table_august().len() == 7,
{
    reveal_strlit("transfiguration");
    reveal_strlit("st-lawrence");
    reveal_strlit("assumption-bvm");
    reveal_strlit("immaculate-heart-of-mary");
    reveal_strlit("st-bartholomew");
    reveal_strlit("st-augustine");
    reveal_strlit("beheading-john-baptist");
}

/// Every feast of September is sound.
proof fn lemma_table_september()
    ensures
        all_sound(table_september()),
        table_september().len() == 5,
{
    reveal_strlit("nativity-bvm");
    reveal_strlit("exaltation-holy-cross");
    reveal_strlit("seven-sorrows-bvm");
    reveal_strlit("st-matthew");
    reveal_strlit("st-michael");
}

/// Every feast of October is sound.
proof fn lemma_table_october()
    ensures
        all_sound(table_october()),
        table_october().len() == 4,
{
    reveal_strlit("holy-rosary");
    reveal_strlit("divine-motherhood-bvm");
    reveal_strlit("st-luke");
    reveal_strlit("ss-simon-jude");
}

/// Every feast of November is sound.
proof fn lemma_table_november()
    ensures
        all_sound(table_november()),
        table_november().len() == 5,
{
    reveal_strlit("all-saints");
    reveal_strlit("all-souls");
    reveal_strlit("dedication-lateran");
    reveal_strlit("presentation-bvm");
    reveal_strlit("st-andrew");
}

/// Every feast of November, the feasts added to the table later is sound.
proof fn lemma_table_november_more()
    ensures
        all_sound(table_november_more()),
        table_november_more().len() == 3,
{
    reveal_strlit("st-martin-of-tours");
    reveal_strlit("st-cecilia");
    reveal_strlit("st-catherine-of-alexandria");
}

/// Every feast of December is sound.
proof fn lemma_table_december()
    ensures
        all_sound(table_december()),
        table_december().len() == 7,
{
    reveal_strlit("immaculate-conception");
    reveal_strlit("st-thomas-apostle");
    reveal_strlit("christmas");
    reveal_strlit("st-stephen");
    reveal_strlit("st-john-evangelist");
    reveal_strlit("holy-innocents");
    reveal_strlit("st-sylvester");
}

/// Two sound tables joined make a sound table.
proof fn lemma_all_sound_joined(a: Seq<FixedFeastView>, b: Seq<FixedFeastView>)
    requires
        all_sound(a),
        all_sound(b),
    ensures
        all_sound(a + b),
        (a + b).len() == a.len() + b.len(),
{
    assert forall|i: int| 0 <= i < (a + b).len() implies is_sound_feast(#[trigger] (a + b)[i]) by {
        if i < a.len() {
            assert((a + b)[i] == a[i]);
        } else {
            assert((a + b)[i] == b[i - a.len()]);
        }
    }
}

/// The table holds 54 feasts, and every one of them is sound.
pub proof fn lemma_feast_table()
    ensures
        all_sound(feast_table()),
        feast_table().len() == 54,
{
    lemma_table_january();
    lemma_table_february();
    lemma_table_march();
    lemma_table_april();
    lemma_table_may();
    lemma_table_june();
    lemma_table_july();
    lemma_table_august();
    lemma_table_september();
    lemma_table_october();
    lemma_table_november();
    lemma_table_november_more();
    lemma_table_december();
    let table = table_january();
    lemma_all_sound_joined(table, table_february());
    let table = table + table_february();
    lemma_all_sound_joined(table, table_march());
    let table = table + table_march();
    lemma_all_sound_joined(table, table_april());
    let table = table + table_april();
    lemma_all_sound_joined(table, table_may());
    let table = table + table_may();
    lemma_all_sound_joined(table, table_june());
    let table = table + table_june();
    lemma_all_sound_joined(table, table_july());
    let table = table + table_july();
    lemma_all_sound_joined(table, table_august());
    let table = table + table_august();
    lemma_all_sound_joined(table, table_september());
    let table = table + table_september();
    lemma_all_sound_joined(table, table_october());
    let table = table + table_october();
    lemma_all_sound_joined(table, table_november());
    let table = table + table_november();
    lemma_all_sound_joined(table, table_november_more());
    let table = table + table_november_more();
    lemma_all_sound_joined(table, table_december());
    let table = table + table_december();
}

/// The celebrations of the feasts of `table` that fall on the month and
/// day of `date`, in the order of the table.
pub open spec fn feasts_on(table: Seq<FixedFeastView>, date: Date) -> Seq<CelebrationView>
    decreases table.len(),
{
    if table.len() == 0 {
        Seq::empty()
    } else if table.last().month == date.month && table.last().day == date.day {
        feasts_on(table.drop_last(), date).push(table.last().celebration)
    } else {
        feasts_on(table.drop_last(), date)
    }
}

/// The feast of the Holy Name of Jesus.
pub open spec fn holy_name_view() -> CelebrationView {
    celebration_of(
        "holy-name-of-jesus"@,
        "Ss.mi Nominis Jesu"@,
        "The Most Holy Name of Jesus"@,
        CelebrationRank::ClassII,
        CelebrationCategory::FeastOfLord,
        LiturgicalColor::White,
        5,
    )
}

/// The feast of the Holy Family.
pub open spec fn holy_family_view() -> CelebrationView {
    celebration_of(
        "holy-family"@,
        "Sanctae Familiae"@,
        "The Holy Family"@,
        CelebrationRank::ClassI,
        CelebrationCategory::FeastOfLord,
        LiturgicalColor::White,
        4,
    )
}

/// The first Sunday from day `first` to day `last`, if there is one.
pub open spec fn first_sunday_between(first: int, last: int) -> Option<int> {
    if sunday_on_or_after(first) <= last {
        Some(sunday_on_or_after(first))
    } else {
        None
    }
}

/// The day of the Holy Name of Jesus: the Sunday from 2 to 5 January, or
/// 2 January when none of these days is a Sunday.
pub open spec fn holy_name_day(year: int) -> int {
    match first_sunday_between(day_number_of(year, 1, 2), day_number_of(year, 1, 5)) {
        Some(sunday) => sunday,
        None => day_number_of(year, 1, 2),
    }
}

/// The day of the Holy Family at the beginning of a year: the Sunday within
/// the octave of the Christmas before, from 26 December to 1 January, or
/// 30 December when Christmas itself was a Sunday.
pub open spec fn holy_family_day(year: int) -> int {
    if weekday_of(day_number_of(year - 1, 12, 25)) == Weekday::Sun {
        day_number_of(year - 1, 12, 30)
    } else {
        match first_sunday_between(day_number_of(year - 1, 12, 26), day_number_of(year, 1, 1)) {
            Some(sunday) => sunday,
            None => day_number_of(year - 1, 12, 30),
        }
    }
}

/// The celebrations of the sanctoral cycle of the given year that fall on
/// `date`: the feasts of the table for its month and day, then the Holy
/// Name of Jesus and the Holy Family if they fall on it. The Holy Family
/// belongs to the year only if its day lies in the year.
pub open spec fn sanctoral_views(date: Date, year: int) -> Seq<CelebrationView> {
    let fixed = feasts_on(feast_table(), date);
    let named = if date.day_number() == holy_name_day(year) {
        fixed.push(holy_name_view())
    } else {
        fixed
    };
    if date.day_number() == holy_family_day(year) && in_year(holy_family_day(year), year) {
        named.push(holy_family_view())
    } else {
        named
    }
}

/// The Holy Family never falls within the year at whose beginning it is
/// looked for: the Sunday after Christmas is at the latest 31 December.
pub proof fn lemma_holy_family_in_old_year(year: int)
    ensures
        holy_family_day(year) < first_day_of_year(year),
        !in_year(holy_family_day(year), year),
{
    reveal(sunday_on_or_after);
    lemma_days_before_year_step(year - 1);
}

/// Every celebration of the sanctoral cycle has an identifier, and none
/// has the precedence of a Sunday of the second class.
pub proof fn lemma_sanctoral_views(date: Date, year: int)
    ensures
        forall|i: int|
            0 <= i < sanctoral_views(date, year).len() ==> {
                let c = #[trigger] sanctoral_views(date, year)[i];
                c.id.len() > 0 && c.precedence != 6 && 1 <= c.precedence <= 11
            },
{
    lemma_feast_table();
    lemma_feasts_on(feast_table(), date);
    reveal_strlit("holy-name-of-jesus");
    reveal_strlit("holy-family");
}

/// The feasts found for a day are feasts of the table.
proof fn lemma_feasts_on(table: Seq<FixedFeastView>, date: Date)
    requires
        all_sound(table),
    ensures
        forall|i: int|
            0 <= i < feasts_on(table, date).len() ==> {
                let c = #[trigger] feasts_on(table, date)[i];
                c.id.len() > 0 && c.precedence != 6 && 1 <= c.precedence <= 11
            },
    decreases table.len(),
{
    if table.len() > 0 {
        let rest = table.drop_last();
        assert forall|i: int| 0 <= i < rest.len() implies is_sound_feast(#[trigger] rest[i]) by {
            assert(rest[i] == table[i]);
        }
        lemma_feasts_on(rest, date);
        assert(is_sound_feast(table[table.len() - 1]));
    }
}

/// The first Sunday from `start` to `end`, if there is one.
pub fn first_sunday_from(start: Date, end: Date) -> (r: Option<Date>)
    requires
        start.valid(),
        end.valid(),
    ensures
        match r {
            Some(sunday) => sunday.valid() && first_sunday_between(
                start.day_number(),
                end.day_number(),
            ) == Some(sunday.day_number()),
            None => first_sunday_between(start.day_number(), end.day_number()).is_none(),
        },
{
    proof {
        lemma_sundays(start.day_number());
        lemma_valid_in_range(start);
        lemma_valid_in_range(end);
    }
    if end.is_before(&start) {
        return None;
    }
    let mut d = start;
    while d.is_before(&end)
        invariant
            start.valid(),
            end.valid(),
            d.valid(),
            day_in_range(start.day_number()),
            day_in_range(end.day_number()),
            start.day_number() <= d.day_number() <= end.day_number(),
            sunday_on_or_after(start.day_number()) == sunday_on_or_after(d.day_number()),
        decreases end.day_number() - d.day_number(),
    {
        proof {
            lemma_sundays(d.day_number());
        }
        if d.weekday() == Weekday::Sun {
            return Some(d);
        }
        d = d.plus_days(1);
    }
    proof {
        lemma_sundays(d.day_number());
    }
    if d.weekday() == Weekday::Sun {
        Some(d)
    } else {
        None
    }
}

/// The first Sunday of the given year from the day `d1` of month `m1` to
/// the day `d2` of month `m2`; `None` if there is none, or if one of the
/// two is no day of the calendar.
pub fn find_sunday_between(year: i32, m1: u32, d1: u32, m2: u32, d2: u32) -> (r: Option<Date>)
    ensures
        match r {
            Some(sunday) => sunday.valid() && valid_ymd(year as int, m1 as int, d1 as int)
                && valid_ymd(year as int, m2 as int, d2 as int) && first_sunday_between(
                day_number_of(year as int, m1 as int, d1 as int),
                day_number_of(year as int, m2 as int, d2 as int),
            ) == Some(sunday.day_number()),
            None => !valid_ymd(year as int, m1 as int, d1 as int) || !valid_ymd(
                year as int,
                m2 as int,
                d2 as int,
            ) || first_sunday_between(
                day_number_of(year as int, m1 as int, d1 as int),
                day_number_of(year as int, m2 as int, d2 as int),
            ).is_none(),
        },
{
    let start = match Date::from_ymd_opt(year, m1, d1) {
        Some(d) => d,
        None => { return None; },
    };
    let end = match Date::from_ymd_opt(year, m2, d2) {
        Some(d) => d,
        None => { return None; },
    };
    first_sunday_from(start, end)
}

/// The sanctoral cycle of a year: for every day of the year, the
/// celebrations of fixed date that fall on it.
#[derive(Debug)]
pub struct SanctoralCycle {
    year: i32,
    /// One list for every day of the year, from 1 January on; the list of a
    /// day without a feast is empty.
    days: Vec<Vec<Celebration>>,
}

/// The place of a day in its year, counted from 0 for 1 January.
pub open spec fn day_index(date: Date, year: int) -> int {
    date.day_number() - first_day_of_year(year)
}

/// The views of the lists of a sanctoral cycle, day by day.
pub open spec fn list_views(days: Seq<Vec<Celebration>>) -> Seq<Seq<CelebrationView>> {
    days.map_values(|list: Vec<Celebration>| celebration_views(list@))
}

/// Whether `lists` is the sanctoral cycle of the given year: one list for
/// every day of the year, from 1 January on, each with the celebrations
/// that [`sanctoral_views`] gives for its day.
pub open spec fn is_sanctoral_cycle(lists: Seq<Seq<CelebrationView>>, year: int) -> bool {
    &&& lists.len() == days_in_year(year)
    &&& forall|date: Date|
        date.valid() && in_year(date.day_number(), year) ==> lists[day_index(date, year)]
            == #[trigger] sanctoral_views(date, year)
}

impl SanctoralCycle {
    /// The year of the cycle.
    pub closed spec fn spec_year(&self) -> int {
        self.year as int
    }

    /// The lists of the cycle, one for every day of the year.
    pub closed spec fn lists(&self) -> Seq<Seq<CelebrationView>> {
        list_views(self.days@)
    }

    /// Whether this is the sanctoral cycle of its year. Every cycle that
    /// [`build_sanctoral_cycle`] makes is.
    pub closed spec fn wf(&self) -> bool {
        &&& MIN_YEAR < self.year <= MAX_YEAR
        &&& is_sanctoral_cycle(self.lists(), self.year as int)
    }

    #[verifier::type_invariant]
    spec fn inv(&self) -> bool {
        self.wf()
    }

    /// The year of the cycle.
    pub fn year(&self) -> (r: i32)
        ensures
            r == self.spec_year(),
    {
        self.year
    }

    /// The lists of the cycle, one for every day of the year from 1 January
    /// on; the list of a day without a feast is empty.
    pub fn days(&self) -> (r: &Vec<Vec<Celebration>>)
        ensures
            list_views(r@) == self.lists(),
            is_sanctoral_cycle(self.lists(), self.spec_year()),
    {
        proof {
            use_type_invariant(self);
        }
        &self.days
    }

    /// The celebrations that fall on `date`, or `None` when none does or
    /// when `date` is no day of the year.
    pub fn get(&self, date: Date) -> (r: Option<&Vec<Celebration>>)
        requires
            date.valid(),
        ensures
            match r {
                Some(list) => date.year == self.spec_year() && list@.len() > 0
                    && celebration_views(list@) == sanctoral_views(date, self.spec_year()),
                None => date.year != self.spec_year() || sanctoral_views(
                    date,
                    self.spec_year(),
                ).len() == 0,
            },
    {
        proof {
            use_type_invariant(self);
            lemma_valid_in_range(date);
        }
        if date.year != self.year {
            return None;
        }
        let jan1 = Date::from_ymd_opt(self.year, 1, 1).unwrap();
        let index = date.days_since(&jan1) as usize;
        assert(index < self.days.len());
        let list = &self.days[index];
        proof {
            assert(self.lists()[index as int] == celebration_views(list@));
            assert(celebration_views(list@).len() == list@.len());
        }
        if list.len() == 0 {
            None
        } else {
            Some(list)
        }
    }

    /// Whether a celebration falls on `date`.
    pub fn contains_key(&self, date: Date) -> (r: bool)
        requires
            date.valid(),
        ensures
            r == (date.year == self.spec_year() && sanctoral_views(date, self.spec_year()).len()
                > 0),
    {
        self.get(date).is_some()
    }
}

/// The celebrations that fall on `date` when the first `k` feasts of the
/// table have been entered, with the Holy Name of Jesus if `named`.
spec fn entered(date: Date, year: int, k: int, named: bool) -> Seq<CelebrationView> {
    let fixed = feasts_on(feast_table().take(k), date);
    if named && date.day_number() == holy_name_day(year) {
        fixed.push(holy_name_view())
    } else {
        fixed
    }
}

/// Whether the lists of `days` hold, for every day of the year, what has
/// been entered so far.
spec fn holds_entered(
    days: Seq<Vec<Celebration>>,
    year: int,
    k: int,
    named: bool,
) -> bool {
    &&& days.len() == days_in_year(year)
    &&& forall|date: Date|
        date.valid() && in_year(date.day_number(), year) ==> celebration_views(
            days[day_index(date, year)]@,
        ) == #[trigger] entered(date, year, k, named)
}

/// Enters `celebration` in the list of the day `on`.
fn enter(days: &mut Vec<Vec<Celebration>>, jan1: &Date, on: &Date, celebration: Celebration)
    requires
        jan1.valid(),
        on.valid(),
        0 <= on.day_number() - jan1.day_number() < old(days).len(),
    ensures
        final(days)@.len() == old(days)@.len(),
        celebration_views(final(days)@[on.day_number() - jan1.day_number()]@) == celebration_views(
            old(days)@[on.day_number() - jan1.day_number()]@,
        ).push(celebration@),
        forall|i: int|
            0 <= i < old(days)@.len() && i != on.day_number() - jan1.day_number()
                ==> final(days)@[i] == old(days)@[i],
{
    let index = on.days_since(jan1) as usize;
    let ghost before = days@[index as int]@;
    days[index].push(celebration);
    proof {
        assert(celebration_views(before.push(celebration)) =~= celebration_views(before).push(
            celebration@,
        ));
    }
}

/// The sanctoral cycle of the given year.
pub fn build_sanctoral_cycle(year: i32) -> (r: SanctoralCycle)
    requires
        MIN_YEAR < year <= MAX_YEAR,
    ensures
        r.wf(),
        r.spec_year() == year,
        is_sanctoral_cycle(r.lists(), year as int),
{
    let feasts = major_feasts();
    let jan1 = Date::from_ymd_opt(year, 1, 1).unwrap();
    let dec31 = Date::from_ymd_opt(year, 12, 31).unwrap();
    let length: i64 = dec31.days_since(&jan1) + 1;
    let ghost table = feast_table();

    let mut days: Vec<Vec<Celebration>> = Vec::new();
    let mut n: i64 = 0;
    while n < length
        invariant
            0 <= n <= length,
            days@.len() == n,
            forall|i: int| 0 <= i < n ==> (#[trigger] days@[i])@.len() == 0,
        decreases length - n,
    {
        days.push(Vec::new());
        n += 1;
    }
    proof {
        assert(table.take(0) =~= Seq::empty());
        assert forall|date: Date|
            date.valid() && in_year(date.day_number(), year as int) implies celebration_views(
            days@[day_index(date, year as int)]@,
        ) == #[trigger] entered(date, year as int, 0, false) by {
            let list = days@[day_index(date, year as int)];
            assert(list@.len() == 0);
            assert(celebration_views(list@) =~= Seq::empty());
        }
    }

    // The feasts of the table, each on its day of this year.
    let mut k: usize = 0;
    while k < feasts.len()
        invariant
            k <= feasts@.len(),
            MIN_YEAR < year <= MAX_YEAR,
            table == feast_table(),
            feast_views(feasts@) == table,
            jan1.valid(),
            jan1.day_number() == first_day_of_year(year as int),
            holds_entered(days@, year as int, k as int, false),
        decreases feasts@.len() - k,
    {
        let feast = &feasts[k];
        let ghost before = days@;
        let ghost row = table[k as int];
        proof {
            assert(feast_views(feasts@)[k as int] == feast@);
            let part = table.take(k + 1);
            assert(part.last() == row);
            assert(part.drop_last() =~= table.take(k as int));
        }
        match Date::from_ymd_opt(year, feast.month, feast.day) {
            Some(date) => {
                proof {
                    lemma_valid_in_range(date);
                }
                enter(&mut days, &jan1, &date, feast.celebration.clone());
                proof {
                    assert forall|other: Date|
                        other.valid() && in_year(
                            other.day_number(),
                            year as int,
                        ) implies celebration_views(days@[day_index(other, year as int)]@)
                        == #[trigger] entered(other, year as int, k + 1, false) by {
                        lemma_year_of_day_number(other, year as int);
                        assert(celebration_views(before[day_index(other, year as int)]@) == entered(
                            other,
                            year as int,
                            k as int,
                            false,
                        ));
                        if other.day_number() == date.day_number() {
                            lemma_day_number_injective(other, date);
                        }
                    }
                }
            },
            None => {
                proof {
                    assert forall|other: Date|
                        other.valid() && in_year(
                            other.day_number(),
                            year as int,
                        ) implies celebration_views(days@[day_index(other, year as int)]@)
                        == #[trigger] entered(other, year as int, k + 1, false) by {
                        lemma_year_of_day_number(other, year as int);
                        assert(celebration_views(before[day_index(other, year as int)]@) == entered(
                            other,
                            year as int,
                            k as int,
                            false,
                        ));
                    }
                }
            },
        }
        k += 1;
    }
    proof {
        assert(table.take(k as int) =~= table);
    }

    // The Holy Name of Jesus: the Sunday from 2 to 5 January, or 2 January.
    let holy_name_date = match find_sunday_between(year, 1, 2, 1, 5) {
        Some(sunday) => sunday,
        None => Date::from_ymd_opt(year, 1, 2).unwrap(),
    };
    let ghost before = days@;
    proof {
        lemma_sundays(day_number_of(year as int, 1, 2));
        lemma_valid_in_range(holy_name_date);
        lemma_day_number_within_year(holy_name_date);
        assert(holy_name_date.day_number() == holy_name_day(year as int));
        assert(in_year(holy_name_date.day_number(), year as int));
    }
    enter(
        &mut days,
        &jan1,
        &holy_name_date,
        Celebration::new(
            "holy-name-of-jesus",
            "Ss.mi Nominis Jesu",
            "The Most Holy Name of Jesus",
            CelebrationRank::ClassII,
            CelebrationCategory::FeastOfLord,
            LiturgicalColor::White,
            5,
        ),
    );
    proof {
        assert forall|other: Date|
            other.valid() && in_year(other.day_number(), year as int) implies celebration_views(
            days@[day_index(other, year as int)]@,
        ) == #[trigger] entered(other, year as int, k as int, true) by {
            assert(celebration_views(before[day_index(other, year as int)]@) == entered(
                other,
                year as int,
                k as int,
                false,
            ));
        }
    }

    // The Holy Family: the Sunday within the octave of the Christmas before,
    // from 26 December to 1 January, or 30 December when Christmas was a
    // Sunday. It is entered only if it falls in this year.
    let dec25_prev = Date::from_ymd_opt(year - 1, 12, 25).unwrap();
    let holy_family_date = if dec25_prev.weekday() == Weekday::Sun {
        Date::from_ymd_opt(year - 1, 12, 30).unwrap()
    } else {
        let first = Date::from_ymd_opt(year - 1, 12, 26).unwrap();
        match first_sunday_from(first, jan1) {
            Some(sunday) => sunday,
            None => Date::from_ymd_opt(year - 1, 12, 30).unwrap(),
        }
    };
    proof {
        assert(holy_family_date.day_number() == holy_family_day(year as int));
        lemma_valid_in_range(holy_family_date);
        if holy_family_date.year == year {
            assert(in_year(holy_family_day(year as int), year as int));
        } else if in_year(holy_family_day(year as int), year as int) {
            lemma_year_of_day_number(holy_family_date, year as int);
        }
    }
    if holy_family_date.year == year {
        let ghost before = days@;
        enter(
            &mut days,
            &jan1,
            &holy_family_date,
            Celebration::new(
                "holy-family",
                "Sanctae Familiae",
                "The Holy Family",
                CelebrationRank::ClassI,
                CelebrationCategory::FeastOfLord,
                LiturgicalColor::White,
                4,
            ),
        );
        proof {
            assert forall|other: Date|
                other.valid() && in_year(other.day_number(), year as int) implies celebration_views(
                days@[day_index(other, year as int)]@,
            ) == #[trigger] sanctoral_views(other, year as int) by {
                assert(celebration_views(before[day_index(other, year as int)]@) == entered(
                    other,
                    year as int,
                    k as int,
                    true,
                ));
            }
        }
    } else {
        proof {
            assert forall|other: Date|
                other.valid() && in_year(other.day_number(), year as int) implies celebration_views(
                days@[day_index(other, year as int)]@,
            ) == #[trigger] sanctoral_views(other, year as int) by {
                assert(celebration_views(days@[day_index(other, year as int)]@) == entered(
                    other,
                    year as int,
                    k as int,
                    true,
                ));
            }
        }
    }

    proof {
        let lists = list_views(days@);
        assert forall|other: Date|
            other.valid() && in_year(other.day_number(), year as int) implies lists[day_index(
            other,
            year as int,
        )] == #[trigger] sanctoral_views(other, year as int) by {
            assert(celebration_views(days@[day_index(other, year as int)]@) == sanctoral_views(
                other,
                year as int,
            ));
        }
    }
    SanctoralCycle { year, days }
}

} // verus!
