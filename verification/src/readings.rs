//! Where the readings of a celebration are found, and what is to be noted
//! of it: two tables keyed by the identifier of the celebration.
//!
//! The references follow the Missal of 1962.

use crate::text::str_eq;
use crate::types::{readings_view_of, text_of, Readings, ReadingsView};
use vstd::prelude::*;

verus! {

/// The text of an optional string slice.
pub open spec fn slice_text(s: Option<&str>) -> Option<Seq<char>> {
    match s {
        Some(t) => Some(t@),
        None => None,
    }
}

/// The readings with the given references.
pub open spec fn readings_of(
    epistle: Option<Seq<char>>,
    gospel: Option<Seq<char>>,
    old_testament: Option<Seq<char>>,
    gradual: Option<Seq<char>>,
) -> ReadingsView {
    ReadingsView { epistle, gospel, old_testament, gradual }
}

/// An owned copy of an optional reference.
fn owned(s: Option<&str>) -> (r: Option<String>)
    ensures
        text_of(r) == slice_text(s),
{
    match s {
        Some(t) => Some(String::from_str(t)),
        None => None,
    }
}

/// The readings with the given references.
fn readings(
    epistle: Option<&str>,
    gospel: Option<&str>,
    old_testament: Option<&str>,
    gradual: Option<&str>,
) -> (r: Readings)
    ensures
        r@ == readings_of(
            slice_text(epistle),
            slice_text(gospel),
            slice_text(old_testament),
            slice_text(gradual),
        ),
{
    Readings {
        epistle: owned(epistle),
        gospel: owned(gospel),
        old_testament: owned(old_testament),
        gradual: owned(gradual),
    }
}

/// The readings of the celebration with the given identifier, for those
/// celebrations that have readings of their own.
pub open spec fn readings_for(id: Seq<char>) -> Option<ReadingsView> {
    if id == "christmas"@ {
        Some(readings_of(Some("Titus 2:11-15"@), Some("Luke 2:1-14"@), None, Some("Ps 97:3-4, 2"@)))
    } else if id == "circumcision"@ {
        Some(readings_of(Some("Titus 2:11-15"@), Some("Luke 2:21"@), None, Some("Ps 97:3-4"@)))
    } else if id == "epiphany"@ {
        Some(readings_of(Some("Isaias 60:1-6"@), Some("Matt 2:1-12"@), None, Some("Ps 71:10-11"@)))
    } else if id == "holy-family"@ {
        Some(readings_of(Some("Col 3:12-17"@), Some("Luke 2:42-52"@), None, Some("Ps 26:4"@)))
    } else if id == "holy-name-of-jesus"@ {
        Some(readings_of(Some("Acts 4:8-12"@), Some("Luke 2:21"@), None, Some("Ps 105:47"@)))
    } else if id == "ash-wednesday"@ {
        Some(readings_of(Some("Joel 2:12-19"@), Some("Matt 6:16-21"@), None, Some("Ps 56:2"@)))
    } else if id == "palm-sunday"@ {
        Some(
            readings_of(
                Some("Phil 2:5-11"@),
                Some("Matt 26:36–27:60 (Passion)"@),
                None,
                Some("Ps 21:2-3, 22"@),
            ),
        )
    } else if id == "holy-thursday"@ {
        Some(readings_of(Some("1 Cor 11:20-32"@), Some("John 13:1-15"@), None, Some("Phil 2:8-9"@)))
    } else if id == "good-friday"@ {
        Some(
            readings_of(
                Some("Osee 6:1-6; Exod 12:1-11"@),
                Some("John 18:1–19:42 (Passion)"@),
                Some("Isaias 52:13–53:12"@),
                Some("Hab 3:2-3"@),
            ),
        )
    } else if id == "holy-saturday"@ {
        Some(
            readings_of(
                Some("Col 3:1-4"@),
                Some("Matt 28:1-7"@),
                Some("Gen 1:1–2:2 (and Prophecies)"@),
                None,
            ),
        )
    } else if id == "easter-sunday"@ {
        Some(
            readings_of(
                Some("1 Cor 5:7-8"@),
                Some("Mark 16:1-7"@),
                None,
                Some("Ps 117:24, 1 (Sequence: Victimae Paschali Laudes)"@),
            ),
        )
    } else if id == "low-sunday"@ {
        Some(
            readings_of(
                Some("1 John 5:4-10"@),
                Some("John 20:19-31"@),
                None,
                Some("Matt 28:7; John 20:26"@),
            ),
        )
    } else if id == "ascension"@ {
        Some(
            readings_of(
                Some("Acts 1:1-11"@),
                Some("Mark 16:14-20"@),
                None,
                Some("Ps 46:6; Ps 67:18-19"@),
            ),
        )
    } else if id == "pentecost"@ {
        Some(
            readings_of(
                Some("Acts 2:1-11"@),
                Some("John 14:23-31"@),
                None,
                Some("Ps 103:30 (Sequence: Veni Sancte Spiritus)"@),
            ),
        )
    } else if id == "corpus-christi"@ {
        Some(
            readings_of(
                Some("1 Cor 11:23-29"@),
                Some("John 6:56-59"@),
                None,
                Some("Ps 144:15-16 (Sequence: Lauda Sion)"@),
            ),
        )
    } else if id == "sacred-heart"@ {
        Some(readings_of(Some("Eph 3:8-19"@), Some("John 19:31-37"@), None, Some("Ps 24:8-9"@)))
    } else if id == "christ-the-king"@ {
        Some(readings_of(Some("Col 1:12-20"@), Some("John 18:33-37"@), None, Some("Ps 71:8, 11"@)))
    } else if id == "purification-bvm"@ {
        Some(readings_of(Some("Mal 3:1-4"@), Some("Luke 2:22-32"@), None, Some("Ps 47:10-11, 9"@)))
    } else if id == "st-joseph"@ {
        Some(readings_of(Some("Ecclus 45:1-6"@), Some("Matt 1:18-21"@), None, Some("Ps 20:4-5"@)))
    } else if id == "annunciation"@ {
        Some(readings_of(Some("Isaias 7:10-15"@), Some("Luke 1:26-38"@), None, Some("Ps 44:3, 5"@)))
    } else if id == "nativity-of-st-john-baptist"@ {
        Some(
            readings_of(
                Some("Isaias 49:1-3, 5-7"@),
                Some("Luke 1:57-68"@),
                None,
                Some("Jer 1:5, 9"@),
            ),
        )
    } else if id == "ss-peter-paul"@ {
        Some(readings_of(Some("Acts 12:1-11"@), Some("Matt 16:13-19"@), None, Some("Ps 44:17-18"@)))
    } else if id == "transfiguration"@ {
        Some(readings_of(Some("2 Peter 1:16-19"@), Some("Matt 17:1-9"@), None, Some("Ps 44:3"@)))
    } else if id == "assumption-bvm"@ {
        Some(
            readings_of(
                Some("Judith 13:22-25; 15:10"@),
                Some("Luke 1:41-50"@),
                None,
                Some("Ps 44:10, 12, 16"@),
            ),
        )
    } else if id == "exaltation-holy-cross"@ {
        Some(readings_of(Some("Phil 2:5-11"@), Some("John 12:31-36"@), None, Some("Phil 2:8-9"@)))
    } else if id == "st-michael"@ {
        Some(readings_of(Some("Apoc 1:1-5"@), Some("Matt 18:1-10"@), None, Some("Ps 102:20"@)))
    } else if id == "all-saints"@ {
        Some(readings_of(Some("Apoc 7:2-12"@), Some("Matt 5:1-12"@), None, Some("Ps 33:10-11"@)))
    } else if id == "all-souls"@ {
        Some(readings_of(Some("1 Cor 15:51-57"@), Some("John 5:25-29"@), None, None))
    } else if id == "immaculate-conception"@ {
        Some(
            readings_of(
                Some("Prov 8:22-35"@),
                Some("Luke 1:26-28"@),
                None,
                Some("Judith 15:10; 13:23"@),
            ),
        )
    } else if id == "st-stephen"@ {
        Some(
            readings_of(
                Some("Acts 6:8-10; 7:54-59"@),
                Some("Matt 23:34-39"@),
                None,
                Some("Ps 118:23, 86, 23"@),
            ),
        )
    } else if id == "st-john-evangelist"@ {
        Some(
            readings_of(Some("Ecclus 15:1-6"@), Some("John 21:19-24"@), None, Some("Ps 91:13-14"@)),
        )
    } else if id == "holy-innocents"@ {
        Some(readings_of(Some("Apoc 14:1-5"@), Some("Matt 2:13-18"@), None, Some("Ps 123:7-8"@)))
    } else {
        None
    }
}

/// What is to be noted of the celebration with the given identifier, for
/// those celebrations of which something is noted.
pub open spec fn notes_for(id: Seq<char>) -> Option<Seq<char>> {
    if id == "ash-wednesday"@ {
        Some("Blessing and imposition of ashes. Fast and abstinence."@)
    } else if id == "palm-sunday"@ {
        Some("Blessing of palms and procession before Mass."@)
    } else if id == "holy-thursday"@ {
        Some("Mass of the Lord's Supper. Mandatum. Stripping of the altars. Repository."@)
    } else if id == "good-friday"@ {
        Some(
            "Solemn liturgical action. Veneration of the Cross. Fast and abstinence. No Mass celebrated."@,
        )
    } else if id == "holy-saturday"@ {
        Some(
            "Easter Vigil: Blessing of the new fire, Paschal candle, baptismal water. First Mass of Easter."@,
        )
    } else if id == "easter-sunday"@ {
        Some("Solemnity of solemnities. Sequence: Victimae Paschali Laudes."@)
    } else if id == "pentecost"@ {
        Some("Sequence: Veni Sancte Spiritus."@)
    } else if id == "corpus-christi"@ {
        Some("Sequence: Lauda Sion Salvatorem. Procession of the Blessed Sacrament."@)
    } else if id == "purification-bvm"@ {
        Some("Candlemas. Blessing of candles and procession."@)
    } else if id == "all-souls"@ {
        Some("Commemoration of All the Faithful Departed. Three Masses permitted for each priest."@)
    } else if id == "christmas"@ {
        Some("Solemnity of the Nativity. Three Masses: Midnight, Dawn, Day."@)
    } else if id == "circumcision"@ {
        Some("Octave Day of Christmas. Holy Day of Obligation."@)
    } else if id == "epiphany"@ {
        Some("Holy Day of Obligation. Blessing of water, chalk, and incense."@)
    } else if id == "assumption-bvm"@ {
        Some("Holy Day of Obligation."@)
    } else if id == "all-saints"@ {
        Some("Holy Day of Obligation."@)
    } else if id == "immaculate-conception"@ {
        Some("Holy Day of Obligation."@)
    } else if id == "ascension"@ {
        Some("Holy Day of Obligation."@)
    } else if id == "st-joseph"@ {
        Some("Holy Day of Obligation in many countries."@)
    } else if id == "ss-peter-paul"@ {
        Some("Holy Day of Obligation in many countries."@)
    } else {
        None
    }
}

/// The readings of the celebration with the given identifier, or `None`
/// when the celebration has none of its own.
pub fn get_readings(celebration_id: &str) -> (r: Option<Readings>)
    ensures
        readings_view_of(r) == readings_for(celebration_id@),
{
    if str_eq(celebration_id, "christmas") {
        return Some(
            readings(Some("Titus 2:11-15"), Some("Luke 2:1-14"), None, Some("Ps 97:3-4, 2")),
        );
    }
    if str_eq(celebration_id, "circumcision") {
        return Some(readings(Some("Titus 2:11-15"), Some("Luke 2:21"), None, Some("Ps 97:3-4")));
    }
    if str_eq(celebration_id, "epiphany") {
        return Some(
            readings(Some("Isaias 60:1-6"), Some("Matt 2:1-12"), None, Some("Ps 71:10-11")),
        );
    }
    if str_eq(celebration_id, "holy-family") {
        return Some(readings(Some("Col 3:12-17"), Some("Luke 2:42-52"), None, Some("Ps 26:4")));
    }
    if str_eq(celebration_id, "holy-name-of-jesus") {
        return Some(readings(Some("Acts 4:8-12"), Some("Luke 2:21"), None, Some("Ps 105:47")));
    }
    if str_eq(celebration_id, "ash-wednesday") {
        return Some(readings(Some("Joel 2:12-19"), Some("Matt 6:16-21"), None, Some("Ps 56:2")));
    }
    if str_eq(celebration_id, "palm-sunday") {
        return Some(
            readings(
                Some("Phil 2:5-11"),
                Some("Matt 26:36–27:60 (Passion)"),
                None,
                Some("Ps 21:2-3, 22"),
            ),
        );
    }
    if str_eq(celebration_id, "holy-thursday") {
        return Some(
            readings(Some("1 Cor 11:20-32"), Some("John 13:1-15"), None, Some("Phil 2:8-9")),
        );
    }
    if str_eq(celebration_id, "good-friday") {
        return Some(
            readings(
                Some("Osee 6:1-6; Exod 12:1-11"),
                Some("John 18:1–19:42 (Passion)"),
                Some("Isaias 52:13–53:12"),
                Some("Hab 3:2-3"),
            ),
        );
    }
    if str_eq(celebration_id, "holy-saturday") {
        return Some(
            readings(
                Some("Col 3:1-4"),
                Some("Matt 28:1-7"),
                Some("Gen 1:1–2:2 (and Prophecies)"),
                None,
            ),
        );
    }
    if str_eq(celebration_id, "easter-sunday") {
        return Some(
            readings(
                Some("1 Cor 5:7-8"),
                Some("Mark 16:1-7"),
                None,
                Some("Ps 117:24, 1 (Sequence: Victimae Paschali Laudes)"),
            ),
        );
    }
    if str_eq(celebration_id, "low-sunday") {
        return Some(
            readings(
                Some("1 John 5:4-10"),
                Some("John 20:19-31"),
                None,
                Some("Matt 28:7; John 20:26"),
            ),
        );
    }
    if str_eq(celebration_id, "ascension") {
        return Some(
            readings(
                Some("Acts 1:1-11"),
                Some("Mark 16:14-20"),
                None,
                Some("Ps 46:6; Ps 67:18-19"),
            ),
        );
    }
    if str_eq(celebration_id, "pentecost") {
        return Some(
            readings(
                Some("Acts 2:1-11"),
                Some("John 14:23-31"),
                None,
                Some("Ps 103:30 (Sequence: Veni Sancte Spiritus)"),
            ),
        );
    }
    if str_eq(celebration_id, "corpus-christi") {
        return Some(
            readings(
                Some("1 Cor 11:23-29"),
                Some("John 6:56-59"),
                None,
                Some("Ps 144:15-16 (Sequence: Lauda Sion)"),
            ),
        );
    }
    if str_eq(celebration_id, "sacred-heart") {
        return Some(readings(Some("Eph 3:8-19"), Some("John 19:31-37"), None, Some("Ps 24:8-9")));
    }
    if str_eq(celebration_id, "christ-the-king") {
        return Some(
            readings(Some("Col 1:12-20"), Some("John 18:33-37"), None, Some("Ps 71:8, 11")),
        );
    }
    if str_eq(celebration_id, "purification-bvm") {
        return Some(
            readings(Some("Mal 3:1-4"), Some("Luke 2:22-32"), None, Some("Ps 47:10-11, 9")),
        );
    }
    if str_eq(celebration_id, "st-joseph") {
        return Some(readings(Some("Ecclus 45:1-6"), Some("Matt 1:18-21"), None, Some("Ps 20:4-5")));
    }
    if str_eq(celebration_id, "annunciation") {
        return Some(
            readings(Some("Isaias 7:10-15"), Some("Luke 1:26-38"), None, Some("Ps 44:3, 5")),
        );
    }
    if str_eq(celebration_id, "nativity-of-st-john-baptist") {
        return Some(
            readings(Some("Isaias 49:1-3, 5-7"), Some("Luke 1:57-68"), None, Some("Jer 1:5, 9")),
        );
    }
    if str_eq(celebration_id, "ss-peter-paul") {
        return Some(
            readings(Some("Acts 12:1-11"), Some("Matt 16:13-19"), None, Some("Ps 44:17-18")),
        );
    }
    if str_eq(celebration_id, "transfiguration") {
        return Some(readings(Some("2 Peter 1:16-19"), Some("Matt 17:1-9"), None, Some("Ps 44:3")));
    }
    if str_eq(celebration_id, "assumption-bvm") {
        return Some(
            readings(
                Some("Judith 13:22-25; 15:10"),
                Some("Luke 1:41-50"),
                None,
                Some("Ps 44:10, 12, 16"),
            ),
        );
    }
    if str_eq(celebration_id, "exaltation-holy-cross") {
        return Some(readings(Some("Phil 2:5-11"), Some("John 12:31-36"), None, Some("Phil 2:8-9")));
    }
    if str_eq(celebration_id, "st-michael") {
        return Some(readings(Some("Apoc 1:1-5"), Some("Matt 18:1-10"), None, Some("Ps 102:20")));
    }
    if str_eq(celebration_id, "all-saints") {
        return Some(readings(Some("Apoc 7:2-12"), Some("Matt 5:1-12"), None, Some("Ps 33:10-11")));
    }
    if str_eq(celebration_id, "all-souls") {
        return Some(readings(Some("1 Cor 15:51-57"), Some("John 5:25-29"), None, None));
    }
    if str_eq(celebration_id, "immaculate-conception") {
        return Some(
            readings(Some("Prov 8:22-35"), Some("Luke 1:26-28"), None, Some("Judith 15:10; 13:23")),
        );
    }
    if str_eq(celebration_id, "st-stephen") {
        return Some(
            readings(
                Some("Acts 6:8-10; 7:54-59"),
                Some("Matt 23:34-39"),
                None,
                Some("Ps 118:23, 86, 23"),
            ),
        );
    }
    if str_eq(celebration_id, "st-john-evangelist") {
        return Some(
            readings(Some("Ecclus 15:1-6"), Some("John 21:19-24"), None, Some("Ps 91:13-14")),
        );
    }
    if str_eq(celebration_id, "holy-innocents") {
        return Some(readings(Some("Apoc 14:1-5"), Some("Matt 2:13-18"), None, Some("Ps 123:7-8")));
    }
    None
}

/// What is to be noted of the celebration with the given identifier, or
/// `None` when nothing is.
pub fn get_notes(celebration_id: &str) -> (r: Option<String>)
    ensures
        text_of(r) == notes_for(celebration_id@),
{
    if str_eq(celebration_id, "ash-wednesday") {
        return Some(String::from_str("Blessing and imposition of ashes. Fast and abstinence."));
    }
    if str_eq(celebration_id, "palm-sunday") {
        return Some(String::from_str("Blessing of palms and procession before Mass."));
    }
    if str_eq(celebration_id, "holy-thursday") {
        return Some(
            String::from_str(
                "Mass of the Lord's Supper. Mandatum. Stripping of the altars. Repository.",
            ),
        );
    }
    if str_eq(celebration_id, "good-friday") {
        return Some(
            String::from_str(
                "Solemn liturgical action. Veneration of the Cross. Fast and abstinence. No Mass celebrated.",
            ),
        );
    }
    if str_eq(celebration_id, "holy-saturday") {
        return Some(
            String::from_str(
                "Easter Vigil: Blessing of the new fire, Paschal candle, baptismal water. First Mass of Easter.",
            ),
        );
    }
    if str_eq(celebration_id, "easter-sunday") {
        return Some(
            String::from_str("Solemnity of solemnities. Sequence: Victimae Paschali Laudes."),
        );
    }
    if str_eq(celebration_id, "pentecost") {
        return Some(String::from_str("Sequence: Veni Sancte Spiritus."));
    }
    if str_eq(celebration_id, "corpus-christi") {
        return Some(
            String::from_str(
                "Sequence: Lauda Sion Salvatorem. Procession of the Blessed Sacrament.",
            ),
        );
    }
    if str_eq(celebration_id, "purification-bvm") {
        return Some(String::from_str("Candlemas. Blessing of candles and procession."));
    }
    if str_eq(celebration_id, "all-souls") {
        return Some(
            String::from_str(
                "Commemoration of All the Faithful Departed. Three Masses permitted for each priest.",
            ),
        );
    }
    if str_eq(celebration_id, "christmas") {
        return Some(
            String::from_str("Solemnity of the Nativity. Three Masses: Midnight, Dawn, Day."),
        );
    }
    if str_eq(celebration_id, "circumcision") {
        return Some(String::from_str("Octave Day of Christmas. Holy Day of Obligation."));
    }
    if str_eq(celebration_id, "epiphany") {
        return Some(
            String::from_str("Holy Day of Obligation. Blessing of water, chalk, and incense."),
        );
    }
    if str_eq(celebration_id, "assumption-bvm") {
        return Some(String::from_str("Holy Day of Obligation."));
    }
    if str_eq(celebration_id, "all-saints") {
        return Some(String::from_str("Holy Day of Obligation."));
    }
    if str_eq(celebration_id, "immaculate-conception") {
        return Some(String::from_str("Holy Day of Obligation."));
    }
    if str_eq(celebration_id, "ascension") {
        return Some(String::from_str("Holy Day of Obligation."));
    }
    if str_eq(celebration_id, "st-joseph") {
        return Some(String::from_str("Holy Day of Obligation in many countries."));
    }
    if str_eq(celebration_id, "ss-peter-paul") {
        return Some(String::from_str("Holy Day of Obligation in many countries."));
    }
    None
}

} // verus!
