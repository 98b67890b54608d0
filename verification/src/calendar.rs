//! The calendar of a year: for every day, the celebration that is kept, the
//! celebrations that are commemorated, and what goes with them.

use crate::computus::{in_year, moveable_feasts};
use crate::date::{
    days_in_year, first_day_of_year, lemma_day_number_injective, lemma_valid_in_range,
    lemma_year_of_day_number, weekday_of, Date, Weekday, MAX_YEAR, MIN_YEAR,
};
use crate::precedence::{lemma_resolve, outranks, resolve, resolve_precedence};
use crate::readings::{get_notes, get_readings, notes_for, readings_for};
use crate::sanctoral::{build_sanctoral_cycle, lemma_sanctoral_views, sanctoral_views};
use crate::temporal::{
    build_temporal_cycle, is_temporal_cycle, is_temporal_day, lemma_special_view, season_entry,
    special_view,
};
use crate::text::lemma_decimal_text_nonempty;
use crate::types::{
    celebration_views, feria_view, sunday_view, Celebration, CelebrationCategory, CelebrationView,
    LiturgicalDay, LiturgicalDayView, MoveableFeasts,
};
use vstd::prelude::*;

verus! {

/// The celebration that the temporal cycle has for a day: the celebration
/// proper to the day if it has one, else the Sunday or the feria of its
/// season and week.
pub open spec fn temporal_view(date: Date, year: int) -> CelebrationView {
    let entry = season_entry(date.day_number(), year);
    let weekday = weekday_of(date.day_number());
    match special_view(date, year) {
        Some(special) => special,
        None => if weekday == Weekday::Sun {
            sunday_view(entry.season, entry.week)
        } else {
            feria_view(entry.season, entry.week, weekday)
        },
    }
}

/// All that is kept on a day of the given year.
///
/// The celebration of the temporal cycle meets those of the sanctoral
/// cycle; precedence settles which is kept and which are commemorated. The
/// colour is that of the celebration kept, and its identifier finds the
/// readings and the notes.
pub open spec fn day_view(date: Date, year: int) -> LiturgicalDayView {
    let entry = season_entry(date.day_number(), year);
    let (kept, commemorations) = resolve(temporal_view(date, year), sanctoral_views(date, year));
    LiturgicalDayView {
        date,
        season: entry.season,
        week: entry.week,
        day_of_week: weekday_of(date.day_number()).short_name_text(),
        celebration: kept,
        commemorations,
        color: kept.color,
        readings: readings_for(kept.id),
        notes: notes_for(kept.id),
    }
}

/// Whether `days` is the calendar of the given year: one day for every day
/// of the year, from 1 January to 31 December in order, each with what
/// [`day_view`] gives for its date.
pub open spec fn is_calendar(days: Seq<LiturgicalDayView>, year: int) -> bool {
    &&& days.len() == days_in_year(year)
    &&& forall|i: int|
        0 <= i < days.len() ==> {
            let day = #[trigger] days[i];
            &&& day.date.valid()
            &&& day.date.day_number() == first_day_of_year(year) + i
            &&& day == day_view(day.date, year)
        }
}

/// The days of `days` that fall in the given month, in their order.
pub open spec fn in_month(days: Seq<LiturgicalDayView>, month: u32) -> Seq<LiturgicalDayView>
    decreases days.len(),
{
    if days.len() == 0 {
        Seq::empty()
    } else if days.last().date.month == month {
        in_month(days.drop_last(), month).push(days.last())
    } else {
        in_month(days.drop_last(), month)
    }
}

/// The views of a sequence of borrowed days, in order.
pub open spec fn borrowed_day_views(s: Seq<&LiturgicalDay>) -> Seq<LiturgicalDayView> {
    s.map_values(|d: &LiturgicalDay| d@)
}

/// The views of a sequence of days, in order.
pub open spec fn day_views(s: Seq<LiturgicalDay>) -> Seq<LiturgicalDayView> {
    s.map_values(|d: LiturgicalDay| d@)
}

/// The calendar of one year under the rubrics of 1962.
pub struct Calendar {
    year: i32,
    days: Vec<LiturgicalDay>,
}

impl View for Calendar {
    type V = Seq<LiturgicalDayView>;

    closed spec fn view(&self) -> Seq<LiturgicalDayView> {
        day_views(self.days@)
    }
}

impl Calendar {
    /// The year of the calendar.
    pub closed spec fn spec_year(&self) -> int {
        self.year as int
    }

    /// Whether this is the calendar of its year. Every calendar that
    /// [`Calendar::new`] makes is.
    pub closed spec fn wf(&self) -> bool {
        &&& MIN_YEAR < self.year <= MAX_YEAR
        &&& is_calendar(self@, self.year as int)
    }

    #[verifier::type_invariant]
    spec fn inv(&self) -> bool {
        self.wf()
    }

    /// The calendar of the given year.
    pub fn new(year: i32) -> (r: Calendar)
        requires
            MIN_YEAR < year <= MAX_YEAR,
        ensures
            r.wf(),
            r.spec_year() == year,
            is_calendar(r@, year as int),
    {
        let temporal = build_temporal_cycle(year);
        let sanctoral = build_sanctoral_cycle(year);
        let no_feasts: Vec<Celebration> = Vec::new();

        let mut days: Vec<LiturgicalDay> = Vec::new();

        let mut i: usize = 0;
        while i < temporal.len()
            invariant
                i <= temporal@.len(),
                MIN_YEAR < year <= MAX_YEAR,
                is_temporal_cycle(temporal@, year as int),
                sanctoral.spec_year() == year,
                no_feasts@.len() == 0,
                days@.len() == i,
                forall|j: int|
                    0 <= j < i ==> {
                        let day = (#[trigger] days@[j])@;
                        &&& day.date.valid()
                        &&& day.date.day_number() == first_day_of_year(year as int) + j
                        &&& day == day_view(day.date, year as int)
                    },
            decreases temporal@.len() - i,
        {
            let entry = temporal[i].entry;
            let date = temporal[i].date;
            let weekday = date.weekday();
            proof {
                assert(is_temporal_day(temporal@[i as int], year as int, i as int));
                lemma_year_of_day_number(date, year as int);
            }

            // The celebration of the temporal cycle for this day
            let temporal_celebration = match &temporal[i].special {
                Some(special) => special.clone(),
                None => {
                    if weekday == Weekday::Sun {
                        Celebration::sunday(entry.season, entry.week)
                    } else {
                        Celebration::feria(entry.season, entry.week, weekday)
                    }
                },
            };

            // The celebrations of the sanctoral cycle for this day
            let sanctoral_celebrations = match sanctoral.get(date) {
                Some(list) => list,
                None => &no_feasts,
            };
            proof {
                assert(celebration_views(sanctoral_celebrations@) =~= sanctoral_views(
                    date,
                    year as int,
                ));
            }

            let (winner, commemorations) = resolve_precedence(
                &temporal_celebration,
                sanctoral_celebrations.as_slice(),
            );

            let readings = get_readings(winner.id.as_str());
            let notes = get_notes(winner.id.as_str());
            let color = winner.color;

            let day = LiturgicalDay {
                date,
                season: entry.season,
                week: entry.week,
                day_of_week: String::from_str(weekday.short_name()),
                celebration: winner,
                commemorations,
                color,
                readings,
                notes,
            };
            proof {
                assert(day@ == day_view(date, year as int));
            }
            days.push(day);
            i += 1;
        }
        proof {
            let views = day_views(days@);
            assert forall|j: int| 0 <= j < views.len() implies {
                let day = #[trigger] views[j];
                &&& day.date.valid()
                &&& day.date.day_number() == first_day_of_year(year as int) + j
                &&& day == day_view(day.date, year as int)
            } by {
                assert(views[j] == days@[j]@);
            }
        }
        Calendar { year, days }
    }

    /// The day of the calendar with the given date, or `None` when the date
    /// is no day of the year of the calendar.
    pub fn get(&self, date: Date) -> (r: Option<&LiturgicalDay>)
        requires
            date.valid(),
        ensures
            match r {
                Some(day) => date.year == self.spec_year() && day.date == date && day@ == day_view(
                    date,
                    self.spec_year(),
                ),
                None => date.year != self.spec_year(),
            },
    {
        proof {
            use_type_invariant(self);
            lemma_valid_in_range(date);
        }
        if date.year != self.year {
            return None;
        }
        let jan1 = Date::from_ymd_opt(self.year, 1, 1).unwrap();
        let index = date.days_since(&jan1) as usize;
        assert(index < self.days.len());
        let day = &self.days[index];
        proof {
            assert(self@[index as int] == day@);
            lemma_day_number_injective(day.date, date);
        }
        Some(day)
    }

    /// All the days of the calendar, from 1 January to 31 December.
    pub fn days(&self) -> (r: &Vec<LiturgicalDay>)
        ensures
            day_views(r@) == self@,
            is_calendar(self@, self.spec_year()),
    {
        proof {
            use_type_invariant(self);
        }
        &self.days
    }

    /// The days of the calendar that fall in the given month, in the order
    /// of the calendar; none when `month` is not 1 to 12.
    pub fn days_of_month(&self, month: u32) -> (r: Vec<&LiturgicalDay>)
        ensures
            borrowed_day_views(r@) == in_month(self@, month),
    {
        let mut found: Vec<&LiturgicalDay> = Vec::new();
        let mut i: usize = 0;
        proof {
            assert(self@.take(0) =~= Seq::empty());
            assert(borrowed_day_views(found@) =~= Seq::empty());
        }
        while i < self.days.len()
            invariant
                i <= self.days@.len(),
                borrowed_day_views(found@) == in_month(self@.take(i as int), month),
            decreases self.days@.len() - i,
        {
            let day = &self.days[i];
            let ghost before = borrowed_day_views(found@);
            proof {
                let part = self@.take(i + 1);
                assert(part.last() == day@);
                assert(part.drop_last() =~= self@.take(i as int));
            }
            if day.date.month == month {
                found.push(day);
                proof {
                    assert(borrowed_day_views(found@) =~= before.push(day@));
                }
            }
            i += 1;
        }
        proof {
            assert(self@.take(i as int) =~= self@);
        }
        found
    }

    /// The year of the calendar.
    pub fn year(&self) -> (r: i32)
        ensures
            r == self.spec_year(),
            MIN_YEAR < r <= MAX_YEAR,
    {
        proof {
            use_type_invariant(self);
        }
        self.year
    }

    /// The moveable feasts of the year of the calendar.
    pub fn moveable_feasts(&self) -> (r: MoveableFeasts)
        ensures
            r.is_for(self.spec_year()),
    {
        proof {
            use_type_invariant(self);
        }
        moveable_feasts(self.year)
    }
}

/// The celebration of the temporal cycle has an identifier on every day,
/// and on a Sunday it is either a Sunday with a precedence of 6 at most or
/// a celebration with a precedence of 5 at most.
pub proof fn lemma_temporal_view(date: Date, year: int)
    requires
        date.valid(),
        in_year(date.day_number(), year),
    ensures
        temporal_view(date, year).id.len() > 0,
        weekday_of(date.day_number()) == Weekday::Sun ==> {
            let c = temporal_view(date, year);
            (c.category == CelebrationCategory::Sunday && c.precedence <= 6) || c.precedence <= 5
        },
{
    lemma_special_view(date, year);
    let entry = season_entry(date.day_number(), year);
    lemma_decimal_text_nonempty(entry.week as nat);
}

/// On every day of a year the colour is that of the celebration kept, and
/// the celebration kept has an identifier.
pub proof fn lemma_day_has_a_celebration(date: Date, year: int)
    requires
        date.valid(),
        in_year(date.day_number(), year),
    ensures
        day_view(date, year).color == day_view(date, year).celebration.color,
        day_view(date, year).celebration.id.len() > 0,
{
    let temporal = temporal_view(date, year);
    let sanctoral = sanctoral_views(date, year);
    let all = seq![temporal] + sanctoral;
    let kept = resolve(temporal, sanctoral).0;
    lemma_temporal_view(date, year);
    lemma_sanctoral_views(date, year);
    lemma_resolve(temporal, sanctoral);
    let k = choose|k: int| 0 <= k < all.len() && all[k] == kept;
    if k > 0 {
        assert(all[k] == sanctoral[k - 1]);
    }
}

/// On every Sunday the celebration kept is either a Sunday or a celebration
/// with a precedence of 5 at most: only a higher feast takes the place of
/// the Sunday.
pub proof fn lemma_sunday_is_kept_or_outranked(date: Date, year: int)
    requires
        date.valid(),
        in_year(date.day_number(), year),
        weekday_of(date.day_number()) == Weekday::Sun,
    ensures
        day_view(date, year).celebration.category == CelebrationCategory::Sunday || day_view(
            date,
            year,
        ).celebration.precedence <= 5,
{
    let temporal = temporal_view(date, year);
    let sanctoral = sanctoral_views(date, year);
    let all = seq![temporal] + sanctoral;
    let kept = resolve(temporal, sanctoral).0;
    lemma_temporal_view(date, year);
    lemma_sanctoral_views(date, year);
    lemma_resolve(temporal, sanctoral);
    let k = choose|k: int| 0 <= k < all.len() && all[k] == kept;
    if k > 0 {
        assert(all[k] == sanctoral[k - 1]);
        assert(all[0] == temporal);
        assert(!outranks(temporal, kept));
    }
}

/// What holds of every day of a calendar: its colour is that of the
/// celebration kept, the celebration kept has an identifier, and on a
/// Sunday it is a Sunday or has a precedence of 5 at most.
pub proof fn lemma_calendar_days(calendar: Calendar, i: int)
    requires
        calendar.wf(),
        0 <= i < calendar@.len(),
    ensures
        calendar@[i].color == calendar@[i].celebration.color,
        calendar@[i].celebration.id.len() > 0,
        weekday_of(calendar@[i].date.day_number()) == Weekday::Sun ==> (
        calendar@[i].celebration.category == CelebrationCategory::Sunday
            || calendar@[i].celebration.precedence <= 5),
{
    let year = calendar.spec_year();
    let day = calendar@[i];
    lemma_day_has_a_celebration(day.date, year);
    if weekday_of(day.date.day_number()) == Weekday::Sun {
        lemma_sunday_is_kept_or_outranked(day.date, year);
    }
}

/// The calendar is a function of the year: two calendars of the same year
/// are the same, day for day.
pub proof fn lemma_same_year_same_calendar(a: Calendar, b: Calendar)
    requires
        a.wf(),
        b.wf(),
        a.spec_year() == b.spec_year(),
    ensures
        a@ == b@,
{
    assert forall|i: int| 0 <= i < a@.len() implies a@[i] == b@[i] by {
        lemma_day_number_injective(a@[i].date, b@[i].date);
    }
    assert(a@ =~= b@);
}

} // verus!
