//! The liturgical calendar of the Roman rite under the rubrics of 1962.
//!
//! For a civil year the crate works out the moveable feasts from the date of
//! Easter, assigns a season and week to every day, gathers the feasts of fixed
//! date, and settles which celebration is kept on each day.

use vstd::prelude::*;

pub mod calendar;
pub mod computus;
pub mod date;
pub mod precedence;
pub mod readings;
pub mod sanctoral;
pub mod temporal;
pub mod text;
pub mod types;

pub use calendar::Calendar;
pub use computus::easter;
pub use date::{Date, Weekday};
pub use types::{
    Celebration, CelebrationCategory, CelebrationRank, LiturgicalColor, LiturgicalDay,
    LiturgicalSeason, MoveableFeasts, Readings, RubricalSystem,
};

verus! {

/// The version of the tables of feasts, readings and notes.
pub fn version() -> (r: &'static str)
    ensures
        r@ == "0.1.0"@,
{
    "0.1.0"
}

} // verus!
