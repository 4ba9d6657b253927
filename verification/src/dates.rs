//! The calendar model.  Every computation in this crate that depends on the
//! current date takes an explicit [`WeekDates`] value: the trailing window of
//! calendar-date strings, today first.  [`current_week`] builds that value
//! from the wall clock; everything downstream of it is a pure function.

use vstd::prelude::*;

verus! {

/// How many calendar dates a [`WeekDates`] holds: offsets 0 (today) through
/// 8 (eight days ago).  Offset 8 is the farthest day the non-reps lookback
/// can reach with the largest tolerance; offset 7 is the start of the
/// trailing window that the store is queried for.
pub const DAY_OFFSETS: usize = 9;

/// Consecutive calendar dates as `"YYYY-MM-DD"` strings, most recent first:
/// entry `d` is the date `d` days before the reference day ("today").
pub struct WeekDates {
    days: Vec<String>,
}

impl View for WeekDates {
    type V = Seq<Seq<char>>;

    closed spec fn view(&self) -> Seq<Seq<char>> {
        self.days@.map_values(|s: String| s@)
    }
}

impl WeekDates {
    /// The value holds one date string for each supported offset.
    pub open spec fn wf(&self) -> bool {
        self@.len() == DAY_OFFSETS
    }

    /// Wraps nine consecutive calendar dates, most recent first.
    pub fn new(days: Vec<String>) -> (r: Option<WeekDates>)
        ensures
            r is Some <==> days@.len() == DAY_OFFSETS,
            r matches Some(w) ==> w.wf() && w@ == days@.map_values(|s: String| s@),
    {
        if days.len() == DAY_OFFSETS {
            Some(WeekDates { days })
        } else {
            None
        }
    }

    /// The date `offset` days before the reference day.
    pub fn date(&self, offset: usize) -> (r: &String)
        requires
            self.wf(),
            offset < DAY_OFFSETS,
        ensures
            r@ == self@[offset as int],
    {
        &self.days[offset]
    }
}

/// Relies on chrono's `Utc::now`, `Duration::days` and `format`, with
/// chrono-tz's Europe/Warsaw offset: the calendar date `x` days before today,
/// as a `"YYYY-MM-DD"` string.  The result depends on the wall clock, so
/// nothing is assumed about it; callers treat it as an arbitrary string.
#[verifier::external_body]
pub fn get_date_x_days_ago(x: i64) -> String
    requires
        0 <= x <= 8,
{
    (chrono::Utc::now().with_timezone(&chrono_tz::Europe::Warsaw) + chrono::Duration::days(-x))
        .format("%Y-%m-%d")
        .to_string()
}

/// The trailing window of calendar dates ending today, read from the wall
/// clock: today and the eight days before it, most recent first.
pub fn current_week() -> (r: WeekDates)
    ensures
        r.wf(),
{
    let mut days: Vec<String> = Vec::new();
    let mut x: usize = 0;
    while x < DAY_OFFSETS
        invariant
            x <= DAY_OFFSETS,
            days@.len() == x,
        decreases DAY_OFFSETS - x,
    {
        days.push(get_date_x_days_ago(x as i64));
        x += 1;
    }
    WeekDates { days }
}

} // verus!
