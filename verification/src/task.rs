//! The streak/rep engine.  A [`Task`] is one logged completion of a habit.
//! Given the trailing window of completions for a habit and the habit's
//! configuration (see [`crate::taskproto::TaskProto`]), the calculators here
//! derive the new completion's consecutive-day streak and, for repeatable
//! habits, its rep number for the day.  All of them are pure functions of the
//! window and an explicit calendar ([`WeekDates`]); they read no clock and
//! touch no store.

use vstd::prelude::*;

use crate::dates::{DAY_OFFSETS, WeekDates};
use crate::taskproto::TaskProto;
use crate::text::{is_prefix_of, starts_with};

verus! {

/// One logged completion of a habit.
///
/// `pk` is the habit identifier (`"Task::Workout"`); `sk` is the creation
/// instant as an ISO 8601 timestamp whose first ten characters are the
/// calendar date.  `streak` and `rep_number` are computed once, when the
/// record is created, and never changed afterwards.
#[derive(Default, Debug, Clone)]
pub struct Task {
    pub pk: String,
    pub sk: String,
    pub readable_name: String,
    pub description: Option<String>,
    pub streak: Option<u32>,
    pub rep_number: Option<u8>,
    pub total_time: Option<String>,
}

/// A window record is usable by the calculators: it carries a streak value
/// with room to increment it.
pub open spec fn window_record_ok(t: Task) -> bool {
    t.streak is Some && t.streak.unwrap() < u32::MAX
}

/// Every record of the window is usable by the calculators.
pub open spec fn window_ok(win: Seq<Task>) -> bool {
    forall|i: int| 0 <= i < win.len() ==> window_record_ok(#[trigger] win[i])
}

/// The record falls on the given calendar date: the date is a prefix of the
/// record's timestamp.
pub open spec fn on_day(t: Task, date: Seq<char>) -> bool {
    is_prefix_of(date, t.sk@)
}

/// How many of the first `n` window records fall on `date`.
pub open spec fn count_on_day_upto(win: Seq<Task>, date: Seq<char>, n: int) -> nat
    decreases n,
{
    if n <= 0 {
        0
    } else {
        count_on_day_upto(win, date, n - 1) + if on_day(win[n - 1], date) {
            1nat
        } else {
            0nat
        }
    }
}

/// How many window records fall on `date`.
pub open spec fn count_on_day(win: Seq<Task>, date: Seq<char>) -> nat {
    count_on_day_upto(win, date, win.len() as int)
}

/// The greatest streak among the first `n` window records that fall on
/// `date`; zero when none does.
pub open spec fn max_streak_upto(win: Seq<Task>, date: Seq<char>, n: int) -> u32
    decreases n,
{
    if n <= 0 {
        0
    } else {
        let m = max_streak_upto(win, date, n - 1);
        if on_day(win[n - 1], date) && win[n - 1].streak.unwrap() >= m {
            win[n - 1].streak.unwrap()
        } else {
            m
        }
    }
}

/// The greatest streak among the window records that fall on `date`.
pub open spec fn max_streak_on_day(win: Seq<Task>, date: Seq<char>) -> u32 {
    max_streak_upto(win, date, win.len() as int)
}

/// At most `n` of the first `n` records fall on a date.
proof fn lemma_count_on_day_upto_le(win: Seq<Task>, date: Seq<char>, n: int)
    requires
        0 <= n,
    ensures
        count_on_day_upto(win, date, n) <= n,
    decreases n,
{
    if n > 0 {
        lemma_count_on_day_upto_le(win, date, n - 1);
    }
}

/// The day's greatest streak is zero or the streak of some record of the day.
proof fn lemma_max_streak_upto_bound(win: Seq<Task>, date: Seq<char>, n: int)
    requires
        window_ok(win),
        0 <= n <= win.len(),
    ensures
        max_streak_upto(win, date, n) < u32::MAX,
    decreases n,
{
    if n > 0 {
        lemma_max_streak_upto_bound(win, date, n - 1);
    }
}

/// One qualifying day of the trailing week: its date and the greatest streak
/// among that day's records.
pub struct RepTaskDaySummary {
    pub date: String,
    pub streak: u32,
}

impl View for RepTaskDaySummary {
    type V = (Seq<char>, u32);

    open spec fn view(&self) -> (Seq<char>, u32) {
        (self.date@, self.streak)
    }
}

/// The day summary restricted to offsets `1..d`: for each day of the trailing
/// week whose record count reaches `min`, one entry with that day's date and
/// greatest streak, ordered from the most recent day to the oldest.
pub open spec fn week_summary_upto(
    win: Seq<Task>,
    dates: Seq<Seq<char>>,
    min: u8,
    d: int,
) -> Seq<(Seq<char>, u32)>
    decreases d,
{
    if d <= 1 {
        Seq::empty()
    } else {
        let rest = week_summary_upto(win, dates, min, d - 1);
        if count_on_day(win, dates[d - 1]) >= min as nat {
            rest.push((dates[d - 1], max_streak_on_day(win, dates[d - 1])))
        } else {
            rest
        }
    }
}

/// The full day summary: qualifying days among offsets 1 (yesterday) through
/// 6 (six days ago).  Today is excluded.
pub open spec fn week_summary(win: Seq<Task>, dates: Seq<Seq<char>>, min: u8) -> Seq<
    (Seq<char>, u32),
> {
    week_summary_upto(win, dates, min, 7)
}

impl Task {
    /// Counts the window records falling on `date` and returns that count
    /// together with the greatest streak among them.
    fn day_stats(last_week_tasks: &Vec<Task>, date: &String) -> (r: (usize, u32))
        requires
            window_ok(last_week_tasks@),
        ensures
            r.0 == count_on_day(last_week_tasks@, date@),
            r.1 == max_streak_on_day(last_week_tasks@, date@),
    {
        let mut count: usize = 0;
        let mut max_streak: u32 = 0;
        let mut i: usize = 0;
        while i < last_week_tasks.len()
            invariant
                window_ok(last_week_tasks@),
                i <= last_week_tasks@.len(),
                count == count_on_day_upto(last_week_tasks@, date@, i as int),
                max_streak == max_streak_upto(last_week_tasks@, date@, i as int),
            decreases last_week_tasks@.len() - i,
        {
            proof {
                lemma_count_on_day_upto_le(last_week_tasks@, date@, i as int);
            }
            if starts_with(last_week_tasks[i].sk.as_str(), date.as_str()) {
                count += 1;
                let s = last_week_tasks[i].streak.unwrap();
                if s >= max_streak {
                    max_streak = s;
                }
            }
            i += 1;
        }
        (count, max_streak)
    }

    /// The day summary for the reps calculator: for each day of the trailing
    /// week (yesterday through six days ago), if at least `daily_rep_minimum`
    /// records fall on it, one entry with that date and the day's greatest
    /// streak, most recent day first.
    pub fn get_streaks_with_reps_week_summary(
        daily_rep_minimum: u8,
        last_week_tasks: &Vec<Task>,
        dates: &WeekDates,
    ) -> (summary: Vec<RepTaskDaySummary>)
        requires
            dates.wf(),
            window_ok(last_week_tasks@),
        ensures
            summary@.map_values(|s: RepTaskDaySummary| s@) == week_summary(
                last_week_tasks@,
                dates@,
                daily_rep_minimum,
            ),
    {
        let mut summary: Vec<RepTaskDaySummary> = Vec::new();
        let mut day: usize = 1;
        while day < 7
            invariant
                dates.wf(),
                window_ok(last_week_tasks@),
                1 <= day <= 7,
                summary@.map_values(|s: RepTaskDaySummary| s@) == week_summary_upto(
                    last_week_tasks@,
                    dates@,
                    daily_rep_minimum,
                    day as int,
                ),
            decreases 7 - day,
        {
            let date = dates.date(day);
            let (count, max_streak) = Task::day_stats(last_week_tasks, date);
            if count >= daily_rep_minimum as usize {
                summary.push(RepTaskDaySummary { date: date.clone(), streak: max_streak });
            }
            proof {
                assert(summary@.map_values(|s: RepTaskDaySummary| s@) =~= week_summary_upto(
                    last_week_tasks@,
                    dates@,
                    daily_rep_minimum,
                    day as int + 1,
                ));
            }
            day += 1;
        }
        summary
    }
}

/// The streak recorded for the first summary entry at or after position `j`
/// whose date equals `date`; `None` when no entry from `j` on matches.
pub open spec fn find_date_in_summary_from(
    sum: Seq<(Seq<char>, u32)>,
    date: Seq<char>,
    j: int,
) -> Option<u32>
    decreases sum.len() - j,
{
    if j < 0 || j >= sum.len() {
        None
    } else if sum[j].0 == date {
        Some(sum[j].1)
    } else {
        find_date_in_summary_from(sum, date, j + 1)
    }
}

/// The streak recorded for the first summary entry whose date equals `date`.
pub open spec fn find_date_in_summary(sum: Seq<(Seq<char>, u32)>, date: Seq<char>) -> Option<u32> {
    find_date_in_summary_from(sum, date, 0)
}

/// The lookback of the reps calculator, started at offset `d`: the summary
/// streak of the most recent day within the tolerance window (offsets
/// `d..w`) that appears in the summary; zero when none does.
pub open spec fn last_found_streak_from(
    sum: Seq<(Seq<char>, u32)>,
    dates: Seq<Seq<char>>,
    d: int,
    w: int,
) -> u32
    decreases w - d,
{
    if d >= w {
        0
    } else {
        match find_date_in_summary(sum, dates[d]) {
            Some(s) => s,
            None => last_found_streak_from(sum, dates, d + 1, w),
        }
    }
}

/// Whether the new completion makes today's record count reach the daily
/// minimum, and so contributes one streak point.
pub open spec fn today_streak_point(win: Seq<Task>, dates: Seq<Seq<char>>, min: u8) -> u32 {
    if count_on_day(win, dates[0]) + 1 >= min as nat {
        1u32
    } else {
        0u32
    }
}

/// The new streak for a repeatable habit: the most recent qualifying day's
/// streak within the tolerance window, plus today's streak point.
pub open spec fn reps_streak_spec(min: u8, w: u8, win: Seq<Task>, dates: Seq<Seq<char>>) -> u32 {
    (last_found_streak_from(week_summary(win, dates, min), dates, 0, w as int)
        + today_streak_point(win, dates, min)) as u32
}

/// The new completion's rep number: its 1-based ordinal among today's records.
pub open spec fn rep_number_spec(win: Seq<Task>, dates: Seq<Seq<char>>) -> u8 {
    (count_on_day(win, dates[0]) + 1) as u8
}

/// Every streak in the day summary is the streak of some window record, so it
/// stays below `u32::MAX`.
proof fn lemma_week_summary_streak_bound(win: Seq<Task>, dates: Seq<Seq<char>>, min: u8, d: int)
    requires
        window_ok(win),
        0 <= d,
    ensures
        forall|i: int|
            0 <= i < week_summary_upto(win, dates, min, d).len() ==> (
            #[trigger] week_summary_upto(win, dates, min, d)[i]).1 < u32::MAX,
    decreases d,
{
    if d > 1 {
        lemma_week_summary_streak_bound(win, dates, min, d - 1);
        lemma_max_streak_upto_bound(win, dates[d - 1], win.len() as int);
        let rest = week_summary_upto(win, dates, min, d - 1);
        let cur = week_summary_upto(win, dates, min, d);
        assert forall|i: int| 0 <= i < cur.len() implies (#[trigger] cur[i]).1 < u32::MAX by {
            if i < rest.len() {
                assert(cur[i] == rest[i]);
            }
        }
    }
}

/// The day summary has at most one entry per day offset.
proof fn lemma_week_summary_len(win: Seq<Task>, dates: Seq<Seq<char>>, min: u8, d: int)
    requires
        1 <= d,
    ensures
        week_summary_upto(win, dates, min, d).len() <= d - 1,
    decreases d,
{
    if d > 1 {
        lemma_week_summary_len(win, dates, min, d - 1);
    }
}

/// What the summary lookup returns is one of the summary's streak values.
proof fn lemma_find_date_in_summary_bound(sum: Seq<(Seq<char>, u32)>, date: Seq<char>, j: int)
    requires
        forall|i: int| 0 <= i < sum.len() ==> (#[trigger] sum[i]).1 < u32::MAX,
    ensures
        find_date_in_summary_from(sum, date, j) matches Some(s) ==> s < u32::MAX,
    decreases sum.len() - j,
{
    if 0 <= j < sum.len() && sum[j].0 != date {
        lemma_find_date_in_summary_bound(sum, date, j + 1);
    }
}

/// The reps lookback yields zero or one of the summary's streak values.
proof fn lemma_last_found_streak_bound(
    sum: Seq<(Seq<char>, u32)>,
    dates: Seq<Seq<char>>,
    d: int,
    w: int,
)
    requires
        forall|i: int| 0 <= i < sum.len() ==> (#[trigger] sum[i]).1 < u32::MAX,
    ensures
        last_found_streak_from(sum, dates, d, w) < u32::MAX,
    decreases w - d,
{
    if d < w {
        lemma_find_date_in_summary_bound(sum, dates[d], 0);
        lemma_last_found_streak_bound(sum, dates, d + 1, w);
    }
}

/// What the reps calculator yields for the new completion.
#[derive(Debug, Clone, Copy)]
pub struct CurrentRepData {
    pub streak: u32,
    pub rep_number: u8,
}

impl Task {
    /// The streak of the first summary entry dated `date`, if any.
    fn find_streak_for_date(summary: &Vec<RepTaskDaySummary>, date: &String) -> (r: Option<u32>)
        ensures
            r == find_date_in_summary(
                summary@.map_values(|s: RepTaskDaySummary| s@),
                date@,
            ),
    {
        let ghost sum = summary@.map_values(|s: RepTaskDaySummary| s@);
        let mut j: usize = 0;
        while j < summary.len()
            invariant
                sum == summary@.map_values(|s: RepTaskDaySummary| s@),
                j <= sum.len(),
                find_date_in_summary(sum, date@) == find_date_in_summary_from(sum, date@, j as int),
            decreases sum.len() - j,
        {
            if crate::text::str_eq(summary[j].date.as_str(), date.as_str()) {
                return Some(summary[j].streak);
            }
            j += 1;
        }
        None
    }

    /// The reps calculator: for a repeatable habit with daily minimum
    /// `daily_rep_minimum` and weekly tolerance `weekly_streak_tolerance`,
    /// the new completion's streak and rep number, derived from the trailing
    /// window of records (today's included).
    ///
    /// The lookback scans offsets 0 through `weekly_streak_tolerance - 1` for
    /// the most recent day present in the day summary and takes its streak
    /// (zero when none is found), then adds one point if today's count,
    /// with the new completion, reaches the daily minimum.
    pub fn compute_reps_streak(
        daily_rep_minimum: u8,
        weekly_streak_tolerance: u8,
        last_week_tasks: &Vec<Task>,
        dates: &WeekDates,
    ) -> (r: CurrentRepData)
        requires
            dates.wf(),
            weekly_streak_tolerance <= 7,
            window_ok(last_week_tasks@),
            last_week_tasks@.len() <= 254,
        ensures
            r.streak == reps_streak_spec(
                daily_rep_minimum,
                weekly_streak_tolerance,
                last_week_tasks@,
                dates@,
            ),
            r.rep_number == rep_number_spec(last_week_tasks@, dates@),
    {
        let ghost win = last_week_tasks@;
        let ghost w = weekly_streak_tolerance as int;
        let summary = Task::get_streaks_with_reps_week_summary(
            daily_rep_minimum,
            last_week_tasks,
            dates,
        );
        let ghost sum = summary@.map_values(|s: RepTaskDaySummary| s@);

        let mut last_found_streak: u32 = 0;
        let mut today_streak_point: u32 = 0;

        let mut day: usize = 0;
        let mut found = false;
        while day < weekly_streak_tolerance as usize && !found
            invariant
                dates.wf(),
                sum == summary@.map_values(|s: RepTaskDaySummary| s@),
                weekly_streak_tolerance <= 7,
                w == weekly_streak_tolerance as int,
                day <= w,
                !found ==> last_found_streak == 0 && last_found_streak_from(sum, dates@, 0, w)
                    == last_found_streak_from(sum, dates@, day as int, w),
                found ==> last_found_streak == last_found_streak_from(sum, dates@, 0, w),
            decreases w - day,
        {
            let date = dates.date(day);
            if let Some(s) = Task::find_streak_for_date(&summary, date) {
                last_found_streak = s;
                found = true;
            }
            day += 1;
        }

        let (today_count, _today_max) = Task::day_stats(last_week_tasks, dates.date(0));
        proof {
            lemma_count_on_day_upto_le(win, dates@[0], win.len() as int);
        }

        let todays_rep_count_enough_for_streak = today_count + 1
            >= daily_rep_minimum as usize;
        if todays_rep_count_enough_for_streak {
            today_streak_point = 1;
        }

        proof {
            lemma_week_summary_streak_bound(win, dates@, daily_rep_minimum, 7);
            lemma_last_found_streak_bound(sum, dates@, 0, w);
            lemma_week_summary_len(win, dates@, daily_rep_minimum, 7);
        }

        // The sparse-history guard of the reps calculator: unlike its
        // counterpart in the non-reps calculator, both branches yield the same
        // record, so it has no effect.  The asymmetry is intentional, kept for
        // product owners to resolve, and must not be silently corrected.
        let min_len = 7 - weekly_streak_tolerance;
        if last_found_streak > min_len as u32 && summary.len() + 1 < min_len as usize {
            return CurrentRepData {
                streak: last_found_streak + today_streak_point,
                rep_number: (today_count + 1) as u8,
            };
        }

        CurrentRepData {
            streak: last_found_streak + today_streak_point,
            rep_number: (today_count + 1) as u8,
        }
    }
}

/// Every day offset whose record count reaches the minimum has an entry in
/// the day summary.
proof fn lemma_week_summary_upto_complete(
    win: Seq<Task>,
    dates: Seq<Seq<char>>,
    min: u8,
    d: int,
    k: int,
)
    requires
        1 <= k < d,
        count_on_day(win, dates[k]) >= min as nat,
    ensures
        exists|i: int|
            0 <= i < week_summary_upto(win, dates, min, d).len() && (#[trigger] week_summary_upto(
                win,
                dates,
                min,
                d,
            )[i]).0 == dates[k],
    decreases d,
{
    let rest = week_summary_upto(win, dates, min, d - 1);
    let cur = week_summary_upto(win, dates, min, d);
    if k == d - 1 {
        assert(cur[rest.len() as int].0 == dates[k]);
    } else {
        lemma_week_summary_upto_complete(win, dates, min, d - 1, k);
        let i = choose|i: int| 0 <= i < rest.len() && (#[trigger] rest[i]).0 == dates[k];
        assert(cur[i].0 == dates[k]);
    }
}

/// Every entry of the day summary stands for some day offset whose record
/// count reaches the minimum.
proof fn lemma_week_summary_upto_sound(win: Seq<Task>, dates: Seq<Seq<char>>, min: u8, d: int)
    requires
        1 <= d,
    ensures
        forall|i: int|
            0 <= i < week_summary_upto(win, dates, min, d).len() ==> exists|k: int|
                1 <= k < d && (#[trigger] week_summary_upto(win, dates, min, d)[i]).0 == dates[k]
                    && count_on_day(win, dates[k]) >= min as nat,
    decreases d,
{
    if d > 1 {
        lemma_week_summary_upto_sound(win, dates, min, d - 1);
        let rest = week_summary_upto(win, dates, min, d - 1);
        let cur = week_summary_upto(win, dates, min, d);
        assert forall|i: int| 0 <= i < cur.len() implies exists|k: int|
            1 <= k < d && (#[trigger] cur[i]).0 == dates[k] && count_on_day(win, dates[k])
                >= min as nat by {
            if i < rest.len() {
                assert(cur[i] == rest[i]);
                let k = choose|k: int|
                    1 <= k < d - 1 && (#[trigger] rest[i]).0 == dates[k] && count_on_day(
                        win,
                        dates[k],
                    ) >= min as nat;
                assert(cur[i].0 == dates[k] && count_on_day(win, dates[k]) >= min as nat);
            } else {
                assert(cur[i].0 == dates[d - 1] && count_on_day(win, dates[d - 1])
                    >= min as nat);
            }
        }
    }
}

/// A day of the trailing week appears in the day summary if and only if its
/// record count reaches the daily minimum.
pub proof fn lemma_week_summary_day_membership(
    win: Seq<Task>,
    dates: Seq<Seq<char>>,
    min: u8,
    d: int,
)
    requires
        1 <= d < 7,
    ensures
        (exists|i: int|
            0 <= i < week_summary(win, dates, min).len() && (#[trigger] week_summary(
                win,
                dates,
                min,
            )[i]).0 == dates[d]) <==> count_on_day(win, dates[d]) >= min as nat,
{
    let sum = week_summary(win, dates, min);
    if count_on_day(win, dates[d]) >= min as nat {
        lemma_week_summary_upto_complete(win, dates, min, 7, d);
    }
    if exists|i: int| 0 <= i < sum.len() && (#[trigger] sum[i]).0 == dates[d] {
        lemma_week_summary_upto_sound(win, dates, min, 7);
        let i = choose|i: int| 0 <= i < sum.len() && (#[trigger] sum[i]).0 == dates[d];
        let k = choose|k: int|
            1 <= k < 7 && (#[trigger] sum[i]).0 == dates[k] && count_on_day(win, dates[k])
                >= min as nat;
        assert(dates[k] == dates[d]);
    }
}

/// The first window record at or after position `i` that falls on `date`;
/// `None` when no record from `i` on does.
pub open spec fn first_match_from(win: Seq<Task>, date: Seq<char>, i: int) -> Option<Task>
    decreases win.len() - i,
{
    if i < 0 || i >= win.len() {
        None
    } else if on_day(win[i], date) {
        Some(win[i])
    } else {
        first_match_from(win, date, i + 1)
    }
}

/// The first window record that falls on `date`.
pub open spec fn first_match(win: Seq<Task>, date: Seq<char>) -> Option<Task> {
    first_match_from(win, date, 0)
}

/// The lookback of the non-reps calculator, started at offset `d`: one more
/// than the streak of the first record found on the most recent day among
/// offsets `d..=last`; one when no day in that range has a record.
pub open spec fn non_reps_lookback_from(
    win: Seq<Task>,
    dates: Seq<Seq<char>>,
    d: int,
    last: int,
) -> u32
    decreases last - d + 1,
{
    if d > last {
        1u32
    } else {
        match first_match(win, dates[d]) {
            Some(t) => (t.streak.unwrap() + 1) as u32,
            None => non_reps_lookback_from(win, dates, d + 1, last),
        }
    }
}

/// The new streak for a non-repeatable habit with weekly tolerance `w`:
/// the lookback over offsets 1 through `w + 1`, reset to one by the
/// sparse-history guard when the window is too short (fewer than `7 - w`
/// records) to support a streak above `7 - w`.
pub open spec fn non_reps_streak_spec(w: u8, win: Seq<Task>, dates: Seq<Seq<char>>) -> u32 {
    let naive = non_reps_lookback_from(win, dates, 1, w as int + 1);
    if naive > 7 - w as int && win.len() < 7 - w as int {
        1u32
    } else {
        naive
    }
}

impl Task {
    /// The first window record falling on `date`, if any.
    fn find_first_on_day<'a>(last_week_tasks: &'a Vec<Task>, date: &String) -> (r: Option<
        &'a Task,
    >)
        ensures
            match r {
                Some(t) => first_match(last_week_tasks@, date@) == Some(*t) && exists|i: int|
                    0 <= i < last_week_tasks@.len() && last_week_tasks@[i] == *t,
                None => first_match(last_week_tasks@, date@) is None,
            },
    {
        let mut i: usize = 0;
        while i < last_week_tasks.len()
            invariant
                i <= last_week_tasks@.len(),
                first_match(last_week_tasks@, date@) == first_match_from(
                    last_week_tasks@,
                    date@,
                    i as int,
                ),
            decreases last_week_tasks@.len() - i,
        {
            if starts_with(last_week_tasks[i].sk.as_str(), date.as_str()) {
                return Some(&last_week_tasks[i]);
            }
            i += 1;
        }
        None
    }

    /// The non-reps calculator: for a habit logged at most once a day, the new
    /// completion's streak, derived from the trailing window of records.
    ///
    /// The lookback scans offsets 1 (yesterday) through
    /// `weekly_streak_tolerance + 1` for the most recent day with a record and
    /// yields that record's streak plus one; a fresh habit with no match
    /// starts at one.  The sparse-history guard then resets the streak to one
    /// when the window holds fewer than `7 - weekly_streak_tolerance` records
    /// yet the lookback exceeded that bound.
    pub fn compute_non_reps_streak(
        weekly_streak_tolerance: u8,
        last_week_tasks: &Vec<Task>,
        dates: &WeekDates,
    ) -> (streak: u32)
        requires
            dates.wf(),
            weekly_streak_tolerance <= 7,
            window_ok(last_week_tasks@),
        ensures
            streak == non_reps_streak_spec(weekly_streak_tolerance, last_week_tasks@, dates@),
    {
        let ghost win = last_week_tasks@;
        let ghost last = weekly_streak_tolerance as int + 1;
        let mut streak: u32 = 1;

        let mut day: usize = 1;
        let mut found = false;
        while day <= weekly_streak_tolerance as usize + 1 && !found
            invariant
                dates.wf(),
                win == last_week_tasks@,
                window_ok(win),
                weekly_streak_tolerance <= 7,
                last == weekly_streak_tolerance as int + 1,
                1 <= day <= last + 1,
                !found ==> streak == 1 && non_reps_lookback_from(win, dates@, 1, last)
                    == non_reps_lookback_from(win, dates@, day as int, last),
                found ==> streak == non_reps_lookback_from(win, dates@, 1, last),
            decreases last + 1 - day,
        {
            let date = dates.date(day);
            if let Some(t) = Task::find_first_on_day(last_week_tasks, date) {
                streak = t.streak.unwrap() + 1;
                found = true;
            }
            day += 1;
        }

        // The sparse-history guard: a streak must not carry over from a
        // window that is too short to have supported it.  This guard is
        // active, unlike its inert counterpart in the reps calculator.
        let min_len = 7 - weekly_streak_tolerance;
        if streak > min_len as u32 && last_week_tasks.len() < min_len as usize {
            return 1;
        }

        streak
    }
}

/// There is a first record on a date exactly when some record falls on it.
proof fn lemma_first_match_from_exists(win: Seq<Task>, date: Seq<char>, i: int)
    requires
        0 <= i,
    ensures
        first_match_from(win, date, i) is Some <==> exists|j: int|
            i <= j < win.len() && on_day(#[trigger] win[j], date),
    decreases win.len() - i,
{
    if 0 <= i < win.len() && !on_day(win[i], date) {
        lemma_first_match_from_exists(win, date, i + 1);
    }
}

/// The fields a caller supplies to log a completion of the habit `pk`.
#[derive(Debug, Clone)]
pub struct TaskFC {
    pub pk: String,
    pub description: Option<String>,
    pub total_time: Option<String>,
}

/// Why logging a completion is refused.
#[derive(Debug, Clone, Copy, PartialEq, Eq, Structural)]
pub enum CreateTaskError {
    /// No active definition exists for the requested habit.
    ProtoNotFound,
    /// The habit is not repeatable and already has a completion today.
    TaskForTodayExists,
}

impl Task {
    /// Assembles the completion record to persist for a request to log habit
    /// `task_fc` "now", given the habit's definition (as found in the store),
    /// the trailing window of its records, and the calendar.
    ///
    /// Without a definition the request is refused.  The draft copies the
    /// description and duration only where the definition tracks them.  For a
    /// streak-tracking habit the matching calculator fills in the streak, and
    /// the rep number for a repeatable one; a non-repeatable habit with a
    /// record already logged today is refused, and nothing is persisted.
    pub fn create_completion(
        proto: Option<&TaskProto>,
        task_fc: &TaskFC,
        last_week_tasks: &Vec<Task>,
        dates: &WeekDates,
        now: String,
    ) -> (r: Result<Task, CreateTaskError>)
        requires
            dates.wf(),
            proto matches Some(p) ==> p.invariants_hold(),
            proto matches Some(p) ==> (p.has_streak ==> p.weekly_streak_tolerance.unwrap() <= 7
                && window_ok(last_week_tasks@)),
            proto matches Some(p) ==> (p.has_reps ==> last_week_tasks@.len() <= 254),
        ensures
            r matches Err(CreateTaskError::ProtoNotFound) <==> proto is None,
            proto matches Some(p) ==> (r matches Err(CreateTaskError::TaskForTodayExists) <==> (
            p.has_streak && !p.has_reps && exists|j: int|
                0 <= j < last_week_tasks@.len() && on_day(#[trigger] last_week_tasks@[j], dates@[0]))),
            proto matches Some(p) ==> (r matches Ok(t) ==> (t.pk == p.sk && t.sk == now
                && t.readable_name == p.readable_name && t.description == (if p.has_description {
                task_fc.description
            } else {
                None::<String>
            }) && t.total_time == (if p.is_timed {
                task_fc.total_time
            } else {
                None::<String>
            }) && t.streak == (if p.has_streak {
                if p.has_reps {
                    Some(reps_streak_spec(
                        p.daily_reps_minimum.unwrap(),
                        p.weekly_streak_tolerance.unwrap(),
                        last_week_tasks@,
                        dates@,
                    ))
                } else {
                    Some(non_reps_streak_spec(
                        p.weekly_streak_tolerance.unwrap(),
                        last_week_tasks@,
                        dates@,
                    ))
                }
            } else {
                None::<u32>
            }) && t.rep_number == (if p.has_streak && p.has_reps {
                Some(rep_number_spec(last_week_tasks@, dates@))
            } else {
                None::<u8>
            }))),
            proto is Some && !(r matches Err(CreateTaskError::TaskForTodayExists)) ==> r is Ok,
    {
        let task_proto = match proto {
            Some(p) => p,
            None => {
                return Err(CreateTaskError::ProtoNotFound);
            },
        };

        let mut task_to_create = Task {
            pk: task_proto.sk.clone(),
            sk: now,
            readable_name: task_proto.readable_name.clone(),
            description: None,
            streak: None,
            rep_number: None,
            total_time: None,
        };

        if task_proto.has_description {
            if let Some(description) = &task_fc.description {
                task_to_create.description = Some(description.clone());
            }
        }

        if task_proto.is_timed {
            if let Some(total_time) = &task_fc.total_time {
                task_to_create.total_time = Some(total_time.clone());
            }
        }

        if task_proto.has_streak {
            if task_proto.has_reps {
                let current_rep_data = Task::compute_reps_streak(
                    task_proto.daily_reps_minimum.unwrap(),
                    task_proto.weekly_streak_tolerance.unwrap(),
                    last_week_tasks,
                    dates,
                );
                task_to_create.streak = Some(current_rep_data.streak);
                task_to_create.rep_number = Some(current_rep_data.rep_number);
            } else {
                // A non-repeatable habit admits at most one record per day.
                proof {
                    lemma_first_match_from_exists(last_week_tasks@, dates@[0], 0);
                }
                if Task::find_first_on_day(last_week_tasks, dates.date(0)).is_some() {
                    return Err(CreateTaskError::TaskForTodayExists);
                }
                task_to_create.streak = Some(
                    Task::compute_non_reps_streak(
                        task_proto.weekly_streak_tolerance.unwrap(),
                        last_week_tasks,
                        dates,
                    ),
                );
            }
        }

        Ok(task_to_create)
    }
}

impl Task {
    /// A valid completion partition key: a habit identifier.
    pub fn is_valid_pk(pk: &str) -> (r: bool)
        ensures
            r == is_prefix_of("Task::"@, pk@),
    {
        starts_with(pk, "Task::")
    }
}

/// An active habit definition paired with its completions of the trailing
/// week.
pub struct ProtoWithTasks {
    pub proto: TaskProto,
    pub tasks: Vec<Task>,
}

/// On an empty window the non-reps lookback finds nothing.
proof fn lemma_non_reps_lookback_empty(dates: Seq<Seq<char>>, d: int, last: int)
    ensures
        non_reps_lookback_from(Seq::<Task>::empty(), dates, d, last) == 1,
    decreases last - d + 1,
{
    if d <= last {
        lemma_non_reps_lookback_empty(dates, d + 1, last);
    }
}

/// A fresh habit starts a streak of one: on an empty window the non-reps
/// calculator yields 1, whatever the tolerance.
pub proof fn lemma_non_reps_streak_empty_window(w: u8, dates: Seq<Seq<char>>)
    requires
        w <= 7,
    ensures
        non_reps_streak_spec(w, Seq::<Task>::empty(), dates) == 1,
{
    lemma_non_reps_lookback_empty(dates, 1, w as int + 1);
}

/// The non-reps calculator is deterministic: the same tolerance, window and
/// calendar always yield the same streak.
pub proof fn lemma_non_reps_streak_deterministic(
    w1: u8,
    win1: Seq<Task>,
    dates1: Seq<Seq<char>>,
    w2: u8,
    win2: Seq<Task>,
    dates2: Seq<Seq<char>>,
)
    requires
        w1 == w2,
        win1 == win2,
        dates1 == dates2,
    ensures
        non_reps_streak_spec(w1, win1, dates1) == non_reps_streak_spec(w2, win2, dates2),
{
}

/// The sparse-history guard: when the window holds fewer than `7 - w` records
/// and the naive lookback exceeds `7 - w`, the non-reps calculator yields 1.
pub proof fn lemma_non_reps_sparse_history_guard(w: u8, win: Seq<Task>, dates: Seq<Seq<char>>)
    requires
        w <= 7,
        win.len() < 7 - w as int,
        non_reps_lookback_from(win, dates, 1, w as int + 1) > 7 - w as int,
    ensures
        non_reps_streak_spec(w, win, dates) == 1,
{
}

} // verus!
