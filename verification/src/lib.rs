//! Core of a personal habit/journal tracker backed by a single key-value
//! table.  The interesting part is the streak/rep engine in [`task`]: given a
//! trailing window of past completions and a habit's configuration, it derives
//! the new completion's consecutive-day streak and, for repeatable habits, its
//! rep number for the day.  The calculators are pure functions of the window
//! and an explicit calendar (see [`dates::WeekDates`]); all storage and HTTP
//! plumbing lives outside this crate and hands the engine plain values.

pub mod archive;
pub mod dates;
pub mod entry;
pub mod entryproto;
pub mod record;
pub mod task;
pub mod tasklist;
pub mod taskproto;
pub mod text;
