//! Task-list entries: the variant of habit definitions kept under the
//! `"TaskList::Active"` / `"TaskList::Inactive"` partition keys.  Unlike
//! [`crate::taskproto`], lookups here return every matching row, so the
//! update decision also detects duplicated rows as corruption.

use vstd::prelude::*;

use crate::text::{is_prefix_of, starts_with, str_eq};

verus! {

/// A habit definition row of the task list.  `sk` is the identifier of the
/// habit it configures; `pk` is its activity state.
#[derive(Debug, Clone)]
pub struct TaskListEntry {
    pub pk: String,
    pub sk: String,
    pub readable_name: String,
    pub has_description: bool,
    pub has_streak: bool,
    pub has_reps: bool,
    pub daily_reps_minimum: Option<u8>,
    pub weekly_streak_tolerance: Option<u8>,
    pub is_timed: bool,
}

/// The fields a caller supplies to create or update a task-list entry.
#[derive(Debug, Clone)]
pub struct TaskListEntryFC {
    pub sk: String,
    pub readable_name: String,
    pub has_description: bool,
    pub has_streak: bool,
    pub has_reps: bool,
    pub daily_reps_minimum: Option<u8>,
    pub weekly_streak_tolerance: Option<u8>,
    pub is_timed: bool,
}

/// Why a create or update of a task-list entry is refused.
#[derive(Debug, Clone, Copy, PartialEq, Eq, Structural)]
pub enum TaskListError {
    /// An entry with the given sort key already exists.
    AlreadyExists,
    /// No entry with the given sort key exists.
    DoesNotExist,
    /// The entry exists as both active and inactive at once.
    CorruptedBothStates,
    /// More than one active entry shares the sort key.
    CorruptedDuplicateActive,
    /// More than one inactive entry shares the sort key.
    CorruptedDuplicateInactive,
}

/// The fields of `r` are those of `t_fc` under partition key `pk`.
pub open spec fn entry_built_from(r: TaskListEntry, t_fc: TaskListEntryFC, pk: Seq<char>) -> bool {
    &&& r.pk@ == pk
    &&& r.sk == t_fc.sk
    &&& r.readable_name == t_fc.readable_name
    &&& r.has_description == t_fc.has_description
    &&& r.has_streak == t_fc.has_streak
    &&& r.has_reps == t_fc.has_reps
    &&& r.daily_reps_minimum == t_fc.daily_reps_minimum
    &&& r.weekly_streak_tolerance == t_fc.weekly_streak_tolerance
    &&& r.is_timed == t_fc.is_timed
}

impl TaskListEntry {
    /// Builds an entry from supplied fields and a partition key.
    pub fn new(t_fc: TaskListEntryFC, pk: String) -> (r: TaskListEntry)
        ensures
            entry_built_from(r, t_fc, pk@),
            r.pk == pk,
    {
        TaskListEntry {
            pk,
            sk: t_fc.sk,
            readable_name: t_fc.readable_name,
            has_description: t_fc.has_description,
            has_streak: t_fc.has_streak,
            has_reps: t_fc.has_reps,
            daily_reps_minimum: t_fc.daily_reps_minimum,
            weekly_streak_tolerance: t_fc.weekly_streak_tolerance,
            is_timed: t_fc.is_timed,
        }
    }

    /// Decides a create request, given how many active and inactive entries
    /// with the same sort key were found: yields the entry to persist as
    /// active only when the sort key is entirely unused.
    pub fn create(active_count: usize, inactive_count: usize, t_fc: TaskListEntryFC) -> (r: Result<
        TaskListEntry,
        TaskListError,
    >)
        ensures
            r is Err <==> active_count > 0 || inactive_count > 0,
            r is Err ==> r == Err::<TaskListEntry, TaskListError>(TaskListError::AlreadyExists),
            r matches Ok(e) ==> entry_built_from(e, t_fc, "TaskList::Active"@),
    {
        if active_count == 0 && inactive_count == 0 {
            let pk = "TaskList::Active".to_owned();
            return Ok(TaskListEntry::new(t_fc, pk));
        }
        Err(TaskListError::AlreadyExists)
    }

    /// Decides an update request, given how many active and inactive entries
    /// with the same sort key were found: refuses a missing, doubled or
    /// duplicated entry, and otherwise yields the entry to persist under the
    /// state it was found in.
    pub fn update(active_count: usize, inactive_count: usize, t_fc: TaskListEntryFC) -> (r: Result<
        TaskListEntry,
        TaskListError,
    >)
        ensures
            r matches Err(TaskListError::DoesNotExist) <==> active_count == 0 && inactive_count
                == 0,
            r matches Err(TaskListError::CorruptedBothStates) <==> active_count > 0
                && inactive_count > 0,
            r matches Err(TaskListError::CorruptedDuplicateActive) <==> active_count > 1
                && inactive_count == 0,
            r matches Err(TaskListError::CorruptedDuplicateInactive) <==> active_count == 0
                && inactive_count > 1,
            r is Ok <==> (active_count == 1 && inactive_count == 0) || (active_count == 0
                && inactive_count == 1),
            r matches Ok(e) ==> entry_built_from(
                e,
                t_fc,
                if active_count > 0 {
                    "TaskList::Active"@
                } else {
                    "TaskList::Inactive"@
                },
            ),
    {
        if active_count == 0 && inactive_count == 0 {
            return Err(TaskListError::DoesNotExist);
        }
        if active_count > 0 && inactive_count > 0 {
            return Err(TaskListError::CorruptedBothStates);
        }
        if active_count > 1 {
            return Err(TaskListError::CorruptedDuplicateActive);
        }
        if inactive_count > 1 {
            return Err(TaskListError::CorruptedDuplicateInactive);
        }
        let pk = if active_count > 0 {
            "TaskList::Active".to_owned()
        } else {
            "TaskList::Inactive".to_owned()
        };
        Ok(TaskListEntry::new(t_fc, pk))
    }

    /// A valid task-list partition key: one of the two activity states.
    pub fn is_valid_state_pk(pk: &str) -> (r: bool)
        ensures
            r == (pk@ == "TaskList::Active"@ || pk@ == "TaskList::Inactive"@),
    {
        str_eq(pk, "TaskList::Active") || str_eq(pk, "TaskList::Inactive")
    }

    /// A valid task-list sort key: a habit identifier.
    pub fn is_valid_task_sk(sk: &str) -> (r: bool)
        ensures
            r == is_prefix_of("Task::"@, sk@),
    {
        starts_with(sk, "Task::")
    }
}

} // verus!
