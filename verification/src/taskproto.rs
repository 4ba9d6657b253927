//! Habit definitions ("protos").  A [`TaskProto`] configures one habit:
//! whether it tracks a description, a streak, daily reps or a duration, and
//! the thresholds that govern streak continuity.  A definition lives under
//! one of two partition keys, `"TaskProto::Active"` or `"TaskProto::Inactive"`.
//! The functions here validate definitions and decide state transitions; the
//! surrounding service performs the store reads and writes they ask for.

use vstd::prelude::*;

use crate::text::{is_prefix_of, starts_with, str_eq};

verus! {

/// A habit definition.  `sk` is the identifier of the habit it configures
/// (`"Task::Workout"`); `pk` is its activity state.
#[derive(Debug, Clone)]
pub struct TaskProto {
    pub pk: String,
    pub sk: String,
    pub readable_name: String,
    pub has_description: bool,
    pub has_streak: bool,
    pub has_reps: bool,
    pub daily_reps_minimum: Option<u8>,
    pub weekly_streak_tolerance: Option<u8>,
    pub is_timed: bool,
    pub priority: i64,
}

/// The fields a caller supplies to create or update a definition.
#[derive(Debug, Clone)]
pub struct TaskProtoFC {
    pub sk: String,
    pub readable_name: String,
    pub has_description: bool,
    pub has_streak: bool,
    pub has_reps: bool,
    pub daily_reps_minimum: Option<u8>,
    pub weekly_streak_tolerance: Option<u8>,
    pub is_timed: bool,
    pub priority: i64,
}

impl TaskProto {
    /// The invariants of a well-formed definition: reps imply a streak, a
    /// streak comes with exactly a weekly tolerance, and reps come with
    /// exactly a daily minimum.
    pub open spec fn invariants_hold(&self) -> bool {
        &&& self.has_reps ==> self.has_streak
        &&& self.has_streak <==> self.weekly_streak_tolerance is Some
        &&& self.has_reps <==> self.daily_reps_minimum is Some
    }

    /// Builds a definition from supplied fields and a partition key.
    pub fn new(t_fc: TaskProtoFC, pk: String) -> (r: TaskProto)
        ensures
            r.pk == pk,
            r.sk == t_fc.sk,
            r.readable_name == t_fc.readable_name,
            r.has_description == t_fc.has_description,
            r.has_streak == t_fc.has_streak,
            r.has_reps == t_fc.has_reps,
            r.daily_reps_minimum == t_fc.daily_reps_minimum,
            r.weekly_streak_tolerance == t_fc.weekly_streak_tolerance,
            r.is_timed == t_fc.is_timed,
            r.priority == t_fc.priority,
    {
        TaskProto {
            pk,
            sk: t_fc.sk,
            readable_name: t_fc.readable_name,
            has_description: t_fc.has_description,
            has_streak: t_fc.has_streak,
            has_reps: t_fc.has_reps,
            daily_reps_minimum: t_fc.daily_reps_minimum,
            weekly_streak_tolerance: t_fc.weekly_streak_tolerance,
            is_timed: t_fc.is_timed,
            priority: t_fc.priority,
        }
    }
}

/// Why supplied definition fields are rejected.
#[derive(Debug, Clone, Copy, PartialEq, Eq, Structural)]
pub enum ProtoValidationError {
    /// Reps are requested without a streak.
    RepsWithoutStreak,
    /// A streak is requested without a weekly tolerance.
    StreakWithoutTolerance,
    /// A weekly tolerance is supplied without a streak.
    ToleranceWithoutStreak,
    /// Reps are requested without a daily minimum.
    RepsWithoutMinimum,
    /// A daily minimum is supplied without reps.
    MinimumWithoutReps,
}

/// The first invariant that the supplied fields violate, checked in the order
/// the service reports them; `None` when they are consistent.
pub open spec fn proto_validation(fc: TaskProtoFC) -> Option<ProtoValidationError> {
    if !fc.has_streak && fc.has_reps {
        Some(ProtoValidationError::RepsWithoutStreak)
    } else if fc.has_streak && fc.weekly_streak_tolerance is None {
        Some(ProtoValidationError::StreakWithoutTolerance)
    } else if !fc.has_streak && fc.weekly_streak_tolerance is Some {
        Some(ProtoValidationError::ToleranceWithoutStreak)
    } else if fc.has_reps && fc.daily_reps_minimum is None {
        Some(ProtoValidationError::RepsWithoutMinimum)
    } else if !fc.has_reps && fc.daily_reps_minimum is Some {
        Some(ProtoValidationError::MinimumWithoutReps)
    } else {
        None
    }
}

impl TaskProtoFC {
    /// Checks the supplied fields against the definition invariants.
    pub fn validate(&self) -> (r: Result<(), ProtoValidationError>)
        ensures
            match r {
                Ok(()) => proto_validation(*self) is None,
                Err(e) => proto_validation(*self) == Some(e),
            },
    {
        if !self.has_streak && self.has_reps {
            Err(ProtoValidationError::RepsWithoutStreak)
        } else if self.has_streak && self.weekly_streak_tolerance.is_none() {
            Err(ProtoValidationError::StreakWithoutTolerance)
        } else if !self.has_streak && self.weekly_streak_tolerance.is_some() {
            Err(ProtoValidationError::ToleranceWithoutStreak)
        } else if self.has_reps && self.daily_reps_minimum.is_none() {
            Err(ProtoValidationError::RepsWithoutMinimum)
        } else if !self.has_reps && self.daily_reps_minimum.is_some() {
            Err(ProtoValidationError::MinimumWithoutReps)
        } else {
            Ok(())
        }
    }
}

/// Why a create, update or state change of a definition is refused.
#[derive(Debug, Clone, Copy, PartialEq, Eq, Structural)]
pub enum ProtoStoreError {
    /// A definition with the given sort key already exists.
    AlreadyExists,
    /// No definition with the given sort key exists.
    DoesNotExist,
    /// The definition exists as both active and inactive at once.
    CorruptedBothStates,
    /// The definition to move from was not found.
    SourceMissing,
    /// A definition already sits in the target state.
    TargetAlreadyExists,
}

/// What a create or update decides: either the definition to persist or an
/// error to report.  The store itself is read and written by the caller.
#[derive(Debug, Clone, Copy, PartialEq, Eq, Structural)]
pub enum ProtoCreateError {
    /// The store already holds a matching definition.
    Store(ProtoStoreError),
    /// The supplied fields violate the definition invariants.
    Validation(ProtoValidationError),
}

impl TaskProto {
    /// Decides a create request, given whether an inactive definition with the
    /// same sort key was found: refuses a duplicate, validates the fields and
    /// yields the definition to persist as active.
    pub fn create(inactive_exists: bool, t_fc: TaskProtoFC) -> (r: Result<
        TaskProto,
        ProtoCreateError,
    >)
        ensures
            r matches Err(ProtoCreateError::Store(ProtoStoreError::AlreadyExists))
                <==> inactive_exists,
            !inactive_exists ==> match proto_validation(t_fc) {
                Some(e) => r == Err::<TaskProto, ProtoCreateError>(ProtoCreateError::Validation(e)),
                None => r matches Ok(p) && p.pk@ == "TaskProto::Active"@ && p.sk == t_fc.sk
                    && p.readable_name == t_fc.readable_name && p.has_description
                    == t_fc.has_description && p.has_streak == t_fc.has_streak && p.has_reps
                    == t_fc.has_reps && p.daily_reps_minimum == t_fc.daily_reps_minimum
                    && p.weekly_streak_tolerance == t_fc.weekly_streak_tolerance && p.is_timed
                    == t_fc.is_timed && p.priority == t_fc.priority && p.invariants_hold(),
            },
    {
        if inactive_exists {
            return Err(ProtoCreateError::Store(ProtoStoreError::AlreadyExists));
        }
        if let Err(e) = t_fc.validate() {
            return Err(ProtoCreateError::Validation(e));
        }
        let pk = "TaskProto::Active".to_owned();
        Ok(TaskProto::new(t_fc, pk))
    }

    /// Decides an update request, given whether an active and an inactive
    /// definition with the same sort key were found: yields the definition to
    /// persist, under the state it was found in (a definition found in
    /// neither state is written as inactive, as the service has always done).
    pub fn update(active_exists: bool, inactive_exists: bool, t_fc: TaskProtoFC) -> (r: Result<
        TaskProto,
        ProtoStoreError,
    >)
        ensures
            r matches Err(ProtoStoreError::DoesNotExist) <==> !active_exists && inactive_exists,
            r matches Err(ProtoStoreError::CorruptedBothStates) <==> active_exists
                && inactive_exists,
            !inactive_exists ==> (r matches Ok(p) && p.sk == t_fc.sk && p.readable_name
                == t_fc.readable_name && p.has_description == t_fc.has_description && p.has_streak
                == t_fc.has_streak && p.has_reps == t_fc.has_reps && p.daily_reps_minimum
                == t_fc.daily_reps_minimum && p.weekly_streak_tolerance
                == t_fc.weekly_streak_tolerance && p.is_timed == t_fc.is_timed && p.priority
                == t_fc.priority && (if active_exists {
                p.pk@ == "TaskProto::Active"@
            } else {
                p.pk@ == "TaskProto::Inactive"@
            })),
    {
        if !active_exists && inactive_exists {
            return Err(ProtoStoreError::DoesNotExist);
        }
        if active_exists && inactive_exists {
            return Err(ProtoStoreError::CorruptedBothStates);
        }
        let pk = if active_exists {
            "TaskProto::Active".to_owned()
        } else {
            "TaskProto::Inactive".to_owned()
        };
        Ok(TaskProto::new(t_fc, pk))
    }

    /// Decides a request to mark a definition active, given the inactive
    /// definition that was found (if any) and whether an active one already
    /// exists: yields the definition to persist under the active state; the
    /// caller then deletes the inactive one.
    pub fn set_as_active(found_inactive: Option<TaskProto>, active_exists: bool) -> (r: Result<
        TaskProto,
        ProtoStoreError,
    >)
        ensures
            r matches Err(ProtoStoreError::SourceMissing) <==> found_inactive is None,
            found_inactive is Some ==> (r matches Err(ProtoStoreError::TargetAlreadyExists)
                <==> active_exists),
            found_inactive is Some && !active_exists ==> (r matches Ok(q) && {
                let p = found_inactive.unwrap();
                q.pk@ == "TaskProto::Active"@ && q.sk == p.sk && q.readable_name
                    == p.readable_name && q.has_description == p.has_description && q.has_streak
                    == p.has_streak && q.has_reps == p.has_reps && q.daily_reps_minimum
                    == p.daily_reps_minimum && q.weekly_streak_tolerance
                    == p.weekly_streak_tolerance && q.is_timed == p.is_timed && q.priority
                    == p.priority
            }),
    {
        let mut found = match found_inactive {
            Some(p) => p,
            None => {
                return Err(ProtoStoreError::SourceMissing);
            },
        };
        if active_exists {
            return Err(ProtoStoreError::TargetAlreadyExists);
        }
        found.pk = "TaskProto::Active".to_owned();
        Ok(found)
    }

    /// Decides a request to mark a definition inactive; the mirror image of
    /// [`TaskProto::set_as_active`].
    pub fn set_as_inactive(found_active: Option<TaskProto>, inactive_exists: bool) -> (r: Result<
        TaskProto,
        ProtoStoreError,
    >)
        ensures
            r matches Err(ProtoStoreError::SourceMissing) <==> found_active is None,
            found_active is Some ==> (r matches Err(ProtoStoreError::TargetAlreadyExists)
                <==> inactive_exists),
            found_active is Some && !inactive_exists ==> (r matches Ok(q) && {
                let p = found_active.unwrap();
                q.pk@ == "TaskProto::Inactive"@ && q.sk == p.sk && q.readable_name
                    == p.readable_name && q.has_description == p.has_description && q.has_streak
                    == p.has_streak && q.has_reps == p.has_reps && q.daily_reps_minimum
                    == p.daily_reps_minimum && q.weekly_streak_tolerance
                    == p.weekly_streak_tolerance && q.is_timed == p.is_timed && q.priority
                    == p.priority
            }),
    {
        let mut found = match found_active {
            Some(p) => p,
            None => {
                return Err(ProtoStoreError::SourceMissing);
            },
        };
        if inactive_exists {
            return Err(ProtoStoreError::TargetAlreadyExists);
        }
        found.pk = "TaskProto::Inactive".to_owned();
        Ok(found)
    }

    /// A valid definition partition key: one of the two activity states.
    pub fn is_valid_state_pk(pk: &str) -> (r: bool)
        ensures
            r == (pk@ == "TaskProto::Active"@ || pk@ == "TaskProto::Inactive"@),
    {
        str_eq(pk, "TaskProto::Active") || str_eq(pk, "TaskProto::Inactive")
    }

    /// A valid definition sort key: a habit identifier.
    pub fn is_valid_task_sk(sk: &str) -> (r: bool)
        ensures
            r == is_prefix_of("Task::"@, sk@),
    {
        starts_with(sk, "Task::")
    }

    /// A deletable definition partition key: any definition state.
    pub fn is_valid_proto_pk_prefix(pk: &str) -> (r: bool)
        ensures
            r == is_prefix_of("TaskProto::"@, pk@),
    {
        starts_with(pk, "TaskProto::")
    }
}

/// The definitions are ordered by descending priority.
pub open spec fn sorted_by_priority_desc(s: Seq<TaskProto>) -> bool {
    forall|i: int, j: int| 0 <= i < j < s.len() ==> #[trigger] s[i].priority >= #[trigger] s[j].priority
}

/// The index of a definition of greatest priority among `tasks`.
fn index_of_max_priority(tasks: &Vec<TaskProto>) -> (m: usize)
    requires
        tasks@.len() > 0,
    ensures
        m < tasks@.len(),
        forall|i: int| 0 <= i < tasks@.len() ==> tasks@[m as int].priority >= #[trigger] tasks@[i].priority,
{
    let mut m: usize = 0;
    let mut k: usize = 1;
    while k < tasks.len()
        invariant
            tasks@.len() > 0,
            m < k <= tasks@.len(),
            forall|i: int| 0 <= i < k ==> tasks@[m as int].priority >= #[trigger] tasks@[i].priority,
        decreases tasks@.len() - k,
    {
        if tasks[k].priority > tasks[m].priority {
            m = k;
        }
        k += 1;
    }
    m
}

/// Orders definitions for a listing: highest priority first.  The result
/// holds exactly the given definitions.
pub fn sort_by_priority_desc(tasks: Vec<TaskProto>) -> (r: Vec<TaskProto>)
    ensures
        r@.to_multiset() == tasks@.to_multiset(),
        sorted_by_priority_desc(r@),
{
    broadcast use vstd::seq_lib::group_to_multiset_ensures;

    let ghost all = tasks@;
    let mut rest = tasks;
    let mut out: Vec<TaskProto> = Vec::new();
    while rest.len() > 0
        invariant
            out@.to_multiset().add(rest@.to_multiset()) == all.to_multiset(),
            sorted_by_priority_desc(out@),
            forall|i: int, j: int|
                0 <= i < out@.len() && 0 <= j < rest@.len() ==> #[trigger] out@[i].priority
                    >= #[trigger] rest@[j].priority,
        decreases rest@.len(),
    {
        broadcast use vstd::seq_lib::group_to_multiset_ensures;

        let ghost rest0 = rest@;
        let ghost out0 = out@;
        let m = index_of_max_priority(&rest);
        let t = rest.remove(m);
        out.push(t);
        proof {
            assert(rest0.contains(rest0[m as int]));
            assert(out@.to_multiset().add(rest@.to_multiset()) =~= all.to_multiset());
            assert forall|i: int, j: int|
                0 <= i < out@.len() && 0 <= j < rest@.len() implies #[trigger] out@[i].priority
                >= #[trigger] rest@[j].priority by {
                assert(rest@[j] == if j < m { rest0[j] } else { rest0[j + 1] });
                if i < out0.len() {
                    assert(out@[i] == out0[i]);
                }
            }
        }
    }
    out
}

} // verus!
