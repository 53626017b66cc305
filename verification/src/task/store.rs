//! Where snapshots are kept: compare and exchange, one snapshot per task.

use crate::budget::vocabulary::BudgetIdentity;
use crate::record::Record;
use crate::task::file::{CorruptCause, TaskCommitCertainty};
use crate::task::history::{is_naming, unnamed, valid_text, TaskStateError};
use crate::task::snapshot::{succession_fault, SnapshotSize, SnapshotView, TaskSnapshot};
use vstd::prelude::*;

verus! {

#[derive(Clone, Copy, Debug, PartialEq, Eq, Structural)]
pub enum TaskWriteOutcome {
    Applied,
    AlreadyPresent,
}

#[derive(Debug, PartialEq, Eq)]
pub enum TaskStoreError {
    State(TaskStateError),
    Conflict { expected: u64, actual: u64 },
    /// There is no room for another task.
    Capacity,
    /// The file could not be worked on.
    Storage { certainty: TaskCommitCertainty, message: String },
    LimitExceeded { resource: &'static str, limit: u64 },
    /// The log cannot be read from the record of that number on.
    Corrupt { record: u64, cause: CorruptCause },
    Busy,
    Closed,
}

/// Why a snapshot is not of the revision after the expected one, if it is not.
pub open spec fn revision_fault(expected: u64, candidate: SnapshotView, size: SnapshotSize) -> Option<TaskStateError> {
    if let Some(e) = candidate.fault() {
        Some(e)
    } else if !size.is_allowed() {
        Some(TaskStateError::Limit)
    } else if expected == u64::MAX {
        Some(TaskStateError::RevisionExhausted)
    } else if candidate.revision != expected + 1 {
        Some(
            TaskStateError::RevisionMismatch {
                expected: (expected + 1) as u64,
                actual: candidate.revision,
            },
        )
    } else {
        None
    }
}

/// Whether a snapshot is of the revision after the expected one.
pub fn validate_revision(expected: u64, snapshot: &TaskSnapshot, size: &SnapshotSize) -> (result: Result<
    (),
    TaskStateError,
>)
    ensures
        match result {
            Ok(_) => revision_fault(expected, snapshot@, *size) is None,
            Err(e) => revision_fault(expected, snapshot@, *size) == Some(e),
        },
{
    match snapshot.validate(size) {
        Err(e) => {
            return Err(e);
        },
        Ok(_) => {},
    }
    if expected == u64::MAX {
        return Err(TaskStateError::RevisionExhausted);
    }
    let next: u64 = expected + 1;
    if snapshot.revision != next {
        return Err(TaskStateError::RevisionMismatch { expected: next, actual: snapshot.revision });
    }
    Ok(())
}

/// A store in memory, for a limited number of tasks. It keeps nothing beyond the
/// process.
#[derive(Debug, PartialEq, Eq)]
pub struct MemoryTaskStateStore {
    max_tasks: usize,
    values: Vec<TaskSnapshot>,
}

/// The snapshot of a task, from the `k`th on.
pub open spec fn held_at(values: Seq<SnapshotView>, task: Seq<char>, k: int) -> Option<int>
    decreases values.len() - k,
{
    if k < 0 || k >= values.len() {
        None
    } else if values[k].identity.task == task {
        Some(k)
    } else {
        held_at(values, task, k + 1)
    }
}

/// What compare and exchange answers.
pub open spec fn exchange(
    values: Seq<SnapshotView>,
    max_tasks: usize,
    expected: u64,
    candidate: SnapshotView,
    size: SnapshotSize,
) -> Result<TaskWriteOutcome, TaskStoreError> {
    let held = held_at(values, candidate.identity.task, 0);
    let actual: u64 = match held {
        Some(i) => values[i].revision,
        None => 0,
    };
    if let Some(e) = revision_fault(expected, candidate, size) {
        Err(TaskStoreError::State(e))
    } else if held is Some && values[held->0].same_as(candidate) {
        Ok(TaskWriteOutcome::AlreadyPresent)
    } else if actual != expected {
        Err(TaskStoreError::Conflict { expected, actual })
    } else if held is Some && succession_fault(values[held->0], candidate) is Some {
        Err(TaskStoreError::State(succession_fault(values[held->0], candidate)->0))
    } else if held is None && values.len() >= max_tasks {
        Err(TaskStoreError::Capacity)
    } else {
        Ok(TaskWriteOutcome::Applied)
    }
}

/// What is held afterwards.
pub open spec fn exchanged(values: Seq<SnapshotView>, candidate: SnapshotView) -> Seq<SnapshotView> {
    match held_at(values, candidate.identity.task, 0) {
        Some(i) => values.update(i, candidate),
        None => values.push(candidate),
    }
}

impl MemoryTaskStateStore {
    pub closed spec fn view(&self) -> Seq<SnapshotView> {
        self.values.deep_view()
    }

    pub closed spec fn capacity(&self) -> usize {
        self.max_tasks
    }

    pub fn new(max_tasks: usize) -> (result: Result<Self, TaskStateError>)
        ensures
            match result {
                Ok(store) => 0 < max_tasks <= 65_536 && store@.len() == 0 && store.capacity()
                    == max_tasks,
                Err(e) => !(0 < max_tasks <= 65_536) && e == TaskStateError::Limit,
            },
    {
        if max_tasks == 0 || max_tasks > 65_536 {
            return Err(TaskStateError::Limit);
        }
        Ok(MemoryTaskStateStore { max_tasks, values: Vec::new() })
    }

    fn find(&self, task: &crate::id::TaskId) -> (found: Option<usize>)
        ensures
            match found {
                Some(i) => i < self.values@.len() && held_at(self@, task@, 0) == Some(i as int)
                    && self.values@[i as int]@.identity.task == task@,
                None => held_at(self@, task@, 0) is None,
            },
    {
        let ghost views = self.values.deep_view();
        let mut i: usize = 0;
        while i < self.values.len()
            invariant
                i <= self.values@.len(),
                views == self.values.deep_view(),
                held_at(views, task@, 0) == held_at(views, task@, i as int),
            decreases self.values@.len() - i,
        {
            assert(views[i as int] == self.values@[i as int]@);
            if self.values[i].identity.task_id.is_same(task) {
                return Some(i);
            }
            i = i + 1;
        }
        None
    }

    /// The snapshot held for a task, if any.
    pub fn load(&self, identity: &BudgetIdentity) -> (result: Result<Option<TaskSnapshot>, TaskStoreError>)
        ensures
            ({
                let held = held_at(self@, identity@.task, 0);
                if !is_naming(identity@.task) || !is_naming(identity@.session) || !is_naming(
                    identity@.agent,
                ) {
                    result == Err::<Option<TaskSnapshot>, TaskStoreError>(
                        TaskStoreError::State(unnamed()),
                    )
                } else if held is Some && self@[held->0].identity != identity@ {
                    result == Err::<Option<TaskSnapshot>, TaskStoreError>(
                        TaskStoreError::State(TaskStateError::IdentityMismatch),
                    )
                } else {
                    result matches Ok(found) && found.deep_view() == match held {
                        Some(i) => Some(self@[i]),
                        None => None,
                    }
                }
            }),
    {
        match valid_text(identity.task_id.as_str()) {
            Err(e) => {
                return Err(TaskStoreError::State(e));
            },
            Ok(_) => {},
        }
        match valid_text(identity.session_id.as_str()) {
            Err(e) => {
                return Err(TaskStoreError::State(e));
            },
            Ok(_) => {},
        }
        match valid_text(identity.agent_key.as_str()) {
            Err(e) => {
                return Err(TaskStoreError::State(e));
            },
            Ok(_) => {},
        }
        match self.find(&identity.task_id) {
            None => Ok(None),
            Some(i) => {
                assert(self@[i as int] == self.values@[i as int]@);
                if !self.values[i].identity.is_same(identity) {
                    return Err(TaskStoreError::State(TaskStateError::IdentityMismatch));
                }
                Ok(Some(self.values[i].duplicate()))
            },
        }
    }

    /// Replaces the snapshot of the expected revision (zero where there is none) by its
    /// successor.
    pub fn compare_exchange(&mut self, expected_revision: u64, candidate: &TaskSnapshot, size: &SnapshotSize) -> (result: Result<
        TaskWriteOutcome,
        TaskStoreError,
    >)
        ensures
            result == exchange(
                old(self)@,
                old(self).capacity(),
                expected_revision,
                candidate@,
                *size,
            ),
            final(self).capacity() == old(self).capacity(),
            final(self)@ == if result == Ok::<TaskWriteOutcome, TaskStoreError>(
                TaskWriteOutcome::Applied,
            ) {
                exchanged(old(self)@, candidate@)
            } else {
                old(self)@
            },
    {
        match validate_revision(expected_revision, candidate, size) {
            Err(e) => {
                return Err(TaskStoreError::State(e));
            },
            Ok(_) => {},
        }
        let ghost before = self.values.deep_view();
        let ghost held = self.values@;
        let found = self.find(&candidate.identity.task_id);
        match found {
            Some(i) => {
                assert(before[i as int] == held[i as int]@);
                if self.values[i].is_same_state(candidate) {
                    return Ok(TaskWriteOutcome::AlreadyPresent);
                }
                let actual: u64 = self.values[i].revision;
                if actual != expected_revision {
                    return Err(TaskStoreError::Conflict { expected: expected_revision, actual });
                }
                match candidate.check_succession(&self.values[i]) {
                    Err(e) => {
                        return Err(TaskStoreError::State(e));
                    },
                    Ok(_) => {},
                }
                let copy = candidate.duplicate();
                self.values.set(i, copy);
                proof {
                    assert forall|k: int| 0 <= k < before.len() implies self.values.deep_view()[k]
                        == before.update(i as int, candidate@)[k] by {
                        if k != i {
                            assert(self.values@[k] == held[k]);
                        }
                    }
                    assert(self.values.deep_view() =~= before.update(i as int, candidate@));
                }
            },
            None => {
                if expected_revision != 0 {
                    return Err(
                        TaskStoreError::Conflict { expected: expected_revision, actual: 0 },
                    );
                }
                assert(before.len() == held.len());
                if self.values.len() >= self.max_tasks {
                    return Err(TaskStoreError::Capacity);
                }
                let copy = candidate.duplicate();
                self.values.push(copy);
                assert(self.values.deep_view() =~= before.push(candidate@));
            },
        }
        Ok(TaskWriteOutcome::Applied)
    }
}

proof fn held_is_there(values: Seq<SnapshotView>, task: Seq<char>, k: int)
    requires
        0 <= k,
    ensures
        match held_at(values, task, k) {
            Some(i) => k <= i < values.len() && values[i].identity.task == task,
            None => forall|i: int| k <= i < values.len() ==> (#[trigger] values[i]).identity.task != task,
        },
    decreases values.len() - k,
{
    if k < values.len() {
        held_is_there(values, task, k + 1);
    }
}

proof fn held_after(values: Seq<SnapshotView>, candidate: SnapshotView, k: int)
    requires
        0 <= k <= values.len(),
        forall|i: int| 0 <= i < k ==> (#[trigger] values[i]).identity.task != candidate.identity.task,
    ensures
        ({
            let at = held_at(exchanged(values, candidate), candidate.identity.task, k);
            at is Some && 0 <= at->0 < exchanged(values, candidate).len() && exchanged(
                values,
                candidate,
            )[at->0] == candidate
        }),
    decreases values.len() - k,
{
    held_is_there(values, candidate.identity.task, 0);
    let after = exchanged(values, candidate);
    if k < values.len() {
        if values[k].identity.task == candidate.identity.task {
            let i = held_at(values, candidate.identity.task, 0)->0;
            assert(i == k) by {
                first_is_first(values, candidate.identity.task, 0, k);
            }
        } else {
            assert(after[k] == values[k]);
            held_after(values, candidate, k + 1);
        }
    }
}

proof fn first_is_first(values: Seq<SnapshotView>, task: Seq<char>, k: int, i: int)
    requires
        0 <= k <= i < values.len(),
        values[i].identity.task == task,
        forall|j: int| k <= j < i ==> (#[trigger] values[j]).identity.task != task,
    ensures
        held_at(values, task, k) == Some(i),
    decreases i - k,
{
    if k < i {
        first_is_first(values, task, k + 1, i);
    }
}

/// What was written is what a load finds, and writing it again changes nothing.
pub proof fn written_snapshots_are_found(values: Seq<SnapshotView>, candidate: SnapshotView, max_tasks: usize, size: SnapshotSize, expected: u64)
    requires
        exchange(values, max_tasks, expected, candidate, size) == Ok::<
            TaskWriteOutcome,
            TaskStoreError,
        >(TaskWriteOutcome::Applied),
    ensures
        ({
            let after = exchanged(values, candidate);
            let at = held_at(after, candidate.identity.task, 0);
            &&& at is Some
            &&& after[at->0] == candidate
            &&& exchange(after, max_tasks, expected, candidate, size) == Ok::<
                TaskWriteOutcome,
                TaskStoreError,
            >(TaskWriteOutcome::AlreadyPresent)
        }),
{
    held_after(values, candidate, 0);
}

/// Two writers that expect the same revision cannot both succeed with different
/// snapshots.
pub proof fn one_writer_wins(values: Seq<SnapshotView>, first: SnapshotView, second: SnapshotView, max_tasks: usize, size: SnapshotSize, expected: u64)
    requires
        exchange(values, max_tasks, expected, first, size) == Ok::<TaskWriteOutcome, TaskStoreError>(
            TaskWriteOutcome::Applied,
        ),
        first.identity.task == second.identity.task,
        !first.same_as(second),
        revision_fault(expected, second, size) is None,
    ensures
        exchange(exchanged(values, first), max_tasks, expected, second, size) == Err::<
            TaskWriteOutcome,
            TaskStoreError,
        >(TaskStoreError::Conflict { expected, actual: (expected + 1) as u64 }),
{
    held_after(values, first, 0);
}

} // verus!
