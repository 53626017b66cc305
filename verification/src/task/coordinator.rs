//! Continuing a task: who may, with what words, and what is published afterwards.
//!
//! The host loads and writes; before each step it asks here whether the step may be
//! taken.

use crate::budget::execution;
use crate::budget::execution::{verify_checkpoint_history, BudgetExecutionError};
use crate::budget::sealed::{BudgetCheckpoint, CheckpointView};
use crate::budget::vocabulary::{BudgetIdentity, BudgetLimits};
use crate::id::TurnId;
use crate::json::{json_string, quote};
use crate::record::Record;
use crate::session::event::{SessionEvent, SessionEventView};
use crate::session::jsonl::SessionPersistenceError;
use crate::task::history::TaskStateError;
use crate::task::snapshot::{
    capture_fault, captured, evidence_fault, Payload, PhaseView, SnapshotSize, SnapshotView, TaskCompatibility,
    TaskPhase, TaskSnapshot,
};
use crate::task::store::TaskStoreError;
use crate::text::{is_bounded_text, text_within};
use vstd::prelude::*;

verus! {

/// Every continuation is a new turn. A reply goes to the turn that waits for it; it
/// consents to nothing that was denied before.
#[allow(inconsistent_fields)]
#[derive(Debug, PartialEq, Eq)]
pub enum TaskIntent {
    Start { message: String },
    Continue { instruction: String },
    Reply { reply_to: TurnId, answer: String },
}

#[allow(inconsistent_fields)]
pub enum IntentView {
    Start { message: Seq<char> },
    Continue { instruction: Seq<char> },
    Reply { reply_to: Seq<char>, answer: Seq<char> },
}

impl TaskIntent {
    pub open spec fn view(&self) -> IntentView {
        match self {
            TaskIntent::Start { message } => IntentView::Start { message: message@ },
            TaskIntent::Continue { instruction } => IntentView::Continue {
                instruction: instruction@,
            },
            TaskIntent::Reply { reply_to, answer } => IntentView::Reply {
                reply_to: reply_to@,
                answer: answer@,
            },
        }
    }
}

#[derive(Debug, PartialEq, Eq)]
pub struct TaskResumeRequest {
    pub expected_revision: u64,
    /// What the host expects now, not what a snapshot says.
    pub compatibility: TaskCompatibility,
    pub host_limits: BudgetLimits,
    pub run_limits: BudgetLimits,
    pub intent: TaskIntent,
}

#[derive(Debug, PartialEq, Eq)]
pub enum TaskCoordinatorError {
    /// Busy or closed.
    Unavailable,
    /// There is no state; it is to be initialized explicitly.
    Missing,
    /// Phase and continuation do not match.
    InvalidIntent,
    Denied(String),
    /// Cancelled; a claim that was taken may need an audit.
    Cancelled,
    /// The worker was lost; storage is to be reconciled before any retry.
    WorkerLost,
    RuntimeRequired,
    State(TaskStateError),
    Store(TaskStoreError),
    Budget(BudgetExecutionError),
    Session(SessionPersistenceError),
}

#[derive(Debug, PartialEq, Eq)]
pub enum TaskPublishError {
    /// The evidence could not be confirmed.
    Evidence(TaskCoordinatorError),
    /// The application refused the state.
    Payload(String),
    /// The same image is to be tried again with the revision before it; the turn is
    /// never run again.
    Commit { candidate: Box<TaskSnapshot>, source: TaskStoreError },
}

pub const MAX_CONTINUATION_BYTES: usize = 65_536;

/// What the user says to the task, where the intent fits its phase.
pub open spec fn spoken(snapshot: SnapshotView, intent: IntentView) -> Option<Seq<char>> {
    match (snapshot.phase, intent) {
        (PhaseView::Created, IntentView::Start { message }) => Some(message),
        (PhaseView::Completed, IntentView::Continue { instruction }) => Some(instruction),
        (PhaseView::WaitingForInput { .. }, IntentView::Reply { reply_to, answer }) => if snapshot.cursor
            is Some && snapshot.cursor->0.turn == reply_to {
            Some(answer)
        } else {
            None
        },
        _ => None,
    }
}

/// The words of a new turn, by phase and intent.
pub open spec fn message_of(snapshot: SnapshotView, intent: IntentView) -> Option<Seq<char>> {
    if spoken(snapshot, intent) is None || !is_bounded_text(
        spoken(snapshot, intent)->0,
        MAX_CONTINUATION_BYTES as nat,
    ) {
        None
    } else {
        Some(
            match intent {
                IntentView::Start { message } => message,
                IntentView::Continue { instruction } => "{\"checkpoint_turn\":"@ + (
                match snapshot.cursor {
                    Some(cursor) => json_string(cursor.turn),
                    None => "null"@,
                }) + ",\"instruction\":"@ + json_string(instruction) + ",\"task_id\":"@
                    + json_string(snapshot.identity.task) + ",\"type\":\"task_continue_v1\"}"@,
                IntentView::Reply { reply_to, answer } => "{\"answer\":"@ + json_string(answer)
                    + ",\"reply_to\":"@ + json_string(reply_to) + ",\"task_id\":"@ + json_string(
                    snapshot.identity.task,
                ) + ",\"type\":\"reference_reply_v1\"}"@,
            },
        )
    }
}

/// Whether the intent fits the phase of the task, and what it says.
fn fits_phase<'a>(snapshot: &TaskSnapshot, intent: &'a TaskIntent) -> (text: Option<&'a String>)
    ensures
        match text {
            Some(text) => spoken(snapshot@, intent@) == Some(text@),
            None => spoken(snapshot@, intent@) is None,
        },
{
    match (&snapshot.phase, intent) {
        (TaskPhase::Created, TaskIntent::Start { message }) => Some(message),
        (TaskPhase::Completed, TaskIntent::Continue { instruction }) => Some(instruction),
        (TaskPhase::WaitingForInput { .. }, TaskIntent::Reply { reply_to, answer }) => {
            match &snapshot.cursor {
                Some(cursor) => if cursor.turn_id.is_same(reply_to) {
                    Some(answer)
                } else {
                    None
                },
                None => None,
            }
        },
        _ => None,
    }
}

/// The words of a new turn.
pub fn message(snapshot: &TaskSnapshot, intent: &TaskIntent) -> (result: Result<String, TaskCoordinatorError>)
    ensures
        match result {
            Ok(text) => message_of(snapshot@, intent@) == Some(text@),
            Err(e) => message_of(snapshot@, intent@) is None && e
                == TaskCoordinatorError::InvalidIntent,
        },
{
    match fits_phase(snapshot, intent) {
        None => {
            return Err(TaskCoordinatorError::InvalidIntent);
        },
        Some(text) => {
            if !text_within(text.as_str(), MAX_CONTINUATION_BYTES) {
                return Err(TaskCoordinatorError::InvalidIntent);
            }
        },
    }
    match intent {
        TaskIntent::Start { message } => Ok(message.clone()),
        TaskIntent::Continue { instruction } => {
            let mut text = "{\"checkpoint_turn\":".to_owned();
            match &snapshot.cursor {
                Some(cursor) => {
                    text.push_str(quote(cursor.turn_id.as_str()).as_str());
                },
                None => {
                    text.push_str("null");
                },
            }
            text.push_str(",\"instruction\":");
            text.push_str(quote(instruction.as_str()).as_str());
            text.push_str(",\"task_id\":");
            text.push_str(quote(snapshot.identity.task_id.as_str()).as_str());
            text.push_str(",\"type\":\"task_continue_v1\"}");
            Ok(text)
        },
        TaskIntent::Reply { reply_to, answer } => {
            let mut text = "{\"answer\":".to_owned();
            text.push_str(quote(answer.as_str()).as_str());
            text.push_str(",\"reply_to\":");
            text.push_str(quote(reply_to.as_str()).as_str());
            text.push_str(",\"task_id\":");
            text.push_str(quote(snapshot.identity.task_id.as_str()).as_str());
            text.push_str(",\"type\":\"reference_reply_v1\"}");
            Ok(text)
        },
    }
}

/// Whether the coordinator takes work, and whether it has some. It has one piece of work
/// at a time.
#[derive(Clone, Copy, Debug, PartialEq, Eq, Structural)]
pub struct TaskCoordinator {
    pub accepting: bool,
    pub active: bool,
}

impl TaskCoordinator {
    pub fn new() -> (control: Self)
        ensures
            control == (TaskCoordinator { accepting: true, active: false }),
    {
        TaskCoordinator { accepting: true, active: false }
    }

    pub fn start(&mut self) -> (result: Result<(), TaskCoordinatorError>)
        ensures
            if old(self).accepting && !old(self).active {
                result is Ok && *final(self) == (TaskCoordinator {
                    active: true,
                    ..*old(self)
                })
            } else {
                result == Err::<(), TaskCoordinatorError>(TaskCoordinatorError::Unavailable)
                    && *final(self) == *old(self)
            },
    {
        if !self.accepting || self.active {
            return Err(TaskCoordinatorError::Unavailable);
        }
        self.active = true;
        Ok(())
    }

    pub fn finish(&mut self)
        ensures
            *final(self) == (TaskCoordinator { active: false, ..*old(self) }),
    {
        self.active = false;
    }

    /// Takes no work any more. The answer is whether nothing is under way.
    pub fn close(&mut self) -> (drained: bool)
        ensures
            *final(self) == (TaskCoordinator { accepting: false, ..*old(self) }),
            drained == !old(self).active,
    {
        self.accepting = false;
        !self.active
    }
}

/// Work that was cancelled goes no further.
pub fn check_cancelled(requested: bool) -> (result: Result<(), TaskCoordinatorError>)
    ensures
        result == if requested {
            Err::<(), TaskCoordinatorError>(TaskCoordinatorError::Cancelled)
        } else {
            Ok(())
        },
{
    if requested {
        Err(TaskCoordinatorError::Cancelled)
    } else {
        Ok(())
    }
}

/// What was loaded for a continuation.
#[derive(Debug, PartialEq, Eq)]
pub struct Evidence {
    pub snapshot: Option<TaskSnapshot>,
    /// What the host measured of the snapshot.
    pub size: SnapshotSize,
    /// What the host measured of the draft that budget and history give.
    pub rebuilt_size: SnapshotSize,
    pub budget: Option<BudgetCheckpoint>,
    pub history: Vec<SessionEvent>,
}

/// The evidence allows the continuation, and gives its words.
pub open spec fn allows(evidence: Evidence, identity: BudgetIdentity, request: TaskResumeRequest) -> bool {
    &&& evidence.snapshot is Some
    &&& message_of(evidence.snapshot->0@, request.intent@) is Some
    &&& evidence.budget is Some
    &&& doubt(evidence, identity, request) is None
}

/// Why the snapshot is not the one that budget and history give, for the expected task,
/// revision and contracts, if it is not.
pub open spec fn doubt(evidence: Evidence, identity: BudgetIdentity, request: TaskResumeRequest) -> Option<TaskStateError> {
    evidence_fault(
        evidence.snapshot->0@,
        evidence.size,
        evidence.rebuilt_size,
        identity@,
        request.expected_revision,
        request.compatibility@,
        evidence.budget->0@,
        evidence.history.deep_view(),
    )
}

/// What is answered where the evidence does not allow a continuation.
pub open spec fn refusal(
    evidence: Evidence,
    identity: BudgetIdentity,
    request: TaskResumeRequest,
    error: TaskCoordinatorError,
) -> bool {
    if evidence.snapshot is None {
        error == TaskCoordinatorError::Missing
    } else if message_of(evidence.snapshot->0@, request.intent@) is None {
        error == TaskCoordinatorError::InvalidIntent
    } else if evidence.budget is None {
        error == TaskCoordinatorError::Budget(BudgetExecutionError::Missing)
    } else {
        doubt(evidence, identity, request) is Some && error == TaskCoordinatorError::State(
            doubt(evidence, identity, request)->0,
        )
    }
}

/// Whether a task may be continued, and with what words. Nothing is claimed yet.
pub fn prepare(evidence: &Evidence, identity: &BudgetIdentity, request: &TaskResumeRequest) -> (result: Result<
    String,
    TaskCoordinatorError,
>)
    ensures
        match result {
            Ok(text) => allows(*evidence, *identity, *request) && Some(text@) == message_of(
                evidence.snapshot->0@,
                request.intent@,
            ),
            Err(e) => !allows(*evidence, *identity, *request) && refusal(
                *evidence,
                *identity,
                *request,
                e,
            ),
        },
{
    let snapshot = match &evidence.snapshot {
        Some(snapshot) => snapshot,
        None => {
            return Err(TaskCoordinatorError::Missing);
        },
    };
    let text = match message(snapshot, &request.intent) {
        Err(e) => {
            return Err(e);
        },
        Ok(text) => text,
    };
    let budget = match &evidence.budget {
        Some(budget) => budget,
        None => {
            return Err(TaskCoordinatorError::Budget(BudgetExecutionError::Missing));
        },
    };
    match snapshot.verify_evidence(
        &evidence.size,
        &evidence.rebuilt_size,
        identity,
        request.expected_revision,
        &request.compatibility,
        budget,
        &evidence.history,
    ) {
        Err(e) => Err(TaskCoordinatorError::State(e)),
        Ok(_) => Ok(text),
    }
}

/// After the claim everything is looked at again: the state must still be the snapshot
/// that was confirmed.
pub fn recheck_state(snapshot: &TaskSnapshot, current: Option<&TaskSnapshot>) -> (result: Result<
    (),
    TaskCoordinatorError,
>)
    ensures
        result == if current is Some && current->0@.same_as(snapshot@) {
            Ok::<(), TaskCoordinatorError>(())
        } else {
            Err(TaskCoordinatorError::State(TaskStateError::EvidenceMismatch))
        },
{
    match current {
        Some(current) => {
            if current.is_same_state(snapshot) {
                return Ok(());
            }
        },
        None => {},
    }
    Err(TaskCoordinatorError::State(TaskStateError::EvidenceMismatch))
}

/// Why nothing may be published after a turn, if so.
pub open spec fn publication_fault(budget: Option<CheckpointView>, events: Seq<SessionEventView>) -> Option<
    BudgetExecutionError,
> {
    match budget {
        None => Some(BudgetExecutionError::Missing),
        Some(budget) => if let Some(e) = execution::history_fault(budget, events) {
            Some(e)
        } else if !budget.is_quiescent() {
            Some(BudgetExecutionError::RecoveryRequired)
        } else {
            None
        },
    }
}

/// Whether budget and history agree after a turn and show no unfinished work.
pub fn confirm_publication(budget: Option<&BudgetCheckpoint>, history: &Vec<SessionEvent>) -> (result: Result<
    (),
    TaskPublishError,
>)
    ensures
        ({
            let shown: Option<CheckpointView> = match budget {
                Some(b) => Some(b@),
                None => None,
            };
            result == match publication_fault(shown, history.deep_view()) {
                Some(e) => Err::<(), TaskPublishError>(
                    TaskPublishError::Evidence(TaskCoordinatorError::Budget(e)),
                ),
                None => Ok(()),
            }
        }),
{
    let budget = match budget {
        Some(budget) => budget,
        None => {
            return Err(
                TaskPublishError::Evidence(
                    TaskCoordinatorError::Budget(BudgetExecutionError::Missing),
                ),
            );
        },
    };
    match verify_checkpoint_history(budget, history) {
        Err(e) => {
            return Err(TaskPublishError::Evidence(TaskCoordinatorError::Budget(e)));
        },
        Ok(_) => {},
    }
    if !budget.is_quiescent() {
        return Err(
            TaskPublishError::Evidence(
                TaskCoordinatorError::Budget(BudgetExecutionError::RecoveryRequired),
            ),
        );
    }
    Ok(())
}

/// The snapshot to be published after a turn. `payloads` is what the application made of
/// the confirmed history, and `size` what the host measured of the draft with them.
pub fn publication(
    previous: &TaskSnapshot,
    payloads: Result<Vec<Payload>, String>,
    budget: &BudgetCheckpoint,
    history: &Vec<SessionEvent>,
    size: &SnapshotSize,
) -> (result: Result<TaskSnapshot, TaskPublishError>)
    ensures
        match payloads {
            Err(words) => result == Err::<TaskSnapshot, TaskPublishError>(
                TaskPublishError::Payload(words),
            ),
            Ok(payloads) => {
                let fault = capture_fault(previous@.revision, budget@, history.deep_view());
                let next = captured(
                    previous@.revision,
                    previous@.compatibility,
                    payloads.deep_view(),
                    budget@,
                    history.deep_view(),
                );
                match result {
                    Ok(candidate) => fault is None && next.fault() is None && size.is_allowed()
                        && candidate@ == next,
                    Err(TaskPublishError::Evidence(TaskCoordinatorError::State(e))) => if fault is Some {
                        fault == Some(e)
                    } else if next.fault() is Some {
                        next.fault() == Some(e)
                    } else {
                        !size.is_allowed() && e == TaskStateError::Limit
                    },
                    Err(_) => false,
                }
            },
        },
{
    match payloads {
        Err(words) => Err(TaskPublishError::Payload(words)),
        Ok(payloads) => match TaskSnapshot::capture(
            previous.revision,
            previous.compatibility.duplicate(),
            payloads,
            budget,
            history,
            size,
        ) {
            Err(e) => Err(TaskPublishError::Evidence(TaskCoordinatorError::State(e))),
            Ok(candidate) => Ok(candidate),
        },
    }
}

/// A reply is taken only by the turn that waits for it.
pub proof fn replies_meet_their_question(snapshot: SnapshotView, reply_to: Seq<char>, answer: Seq<char>)
    requires
        message_of(snapshot, IntentView::Reply { reply_to, answer }) is Some,
    ensures
        snapshot.phase is WaitingForInput,
        snapshot.cursor is Some,
        snapshot.cursor->0.turn == reply_to,
{
}

/// A task is continued only on evidence that gives its snapshot again.
pub proof fn continuations_rest_on_evidence(evidence: Evidence, identity: BudgetIdentity, request: TaskResumeRequest)
    requires
        allows(evidence, identity, request),
    ensures
        evidence.budget->0@.is_quiescent(),
        execution::history_fault(evidence.budget->0@, evidence.history.deep_view()) is None,
        evidence.snapshot->0@.revision == request.expected_revision,
        evidence.snapshot->0@ == captured(
            (request.expected_revision - 1) as u64,
            request.compatibility@,
            evidence.snapshot->0@.payloads,
            evidence.budget->0@,
            evidence.history.deep_view(),
        ),
{
}

} // verus!
