//! The steps by which a stored task goes on, in their order. The ledger is claimed only
//! on evidence that gives the snapshot again and with the host's consent, and a turn runs
//! only when nothing has changed since.

use crate::budget::execution::BudgetExecutionError;
use crate::budget::sealed::BudgetCheckpoint;
use crate::budget::vocabulary::BudgetIdentity;
use crate::task::coordinator::{
    allows, check_cancelled, doubt, message, message_of, prepare, recheck_state, Evidence,
    TaskCoordinatorError, TaskResumeRequest,
};
use crate::session::event::SessionEvent;
use crate::task::history::TaskStateError;
use crate::task::snapshot::{SnapshotSize, TaskSnapshot};
use crate::task::store::TaskStoreError;
use vstd::prelude::*;

verus! {

/// How far a continuation has come, and what it carries.
#[derive(Debug, PartialEq, Eq)]
pub enum ResumeStage {
    /// Nothing has been loaded.
    Beginning,
    /// The snapshot is to be loaded.
    Finding,
    /// The intent fits the snapshot; the ledger is to be loaded.
    Funding { snapshot: TaskSnapshot },
    /// The history is to be loaded.
    Proving { snapshot: TaskSnapshot, budget: BudgetCheckpoint },
    /// The host is asked.
    Authorizing { snapshot: TaskSnapshot, budget: BudgetCheckpoint, message: String },
    /// The ledger is to be claimed.
    Claiming { snapshot: TaskSnapshot, budget: BudgetCheckpoint, message: String },
    /// The claim is confirmed; history and snapshot are looked at once more.
    Rechecking { snapshot: TaskSnapshot, message: String },
    /// The turn may run.
    Running { snapshot: TaskSnapshot, message: String },
    Refused(TaskCoordinatorError),
}

/// What the host does next.
#[derive(Clone, Copy, Debug, PartialEq, Eq, Structural)]
pub enum ResumeAction {
    Begin,
    LoadSnapshot,
    LoadBudget,
    LoadHistory,
    Authorize,
    Claim,
    Recheck,
    RunTurn,
    Done,
}

/// The history of a task, and what the host measured of its snapshot and of the draft
/// that ledger and history give.
#[derive(Debug, PartialEq, Eq)]
pub struct Grounds {
    pub history: Vec<SessionEvent>,
    pub size: SnapshotSize,
    pub rebuilt_size: SnapshotSize,
}

/// Everything that was loaded for a continuation.
pub open spec fn evidence_of(snapshot: TaskSnapshot, budget: BudgetCheckpoint, grounds: Grounds) -> Evidence {
    Evidence {
        snapshot: Some(snapshot),
        size: grounds.size,
        rebuilt_size: grounds.rebuilt_size,
        budget: Some(budget),
        history: grounds.history,
    }
}

/// What came of it.
#[derive(Debug, PartialEq, Eq)]
pub enum ResumeEvent {
    Begun { cancelled: bool },
    SnapshotLoaded(Result<Option<TaskSnapshot>, TaskStoreError>),
    BudgetLoaded(Result<Option<BudgetCheckpoint>, BudgetExecutionError>),
    HistoryLoaded(Result<Grounds, TaskCoordinatorError>),
    Authorized { answer: Result<(), String>, cancelled: bool },
    Claimed(Result<(), TaskCoordinatorError>),
    Rechecked {
        history: Result<(), BudgetExecutionError>,
        current: Result<Option<TaskSnapshot>, TaskStoreError>,
        cancelled: bool,
    },
}

/// A continuation on its way.
#[derive(Debug, PartialEq, Eq)]
pub struct ResumeMachine {
    pub identity: BudgetIdentity,
    pub request: TaskResumeRequest,
    pub stage: ResumeStage,
}

/// The snapshot and the message come from evidence that allows the continuation.
pub open spec fn is_founded(
    identity: BudgetIdentity,
    request: TaskResumeRequest,
    snapshot: TaskSnapshot,
    message: Seq<char>,
) -> bool {
    exists|evidence: Evidence|
        #![trigger allows(evidence, identity, request)]
        allows(evidence, identity, request) && evidence.snapshot == Some(snapshot) && message_of(
            snapshot@,
            request.intent@,
        ) == Some(message)
}

impl ResumeMachine {
    /// Whatever is carried rests on evidence.
    pub open spec fn wf(self) -> bool {
        match self.stage {
            ResumeStage::Funding { snapshot } => message_of(snapshot@, self.request.intent@) is Some,
            ResumeStage::Proving { snapshot, .. } => message_of(snapshot@, self.request.intent@) is Some,
            ResumeStage::Authorizing { snapshot, message, .. } => is_founded(
                self.identity,
                self.request,
                snapshot,
                message@,
            ),
            ResumeStage::Claiming { snapshot, message, .. } => is_founded(
                self.identity,
                self.request,
                snapshot,
                message@,
            ),
            ResumeStage::Rechecking { snapshot, message } => is_founded(
                self.identity,
                self.request,
                snapshot,
                message@,
            ),
            ResumeStage::Running { snapshot, message } => is_founded(
                self.identity,
                self.request,
                snapshot,
                message@,
            ),
            _ => true,
        }
    }

    /// What is done next.
    pub open spec fn next_action(self) -> ResumeAction {
        match self.stage {
            ResumeStage::Beginning => ResumeAction::Begin,
            ResumeStage::Finding => ResumeAction::LoadSnapshot,
            ResumeStage::Funding { .. } => ResumeAction::LoadBudget,
            ResumeStage::Proving { .. } => ResumeAction::LoadHistory,
            ResumeStage::Authorizing { .. } => ResumeAction::Authorize,
            ResumeStage::Claiming { .. } => ResumeAction::Claim,
            ResumeStage::Rechecking { .. } => ResumeAction::Recheck,
            ResumeStage::Running { .. } => ResumeAction::RunTurn,
            ResumeStage::Refused(_) => ResumeAction::Done,
        }
    }
}

/// What a continuation becomes by an event. One that nobody waits for changes nothing.
pub open spec fn follows(m: ResumeMachine, event: ResumeEvent, n: ResumeMachine) -> bool {
    &&& n.identity == m.identity
    &&& n.request == m.request
    &&& match (m.stage, event) {
        (ResumeStage::Beginning, ResumeEvent::Begun { cancelled }) => n.stage == if cancelled {
            ResumeStage::Refused(TaskCoordinatorError::Cancelled)
        } else {
            ResumeStage::Finding
        },
        (ResumeStage::Finding, ResumeEvent::SnapshotLoaded(loaded)) => n.stage == match loaded {
            Err(error) => ResumeStage::Refused(TaskCoordinatorError::Store(error)),
            Ok(None) => ResumeStage::Refused(TaskCoordinatorError::Missing),
            Ok(Some(snapshot)) => if message_of(snapshot@, m.request.intent@) is None {
                ResumeStage::Refused(TaskCoordinatorError::InvalidIntent)
            } else {
                ResumeStage::Funding { snapshot }
            },
        },
        (ResumeStage::Funding { snapshot }, ResumeEvent::BudgetLoaded(loaded)) => n.stage
            == match loaded {
            Err(error) => ResumeStage::Refused(TaskCoordinatorError::Budget(error)),
            Ok(None) => ResumeStage::Refused(
                TaskCoordinatorError::Budget(BudgetExecutionError::Missing),
            ),
            Ok(Some(budget)) => ResumeStage::Proving { snapshot, budget },
        },
        (ResumeStage::Proving { snapshot, budget }, ResumeEvent::HistoryLoaded(loaded)) => match loaded {
            Err(error) => n.stage == ResumeStage::Refused(error),
            Ok(grounds) => match doubt(
                evidence_of(snapshot, budget, grounds),
                m.identity,
                m.request,
            ) {
                Some(fault) => n.stage == ResumeStage::Refused(TaskCoordinatorError::State(fault)),
                None => {
                    &&& n.stage matches ResumeStage::Authorizing { snapshot: s, budget: b, message }
                    &&& s == snapshot
                    &&& b == budget
                    &&& message_of(snapshot@, m.request.intent@) == Some(message@)
                },
            },
        },
        (
            ResumeStage::Authorizing { snapshot, budget, message },
            ResumeEvent::Authorized { answer, cancelled },
        ) => match answer {
            Err(words) => n.stage == ResumeStage::Refused(TaskCoordinatorError::Denied(words)),
            Ok(_) => n.stage == if cancelled {
                ResumeStage::Refused(TaskCoordinatorError::Cancelled)
            } else {
                ResumeStage::Claiming { snapshot, budget, message }
            },
        },
        (ResumeStage::Claiming { snapshot, message, .. }, ResumeEvent::Claimed(claimed)) => n.stage
            == match claimed {
            Err(error) => ResumeStage::Refused(error),
            Ok(_) => ResumeStage::Rechecking { snapshot, message },
        },
        (
            ResumeStage::Rechecking { snapshot, message },
            ResumeEvent::Rechecked { history, current, cancelled },
        ) => n.stage == match history {
            Err(error) => ResumeStage::Refused(TaskCoordinatorError::Budget(error)),
            Ok(_) => match current {
                Err(error) => ResumeStage::Refused(TaskCoordinatorError::Store(error)),
                Ok(now) => if now is None || !now->0@.same_as(snapshot@) {
                    ResumeStage::Refused(
                        TaskCoordinatorError::State(TaskStateError::EvidenceMismatch),
                    )
                } else if cancelled {
                    ResumeStage::Refused(TaskCoordinatorError::Cancelled)
                } else {
                    ResumeStage::Running { snapshot, message }
                },
            },
        },
        _ => n == m,
    }
}

impl ResumeMachine {
    pub fn new(identity: BudgetIdentity, request: TaskResumeRequest) -> (machine: Self)
        ensures
            machine == (ResumeMachine { identity, request, stage: ResumeStage::Beginning }),
            machine.wf(),
    {
        ResumeMachine { identity, request, stage: ResumeStage::Beginning }
    }

    /// What is done next.
    pub fn action(&self) -> (action: ResumeAction)
        ensures
            action == self.next_action(),
    {
        match &self.stage {
            ResumeStage::Beginning => ResumeAction::Begin,
            ResumeStage::Finding => ResumeAction::LoadSnapshot,
            ResumeStage::Funding { .. } => ResumeAction::LoadBudget,
            ResumeStage::Proving { .. } => ResumeAction::LoadHistory,
            ResumeStage::Authorizing { .. } => ResumeAction::Authorize,
            ResumeStage::Claiming { .. } => ResumeAction::Claim,
            ResumeStage::Rechecking { .. } => ResumeAction::Recheck,
            ResumeStage::Running { .. } => ResumeAction::RunTurn,
            ResumeStage::Refused(_) => ResumeAction::Done,
        }
    }

    /// Takes in what came of an action.
    pub fn advance(self, event: ResumeEvent) -> (next: Self)
        requires
            self.wf(),
        ensures
            next.wf(),
            follows(self, event, next),
    {
        let ResumeMachine { identity, request, stage } = self;
        let stage = match (stage, event) {
            (ResumeStage::Beginning, ResumeEvent::Begun { cancelled }) => match check_cancelled(
                cancelled,
            ) {
                Err(error) => ResumeStage::Refused(error),
                Ok(_) => ResumeStage::Finding,
            },
            (ResumeStage::Finding, ResumeEvent::SnapshotLoaded(loaded)) => match loaded {
                Err(error) => ResumeStage::Refused(TaskCoordinatorError::Store(error)),
                Ok(None) => ResumeStage::Refused(TaskCoordinatorError::Missing),
                Ok(Some(snapshot)) => match message(&snapshot, &request.intent) {
                    Err(error) => ResumeStage::Refused(error),
                    Ok(_) => ResumeStage::Funding { snapshot },
                },
            },
            (ResumeStage::Funding { snapshot }, ResumeEvent::BudgetLoaded(loaded)) => match loaded {
                Err(error) => ResumeStage::Refused(TaskCoordinatorError::Budget(error)),
                Ok(None) => ResumeStage::Refused(
                    TaskCoordinatorError::Budget(BudgetExecutionError::Missing),
                ),
                Ok(Some(budget)) => ResumeStage::Proving { snapshot, budget },
            },
            (ResumeStage::Proving { snapshot, budget }, ResumeEvent::HistoryLoaded(loaded)) => {
                match loaded {
                    Err(error) => ResumeStage::Refused(error),
                    Ok(grounds) => {
                        let Grounds { history, size, rebuilt_size } = grounds;
                        let evidence = Evidence {
                            snapshot: Some(snapshot),
                            size,
                            rebuilt_size,
                            budget: Some(budget),
                            history,
                        };
                        let ghost basis = evidence;
                        assert(basis == evidence_of(snapshot, budget, grounds));
                        match prepare(&evidence, &identity, &request) {
                            Err(error) => ResumeStage::Refused(error),
                            Ok(message) => {
                                assert(allows(basis, identity, request));
                                match (evidence.snapshot, evidence.budget) {
                                    (Some(snapshot), Some(budget)) => ResumeStage::Authorizing {
                                        snapshot,
                                        budget,
                                        message,
                                    },
                                    _ => ResumeStage::Refused(TaskCoordinatorError::Missing),
                                }
                            },
                        }
                    },
                }
            },
            (
                ResumeStage::Authorizing { snapshot, budget, message },
                ResumeEvent::Authorized { answer, cancelled },
            ) => match answer {
                Err(words) => ResumeStage::Refused(TaskCoordinatorError::Denied(words)),
                Ok(_) => match check_cancelled(cancelled) {
                    Err(error) => ResumeStage::Refused(error),
                    Ok(_) => ResumeStage::Claiming { snapshot, budget, message },
                },
            },
            (
                ResumeStage::Claiming { snapshot, message, .. },
                ResumeEvent::Claimed(claimed),
            ) => match claimed {
                Err(error) => ResumeStage::Refused(error),
                Ok(_) => ResumeStage::Rechecking { snapshot, message },
            },
            (
                ResumeStage::Rechecking { snapshot, message },
                ResumeEvent::Rechecked { history, current, cancelled },
            ) => match history {
                Err(error) => ResumeStage::Refused(TaskCoordinatorError::Budget(error)),
                Ok(_) => match current {
                    Err(error) => ResumeStage::Refused(TaskCoordinatorError::Store(error)),
                    Ok(now) => match recheck_state(&snapshot, now.as_ref()) {
                        Err(error) => ResumeStage::Refused(error),
                        Ok(_) => match check_cancelled(cancelled) {
                            Err(error) => ResumeStage::Refused(error),
                            Ok(_) => ResumeStage::Running { snapshot, message },
                        },
                    },
                },
            },
            (stage, _) => stage,
        };
        ResumeMachine { identity, request, stage }
    }
}

/// A turn runs, and the ledger is claimed for it, only on evidence that allows it.
pub proof fn claims_rest_on_evidence(m: ResumeMachine)
    requires
        m.wf(),
        m.next_action() == ResumeAction::Claim || m.next_action() == ResumeAction::RunTurn,
    ensures
        exists|evidence: Evidence| #[trigger] allows(evidence, m.identity, m.request),
{
}

/// Nothing is claimed without the host's consent, and no turn runs unless the claim was
/// confirmed and the snapshot was found unchanged after it.
pub proof fn turns_run_on_a_confirmed_claim(m: ResumeMachine, event: ResumeEvent, n: ResumeMachine)
    requires
        follows(m, event, n),
        m.next_action() != n.next_action(),
    ensures
        n.next_action() == ResumeAction::Claim ==> m.stage is Authorizing && (event matches
            ResumeEvent::Authorized { answer: Ok(_), cancelled: false }),
        n.next_action() == ResumeAction::Recheck ==> m.stage is Claiming && (event matches
            ResumeEvent::Claimed(Ok(_))),
        n.next_action() == ResumeAction::RunTurn ==> m.stage is Rechecking && (event matches
            ResumeEvent::Rechecked { history: Ok(_), current: Ok(Some(_)), cancelled: false }),
{
}

} // verus!
