//! Reports of the reference agent.

use crate::context::budgeting::{ContextBuildReport, ContextBuildReportView};
use crate::context::viewing::{ToolResultModel, ToolResultView};
use crate::generation::{DecisionContext, DecisionContextView};
use crate::id::{EventId, SessionId, TaskId, TurnId};
use crate::record::Record;
use vstd::prelude::*;

verus! {

/// Why a run of the reference agent ended.
#[derive(Clone, Copy, Debug, PartialEq, Eq, Structural)]
pub enum ReferenceStop {
    ModelClaimedComplete,
    BusinessVerified,
    CompletionRejected,
    NoProgress,
    CorrectionLimit,
    WaitingForInput,
    StepLimit,
    ContextRejected,
    PolicyRejected,
    InvalidAction,
    ToolHalted,
    ResultViewFailed,
    BudgetExhausted,
    Cancelled,
    RuntimeFailure,
    HistoryRejected,
    ContentExpired,
    ClockFailure,
}

impl DeepView for ReferenceStop {
    type V = ReferenceStop;

    open spec fn deep_view(&self) -> ReferenceStop {
        *self
    }
}

impl Record for ReferenceStop {
    fn is_same(&self, other: &Self) -> (answer: bool) {
        *self == *other
    }

    fn duplicate(&self) -> (copy: Self) {
        *self
    }
}

/// What a step came to.
#[derive(Clone, Copy, Debug, PartialEq, Eq, Structural)]
pub enum ReferenceStepOutcome {
    ToolSucceeded,
    ToolFailed,
    ModelClaimedComplete,
    WaitingForInput,
}

impl DeepView for ReferenceStepOutcome {
    type V = ReferenceStepOutcome;

    open spec fn deep_view(&self) -> ReferenceStepOutcome {
        *self
    }
}

impl Record for ReferenceStepOutcome {
    fn is_same(&self, other: &Self) -> (answer: bool) {
        *self == *other
    }

    fn duplicate(&self) -> (copy: Self) {
        *self
    }
}

/// One step of a run.
#[derive(Debug, PartialEq, Eq)]
pub struct ReferenceStepReport {
    pub version: u16,
    pub task_id: TaskId,
    pub turn_id: TurnId,
    pub ordinal: u32,
    pub decision: DecisionContext,
    pub outcome: ReferenceStepOutcome,
    pub build: ContextBuildReport,
    pub visible_tools: Vec<String>,
    pub tool_events: Vec<EventId>,
    pub result_view: Option<ToolResultView>,
}

pub struct ReferenceStepReportView {
    pub version: u16,
    pub task_id: Seq<char>,
    pub turn_id: Seq<char>,
    pub ordinal: u32,
    pub decision: DecisionContextView,
    pub outcome: ReferenceStepOutcome,
    pub build: ContextBuildReportView,
    pub visible_tools: Seq<Seq<char>>,
    pub tool_events: Seq<Seq<char>>,
    pub result_view: Option<ToolResultModel>,
}

impl ReferenceStepReport {
    pub open spec fn view(&self) -> ReferenceStepReportView {
        ReferenceStepReportView {
            version: self.version,
            task_id: self.task_id@,
            turn_id: self.turn_id@,
            ordinal: self.ordinal,
            decision: self.decision.deep_view(),
            outcome: self.outcome,
            build: self.build.deep_view(),
            visible_tools: self.visible_tools.deep_view(),
            tool_events: self.tool_events.deep_view(),
            result_view: self.result_view.deep_view(),
        }
    }
}

impl DeepView for ReferenceStepReport {
    type V = ReferenceStepReportView;

    open spec fn deep_view(&self) -> ReferenceStepReportView {
        self@
    }
}

impl Record for ReferenceStepReport {
    fn is_same(&self, other: &Self) -> (answer: bool) {
        self.version == other.version
            && self.task_id.is_same(&other.task_id)
            && self.turn_id.is_same(&other.turn_id)
            && self.ordinal == other.ordinal
            && self.decision.is_same(&other.decision)
            && self.outcome == other.outcome
            && self.build.is_same(&other.build)
            && self.visible_tools.is_same(&other.visible_tools)
            && self.tool_events.is_same(&other.tool_events)
            && self.result_view.is_same(&other.result_view)
    }

    fn duplicate(&self) -> (copy: Self) {
        ReferenceStepReport {
            version: self.version,
            task_id: self.task_id.duplicate(),
            turn_id: self.turn_id.duplicate(),
            ordinal: self.ordinal,
            decision: self.decision.duplicate(),
            outcome: self.outcome,
            build: self.build.duplicate(),
            visible_tools: self.visible_tools.duplicate(),
            tool_events: self.tool_events.duplicate(),
            result_view: self.result_view.duplicate(),
        }
    }
}

/// What a host makes of a model's claim to be done.
#[allow(inconsistent_fields)]
#[derive(Debug, PartialEq, Eq)]
pub enum CompletionDecision {
    Unverified,
    /// The host's reference to its evidence; its truth is not checked here.
    Verified { evidence: String },
    Rejected { reason: String },
}

#[allow(inconsistent_fields)]
pub enum CompletionDecisionView {
    Unverified,
    Verified { evidence: Seq<char> },
    Rejected { reason: Seq<char> },
}

impl CompletionDecision {
    pub open spec fn view(&self) -> CompletionDecisionView {
        match self {
            CompletionDecision::Unverified => CompletionDecisionView::Unverified,
            CompletionDecision::Verified { evidence } => CompletionDecisionView::Verified {
                evidence: evidence@,
            },
            CompletionDecision::Rejected { reason } => CompletionDecisionView::Rejected {
                reason: reason@,
            },
        }
    }
}

impl DeepView for CompletionDecision {
    type V = CompletionDecisionView;

    open spec fn deep_view(&self) -> CompletionDecisionView {
        self@
    }
}

impl Record for CompletionDecision {
    fn is_same(&self, other: &Self) -> (answer: bool) {
        match (self, other) {
            (CompletionDecision::Unverified, CompletionDecision::Unverified) => true,
            (CompletionDecision::Verified { evidence }, CompletionDecision::Verified { evidence: other_evidence }) => evidence.is_same(other_evidence),
            (CompletionDecision::Rejected { reason }, CompletionDecision::Rejected { reason: other_reason }) => reason.is_same(other_reason),
            _ => false,
        }
    }

    fn duplicate(&self) -> (copy: Self) {
        match self {
            CompletionDecision::Unverified => CompletionDecision::Unverified,
            CompletionDecision::Verified { evidence } => CompletionDecision::Verified {
                evidence: evidence.duplicate(),
            },
            CompletionDecision::Rejected { reason } => CompletionDecision::Rejected {
                reason: reason.duplicate(),
            },
        }
    }
}

/// What a run came to. An observation of the body, not an authority on how the turn ended.
#[derive(Debug, PartialEq, Eq)]
pub struct ReferenceRunReport {
    pub version: u16,
    pub session_id: SessionId,
    pub turn_id: TurnId,
    pub task_id: Option<TaskId>,
    pub max_steps: u32,
    pub attempted_steps: u32,
    pub confirmed_steps: u32,
    pub stop: ReferenceStop,
    /// True only where the host's check supplied evidence.
    pub business_verified: bool,
    pub completion: Option<CompletionDecision>,
    pub repeated_observations: u32,
    pub corrections: u32,
}

pub struct ReferenceRunReportView {
    pub version: u16,
    pub session_id: Seq<char>,
    pub turn_id: Seq<char>,
    pub task_id: Option<Seq<char>>,
    pub max_steps: u32,
    pub attempted_steps: u32,
    pub confirmed_steps: u32,
    pub stop: ReferenceStop,
    pub business_verified: bool,
    pub completion: Option<CompletionDecisionView>,
    pub repeated_observations: u32,
    pub corrections: u32,
}

impl ReferenceRunReport {
    pub open spec fn view(&self) -> ReferenceRunReportView {
        ReferenceRunReportView {
            version: self.version,
            session_id: self.session_id@,
            turn_id: self.turn_id@,
            task_id: self.task_id.deep_view(),
            max_steps: self.max_steps,
            attempted_steps: self.attempted_steps,
            confirmed_steps: self.confirmed_steps,
            stop: self.stop,
            business_verified: self.business_verified,
            completion: self.completion.deep_view(),
            repeated_observations: self.repeated_observations,
            corrections: self.corrections,
        }
    }
}

impl DeepView for ReferenceRunReport {
    type V = ReferenceRunReportView;

    open spec fn deep_view(&self) -> ReferenceRunReportView {
        self@
    }
}

impl Record for ReferenceRunReport {
    fn is_same(&self, other: &Self) -> (answer: bool) {
        self.version == other.version
            && self.session_id.is_same(&other.session_id)
            && self.turn_id.is_same(&other.turn_id)
            && self.task_id.is_same(&other.task_id)
            && self.max_steps == other.max_steps
            && self.attempted_steps == other.attempted_steps
            && self.confirmed_steps == other.confirmed_steps
            && self.stop == other.stop
            && self.business_verified == other.business_verified
            && self.completion.is_same(&other.completion)
            && self.repeated_observations == other.repeated_observations
            && self.corrections == other.corrections
    }

    fn duplicate(&self) -> (copy: Self) {
        ReferenceRunReport {
            version: self.version,
            session_id: self.session_id.duplicate(),
            turn_id: self.turn_id.duplicate(),
            task_id: self.task_id.duplicate(),
            max_steps: self.max_steps,
            attempted_steps: self.attempted_steps,
            confirmed_steps: self.confirmed_steps,
            stop: self.stop,
            business_verified: self.business_verified,
            completion: self.completion.duplicate(),
            repeated_observations: self.repeated_observations,
            corrections: self.corrections,
        }
    }
}

/// What was wrong with a proposal; never echoes model text or tool data.
#[derive(Clone, Copy, Debug, PartialEq, Eq, Structural)]
pub enum CorrectionReason {
    InvalidFormat,
    EmptyText,
    MultipleActions,
    InvalidArguments,
}

impl DeepView for CorrectionReason {
    type V = CorrectionReason;

    open spec fn deep_view(&self) -> CorrectionReason {
        *self
    }
}

impl Record for CorrectionReason {
    fn is_same(&self, other: &Self) -> (answer: bool) {
        *self == *other
    }

    fn duplicate(&self) -> (copy: Self) {
        *self
    }
}

/// A correction, charged before it is reported.
#[derive(Debug, PartialEq, Eq)]
pub struct ReferenceCorrectionReport {
    pub version: u16,
    pub turn_id: TurnId,
    pub decision: DecisionContext,
    /// The failed inference.
    pub ordinal: u32,
    pub correction: u32,
    pub reason: CorrectionReason,
}

pub struct ReferenceCorrectionReportView {
    pub version: u16,
    pub turn_id: Seq<char>,
    pub decision: DecisionContextView,
    pub ordinal: u32,
    pub correction: u32,
    pub reason: CorrectionReason,
}

impl ReferenceCorrectionReport {
    pub open spec fn view(&self) -> ReferenceCorrectionReportView {
        ReferenceCorrectionReportView {
            version: self.version,
            turn_id: self.turn_id@,
            decision: self.decision.deep_view(),
            ordinal: self.ordinal,
            correction: self.correction,
            reason: self.reason,
        }
    }
}

impl DeepView for ReferenceCorrectionReport {
    type V = ReferenceCorrectionReportView;

    open spec fn deep_view(&self) -> ReferenceCorrectionReportView {
        self@
    }
}

impl Record for ReferenceCorrectionReport {
    fn is_same(&self, other: &Self) -> (answer: bool) {
        self.version == other.version
            && self.turn_id.is_same(&other.turn_id)
            && self.decision.is_same(&other.decision)
            && self.ordinal == other.ordinal
            && self.correction == other.correction
            && self.reason == other.reason
    }

    fn duplicate(&self) -> (copy: Self) {
        ReferenceCorrectionReport {
            version: self.version,
            turn_id: self.turn_id.duplicate(),
            decision: self.decision.duplicate(),
            ordinal: self.ordinal,
            correction: self.correction,
            reason: self.reason,
        }
    }
}

/// A question that waits for its answer. Data to keep, no handle on a budget.
#[derive(Debug, PartialEq, Eq)]
pub struct PendingQuestion {
    pub version: u16,
    pub session_id: SessionId,
    pub task_id: TaskId,
    pub turn_id: TurnId,
    pub agent_key: String,
    pub pending_question: String,
}

pub struct PendingQuestionView {
    pub version: u16,
    pub session_id: Seq<char>,
    pub task_id: Seq<char>,
    pub turn_id: Seq<char>,
    pub agent_key: Seq<char>,
    pub pending_question: Seq<char>,
}

impl PendingQuestion {
    pub open spec fn view(&self) -> PendingQuestionView {
        PendingQuestionView {
            version: self.version,
            session_id: self.session_id@,
            task_id: self.task_id@,
            turn_id: self.turn_id@,
            agent_key: self.agent_key@,
            pending_question: self.pending_question@,
        }
    }
}

impl DeepView for PendingQuestion {
    type V = PendingQuestionView;

    open spec fn deep_view(&self) -> PendingQuestionView {
        self@
    }
}

impl Record for PendingQuestion {
    fn is_same(&self, other: &Self) -> (answer: bool) {
        self.version == other.version
            && self.session_id.is_same(&other.session_id)
            && self.task_id.is_same(&other.task_id)
            && self.turn_id.is_same(&other.turn_id)
            && self.agent_key.is_same(&other.agent_key)
            && self.pending_question.is_same(&other.pending_question)
    }

    fn duplicate(&self) -> (copy: Self) {
        PendingQuestion {
            version: self.version,
            session_id: self.session_id.duplicate(),
            task_id: self.task_id.duplicate(),
            turn_id: self.turn_id.duplicate(),
            agent_key: self.agent_key.duplicate(),
            pending_question: self.pending_question.duplicate(),
        }
    }
}

} // verus!
