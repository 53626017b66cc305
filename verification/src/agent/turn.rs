//! Turns of an agent: outcomes, reports, and the evidence of their failure.

use crate::budget::execution::{is_terminal, BudgetExecutionError, BudgetExecutionLease};
use crate::budget::model::BudgetError;
use crate::budget::sealed::BudgetCheckpoint;
use crate::budget::ledger::TaskBudget;
use crate::budget::vocabulary::{BudgetLimits, BudgetReport, TaskRunReport};
use crate::id::{SessionId, TurnId};
use crate::json::{same_optional, same_optional_value, Json};
use crate::llm::failure::{LlmError, ModelGatewayError, ModelTurnFailure};
use crate::record::Record;
use crate::session::error::SessionRuntimeError;
use crate::session::event::{
    DoneStatus, SessionEvent, SessionEventKind, SessionEventKindView, SessionEventView, StageStatus,
};
use crate::tool::failure::{ToolRuntimeError, ToolTurnFailure};
use std::sync::Arc;
use vstd::prelude::*;

verus! {

/// `Arc::clone` on the events of a turn: the same events, held once more.
#[verifier::external_body]
pub(crate) fn shared(events: &Arc<Vec<SessionEvent>>) -> (held: Arc<Vec<SessionEvent>>)
    ensures
        held == *events,
{
    Arc::clone(events)
}

/// `Arc::ptr_eq` on the events of two turns: whether one allocation holds both, which are
/// then the same events. Nothing is said of equal events that were allocated apart, or of
/// when they were.
#[verifier::external_body]
fn one_allocation(left: &Arc<Vec<SessionEvent>>, right: &Arc<Vec<SessionEvent>>) -> (same: bool)
    ensures
        same ==> *left == *right,
{
    Arc::ptr_eq(left, right)
}

/// An outcome an agent may resolve without owning the canonical terminal event.
#[derive(Clone, Copy, Debug, PartialEq, Eq, Structural)]
pub enum TurnOutcome {
    Completed,
    WaitingForInput,
    Cancelled,
}

/// Complete semantic disposition observed by callers and hooks.
#[derive(Clone, Copy, Debug, PartialEq, Eq, Structural)]
pub enum TurnDisposition {
    Completed,
    WaitingForInput,
    Cancelled,
    Failed,
}

impl TurnOutcome {
    pub open spec fn as_disposition(self) -> TurnDisposition {
        match self {
            TurnOutcome::Completed => TurnDisposition::Completed,
            TurnOutcome::WaitingForInput => TurnDisposition::WaitingForInput,
            TurnOutcome::Cancelled => TurnDisposition::Cancelled,
        }
    }

    pub fn disposition(self) -> (disposition: TurnDisposition)
        ensures
            disposition == self.as_disposition(),
    {
        match self {
            TurnOutcome::Completed => TurnDisposition::Completed,
            TurnOutcome::WaitingForInput => TurnDisposition::WaitingForInput,
            TurnOutcome::Cancelled => TurnDisposition::Cancelled,
        }
    }
}

/// Non-boundary events an agent is allowed to append during its body.
#[allow(inconsistent_fields)]
#[derive(Debug, PartialEq, Eq)]
pub enum AgentEventKind {
    AssistantDelta { text: String },
    StageProgress { stage: String, status: StageStatus, message: Option<String> },
    Mode { mode: String, decided_by: String, reason: String },
    PlanReady { plan: Json },
    Custom { plugin: String, kind: String, payload: Json },
}

impl AgentEventKind {
    pub open spec fn as_session_event_kind(self) -> SessionEventKind {
        match self {
            AgentEventKind::AssistantDelta { text } => SessionEventKind::AssistantDelta { text },
            AgentEventKind::StageProgress { stage, status, message } =>
                SessionEventKind::StageProgress { stage, status, message },
            AgentEventKind::Mode { mode, decided_by, reason } => SessionEventKind::Mode {
                mode,
                decided_by,
                reason,
            },
            AgentEventKind::PlanReady { plan } => SessionEventKind::PlanReady { plan },
            AgentEventKind::Custom { plugin, kind, payload } => SessionEventKind::Custom {
                plugin,
                kind,
                payload,
            },
        }
    }

    pub fn into_session_event_kind(self) -> (kind: SessionEventKind)
        ensures
            kind == self.as_session_event_kind(),
    {
        match self {
            AgentEventKind::AssistantDelta { text } => SessionEventKind::AssistantDelta { text },
            AgentEventKind::StageProgress { stage, status, message } =>
                SessionEventKind::StageProgress { stage, status, message },
            AgentEventKind::Mode { mode, decided_by, reason } => SessionEventKind::Mode {
                mode,
                decided_by,
                reason,
            },
            AgentEventKind::PlanReady { plan } => SessionEventKind::PlanReady { plan },
            AgentEventKind::Custom { plugin, kind, payload } => SessionEventKind::Custom {
                plugin,
                kind,
                payload,
            },
        }
    }

    /// No event that an agent appends ends its turn or speaks for a capability.
    pub proof fn agents_own_no_boundary(self)
        ensures
            !(self.as_session_event_kind() is Done),
            !(self.as_session_event_kind() is Error),
            !(self.as_session_event_kind() is UserMessage),
            !(self.as_session_event_kind() is TaskRunReport),
            !(self.as_session_event_kind() is ModelRequest),
            !(self.as_session_event_kind() is ModelResult),
            !(self.as_session_event_kind() is ToolCall),
            !(self.as_session_event_kind() is ToolResult),
    {
    }
}

/// Semantic output of an agent body. The body does not append its terminal event.
#[derive(Debug, PartialEq, Eq)]
pub struct AgentTurnOutput {
    pub final_text: String,
    pub outcome: TurnOutcome,
    pub artifact: Option<Json>,
}

/// Stable agent-owned failure payload used to construct a canonical error event.
#[derive(Debug, PartialEq, Eq)]
pub struct AgentFailure {
    pub code: String,
    pub message: String,
    pub retryable: bool,
}

impl AgentFailure {
    pub fn new(code: String, message: String, retryable: bool) -> (failure: Self)
        ensures
            failure == (AgentFailure { code, message, retryable }),
    {
        AgentFailure { code, message, retryable }
    }

    pub fn code(&self) -> (code: &str)
        ensures
            code@ == self.code@,
    {
        self.code.as_str()
    }

    pub fn message(&self) -> (message: &str)
        ensures
            message@ == self.message@,
    {
        self.message.as_str()
    }

    pub fn retryable(&self) -> (retryable: bool)
        ensures
            retryable == self.retryable,
    {
        self.retryable
    }
}

/// Typed all-attempt evidence from closing the model and tool scopes of one turn.
#[derive(Debug, PartialEq, Eq)]
pub struct CapabilityTurnFailure {
    model: Option<ModelTurnFailure>,
    tool: Option<ToolTurnFailure>,
}

/// A capability closure aggregate must retain at least one failed scope.
#[derive(Clone, Copy, Debug, PartialEq, Eq, Structural)]
pub struct InvalidCapabilityTurnFailure;

impl CapabilityTurnFailure {
    pub closed spec fn of_model(&self) -> Option<ModelTurnFailure> {
        self.model
    }

    pub closed spec fn of_tool(&self) -> Option<ToolTurnFailure> {
        self.tool
    }

    pub fn new(model: Option<ModelTurnFailure>, tool: Option<ToolTurnFailure>) -> (result: Result<
        Self,
        InvalidCapabilityTurnFailure,
    >)
        ensures
            match result {
                Ok(failure) => (model is Some || tool is Some) && failure.of_model() == model
                    && failure.of_tool() == tool,
                Err(_) => model is None && tool is None,
            },
    {
        if model.is_none() && tool.is_none() {
            return Err(InvalidCapabilityTurnFailure);
        }
        Ok(CapabilityTurnFailure { model, tool })
    }

    pub fn model(&self) -> (failure: Option<&ModelTurnFailure>)
        ensures
            match failure {
                Some(f) => self.of_model() == Some(*f),
                None => self.of_model() is None,
            },
    {
        self.model.as_ref()
    }

    pub fn tool(&self) -> (failure: Option<&ToolTurnFailure>)
        ensures
            match failure {
                Some(f) => self.of_tool() == Some(*f),
                None => self.of_tool() is None,
            },
    {
        self.tool.as_ref()
    }

    /// The failure as one line of text.
    pub fn text(&self) -> (text: &'static str)
        ensures
            text@ == "one or more capability turn scopes failed to close"@,
    {
        "one or more capability turn scopes failed to close"
    }
}

/// A typed failure escaping an agent body.
#[derive(Debug, PartialEq, Eq)]
pub enum AgentError {
    Cancelled,
    Budget(BudgetError),
    Failed(AgentFailure),
    Model(ModelGatewayError),
    Tool(ToolRuntimeError),
    CapabilityClosure(CapabilityTurnFailure),
    Session(SessionRuntimeError),
}

impl AgentError {
    /// A failure that is cancellation by another name.
    pub open spec fn means_cancelled(self) -> bool {
        match self {
            AgentError::Cancelled => true,
            AgentError::Model(ModelGatewayError::Model(LlmError::Cancelled)) => true,
            AgentError::Tool(ToolRuntimeError::Cancelled { .. }) => true,
            _ => false,
        }
    }

    pub fn failed(code: String, message: String, retryable: bool) -> (error: Self)
        ensures
            error == AgentError::Failed(AgentFailure { code, message, retryable }),
    {
        AgentError::Failed(AgentFailure::new(code, message, retryable))
    }

    /// Whether this failure represents cancellation rather than failure.
    pub fn is_cancelled(&self) -> (answer: bool)
        ensures
            answer == self.means_cancelled(),
    {
        match self {
            AgentError::Cancelled => true,
            AgentError::Model(ModelGatewayError::Model(LlmError::Cancelled)) => true,
            AgentError::Tool(ToolRuntimeError::Cancelled { .. }) => true,
            _ => false,
        }
    }

    /// The failure that a model gateway's error is to an agent.
    pub fn from_model(error: ModelGatewayError) -> (agent_error: Self)
        ensures
            agent_error == if AgentError::Model(error).means_cancelled() {
                AgentError::Cancelled
            } else {
                AgentError::Model(error)
            },
    {
        let agent_error = AgentError::Model(error);
        if agent_error.is_cancelled() {
            AgentError::Cancelled
        } else {
            agent_error
        }
    }

    /// The failure that a tool runtime's error is to an agent.
    pub fn from_tool(error: ToolRuntimeError) -> (agent_error: Self)
        ensures
            agent_error == if error is Cancelled {
                AgentError::Cancelled
            } else {
                AgentError::Tool(error)
            },
    {
        match error {
            ToolRuntimeError::Cancelled { .. } => AgentError::Cancelled,
            error => AgentError::Tool(error),
        }
    }
}

/// What a caller asks of the runtime.
pub struct AgentTurnRequest {
    pub session_id: SessionId,
    pub agent_key: String,
    pub user_message: String,
    /// The ledger of an existing task, and limits of this run.
    pub binding: Option<(TaskBudget, BudgetLimits)>,
    /// A confirmed claim on a stored ledger, and limits of this run.
    pub durable: Option<(BudgetExecutionLease, BudgetLimits)>,
}

impl AgentTurnRequest {
    pub fn new(session_id: SessionId, agent_key: String, user_message: String) -> (request: Self)
        ensures
            request == (AgentTurnRequest {
                session_id,
                agent_key,
                user_message,
                binding: None,
                durable: None,
            }),
    {
        AgentTurnRequest { session_id, agent_key, user_message, binding: None, durable: None }
    }

    /// The run is charged to the task.
    pub fn with_budget(self, task: TaskBudget, limits: BudgetLimits) -> (request: Self)
        ensures
            request == (AgentTurnRequest { binding: Some((task, limits)), ..self }),
    {
        AgentTurnRequest { binding: Some((task, limits)), ..self }
    }

    /// The run is charged to the ledger that the claim holds, in place of any other.
    /// Whatever becomes of the run, the claim stays until it is settled or recovered.
    pub fn with_durable_budget(self, lease: BudgetExecutionLease, run_limits: BudgetLimits) -> (request: Self)
        ensures
            request == (AgentTurnRequest {
                binding: None,
                durable: Some((lease, run_limits)),
                ..self
            }),
    {
        AgentTurnRequest { binding: None, durable: Some((lease, run_limits)), ..self }
    }

    /// Everything that the request holds, and what its run is charged to.
    pub fn into_budget_parts(self) -> (parts: (
        SessionId,
        String,
        String,
        Option<(TaskBudget, BudgetLimits)>,
        Option<(BudgetExecutionLease, BudgetLimits)>,
    ))
        ensures
            parts == (
                self.session_id,
                self.agent_key,
                self.user_message,
                self.binding,
                self.durable,
            ),
    {
        (self.session_id, self.agent_key, self.user_message, self.binding, self.durable)
    }
}

/// A completed canonical turn report.
#[derive(Debug, PartialEq, Eq)]
pub struct AgentTurnReport {
    pub session_id: SessionId,
    pub turn_id: TurnId,
    pub disposition: TurnDisposition,
    pub final_text: String,
    pub artifact: Option<Json>,
    /// Shared with the settlement that they come from.
    pub events: Arc<Vec<SessionEvent>>,
    pub task_run_report: Option<TaskRunReport>,
    /// Receipt of the separate final budget commit. Evidence, not authority to execute
    /// or proof of current freshness.
    pub budget_checkpoint: Option<BudgetCheckpoint>,
}

impl AgentTurnReport {
    pub fn session_id(&self) -> (value: &SessionId)
        ensures
            *value == self.session_id,
    {
        &self.session_id
    }

    pub fn turn_id(&self) -> (value: &TurnId)
        ensures
            *value == self.turn_id,
    {
        &self.turn_id
    }

    pub fn final_text(&self) -> (value: &str)
        ensures
            value@ == self.final_text@,
    {
        self.final_text.as_str()
    }

    pub fn artifact(&self) -> (value: Option<&Json>)
        ensures
            match value {
                Some(value) => self.artifact == Some(*value),
                None => self.artifact is None,
            },
    {
        self.artifact.as_ref()
    }

    pub fn events(&self) -> (value: &Vec<SessionEvent>)
        ensures
            *value == *self.events,
    {
        &*self.events
    }

    pub fn task_run_report(&self) -> (value: Option<&TaskRunReport>)
        ensures
            match value {
                Some(value) => self.task_run_report == Some(*value),
                None => self.task_run_report is None,
            },
    {
        self.task_run_report.as_ref()
    }

    pub fn budget_checkpoint(&self) -> (value: Option<&BudgetCheckpoint>)
        ensures
            match value {
                Some(value) => self.budget_checkpoint == Some(*value),
                None => self.budget_checkpoint is None,
            },
    {
        self.budget_checkpoint.as_ref()
    }
}

impl AgentTurnReport {
    pub fn new(
        session_id: SessionId,
        turn_id: TurnId,
        disposition: TurnDisposition,
        final_text: String,
        artifact: Option<Json>,
        events: Arc<Vec<SessionEvent>>,
    ) -> (report: Self)
        ensures
            report == (AgentTurnReport {
                session_id,
                turn_id,
                disposition,
                final_text,
                artifact,
                events,
                task_run_report: None,
                budget_checkpoint: None,
            }),
    {
        AgentTurnReport {
            session_id,
            turn_id,
            disposition,
            final_text,
            artifact,
            events,
            task_run_report: None,
            budget_checkpoint: None,
        }
    }

    pub fn with_task_run_report(self, report: TaskRunReport) -> (updated: Self)
        ensures
            updated == (AgentTurnReport { task_run_report: Some(report), ..self }),
    {
        AgentTurnReport { task_run_report: Some(report), ..self }
    }

    pub fn with_budget_checkpoint(self, checkpoint: BudgetCheckpoint) -> (updated: Self)
        ensures
            updated == (AgentTurnReport { budget_checkpoint: Some(checkpoint), ..self }),
    {
        AgentTurnReport { budget_checkpoint: Some(checkpoint), ..self }
    }
}

/// Failure before a session lease is delivered.
#[derive(Debug, PartialEq, Eq)]
pub enum NotAdmittedFailure {
    Budget { error: BudgetError, report: Box<BudgetReport> },
    CallerCancelled,
    RuntimeStopping,
    Session(SessionRuntimeError),
}

/// Semantic failure that selected the canonical error terminal.
#[derive(Debug, PartialEq, Eq)]
pub enum DriveFailure {
    StartEnvelope(SessionRuntimeError),
    Agent(AgentError),
    Panicked,
    BudgetReport { prior: Option<Box<DriveFailure>> },
}

/// The exact report payload and total persistence outcome, before the terminal.
#[allow(inconsistent_fields)]
#[derive(Debug, PartialEq, Eq)]
pub enum TaskRunReportAttempt {
    Committed { report: TaskRunReport, event: SessionEvent },
    Failed { report: TaskRunReport, source: SessionRuntimeError },
    /// A mismatched session lease was rejected before report persistence.
    Rejected { report: TaskRunReport, error: BudgetError },
    /// The recorder returned evidence that does not confirm the attempted report.
    Invalid { report: TaskRunReport, event: SessionEvent },
}

/// Total outcome of the one terminal append attempt.
#[derive(Debug, PartialEq, Eq)]
pub enum TerminalAttempt {
    Committed(SessionEvent),
    Failed(SessionRuntimeError),
}

/// Total outcome of the one settlement attempt.
#[derive(Debug, PartialEq, Eq)]
pub enum SettlementAttempt {
    Settled(Arc<Vec<SessionEvent>>),
    Failed(SessionRuntimeError),
}

/// Closure status observed after terminal and settlement have both been attempted.
#[derive(Clone, Copy, Debug, PartialEq, Eq, Structural)]
pub enum TurnClosureStatus {
    Closed,
    TerminalFailed,
    SettlementFailed,
    TerminalAndSettlementFailed,
}

pub open spec fn closure_of(terminal: TerminalAttempt, settlement: SettlementAttempt) -> TurnClosureStatus {
    match (terminal, settlement) {
        (TerminalAttempt::Committed(_), SettlementAttempt::Settled(_)) => TurnClosureStatus::Closed,
        (TerminalAttempt::Failed(_), SettlementAttempt::Settled(_)) =>
            TurnClosureStatus::TerminalFailed,
        (TerminalAttempt::Committed(_), SettlementAttempt::Failed(_)) =>
            TurnClosureStatus::SettlementFailed,
        (TerminalAttempt::Failed(_), SettlementAttempt::Failed(_)) =>
            TurnClosureStatus::TerminalAndSettlementFailed,
    }
}

pub fn closure_status(terminal: &TerminalAttempt, settlement: &SettlementAttempt) -> (status: TurnClosureStatus)
    ensures
        status == closure_of(*terminal, *settlement),
{
    match (terminal, settlement) {
        (TerminalAttempt::Committed(_), SettlementAttempt::Settled(_)) => TurnClosureStatus::Closed,
        (TerminalAttempt::Failed(_), SettlementAttempt::Settled(_)) =>
            TurnClosureStatus::TerminalFailed,
        (TerminalAttempt::Committed(_), SettlementAttempt::Failed(_)) =>
            TurnClosureStatus::SettlementFailed,
        (TerminalAttempt::Failed(_), SettlementAttempt::Failed(_)) =>
            TurnClosureStatus::TerminalAndSettlementFailed,
    }
}

/// Immutable all-path observation supplied to hooks.
#[derive(Debug, PartialEq, Eq)]
pub struct TurnFinally {
    pub session_id: SessionId,
    pub turn_id: TurnId,
    pub disposition: TurnDisposition,
    pub closure: TurnClosureStatus,
}

/// Semantic and identity fields paired with total closure evidence.
#[derive(Debug, PartialEq, Eq)]
pub struct TurnFailureContext {
    pub session_id: SessionId,
    pub turn_id: TurnId,
    pub disposition: TurnDisposition,
    pub final_text: String,
    pub artifact: Option<Json>,
    pub report: Option<AgentTurnReport>,
    pub drive_failure: Option<DriveFailure>,
    pub task_run_report_attempt: Option<TaskRunReportAttempt>,
}

impl TurnFailureContext {
    pub fn new(
        session_id: SessionId,
        turn_id: TurnId,
        disposition: TurnDisposition,
        final_text: String,
        artifact: Option<Json>,
        report: Option<AgentTurnReport>,
        drive_failure: Option<DriveFailure>,
    ) -> (context: Self)
        ensures
            context == (TurnFailureContext {
                session_id,
                turn_id,
                disposition,
                final_text,
                artifact,
                report,
                drive_failure,
                task_run_report_attempt: None,
            }),
    {
        TurnFailureContext {
            session_id,
            turn_id,
            disposition,
            final_text,
            artifact,
            report,
            drive_failure,
            task_run_report_attempt: None,
        }
    }

    pub fn with_task_run_report_attempt(self, attempt: TaskRunReportAttempt) -> (context: Self)
        ensures
            context == (TurnFailureContext { task_run_report_attempt: Some(attempt), ..self }),
    {
        TurnFailureContext { task_run_report_attempt: Some(attempt), ..self }
    }
}

/// Bounded structured failure after a session lease has been admitted.
#[derive(Debug, PartialEq, Eq)]
pub struct TurnFailure {
    pub context: TurnFailureContext,
    pub terminal_attempt: TerminalAttempt,
    pub settlement_attempt: SettlementAttempt,
}

/// A rejected combination of semantic and closure evidence.
#[derive(Clone, Copy, Debug, PartialEq, Eq, Structural)]
pub enum InvalidTurnFailure {
    /// Neither a semantic nor a closure failure.
    MissingFailureSource,
    /// A drive failure is there exactly where the turn failed, and is no cancellation.
    DriveFailureMismatch,
    /// A failed turn carries no artifact.
    ArtifactMismatch,
    /// The committed terminal is not that of the resolved turn.
    TerminalMismatch,
    /// An event outside the turn was settled with it.
    SettlementMismatch,
    /// A fully closed turn must carry its canonical report.
    MissingClosedReport,
    /// A turn that did not close cannot carry a canonical report.
    ReportBeforeClosure,
    /// The report is not that of the failed turn.
    ReportMismatch,
}

/// The terminal event is the one that a disposition and an artifact ask for.
pub open spec fn terminal_matches(
    terminal: SessionEventView,
    session: Seq<char>,
    turn: Seq<char>,
    disposition: TurnDisposition,
    artifact: Option<Seq<char>>,
) -> bool {
    terminal.session_id == session && terminal.turn_id == turn && match terminal.kind {
        SessionEventKindView::Done { status, artifact: recorded } => same_optional(recorded, artifact)
            && match status {
            DoneStatus::Completed => disposition == TurnDisposition::Completed,
            DoneStatus::WaitingForInput => disposition == TurnDisposition::WaitingForInput,
            DoneStatus::Cancelled => disposition == TurnDisposition::Cancelled,
        },
        SessionEventKindView::Error { .. } => disposition == TurnDisposition::Failed
            && artifact is None,
        _ => false,
    }
}

pub fn terminal_matches_resolution(
    terminal: &SessionEvent,
    session_id: &SessionId,
    turn_id: &TurnId,
    disposition: TurnDisposition,
    artifact: &Option<Json>,
) -> (answer: bool)
    ensures
        answer == terminal_matches(
            terminal@,
            session_id@,
            turn_id@,
            disposition,
            artifact.deep_view(),
        ),
{
    if !terminal.session_id.is_same(session_id) || !terminal.turn_id.is_same(turn_id) {
        return false;
    }
    match &terminal.kind {
        SessionEventKind::Done { status, artifact: recorded } => {
            let agrees: bool = match *status {
                DoneStatus::Completed => disposition == TurnDisposition::Completed,
                DoneStatus::WaitingForInput => disposition == TurnDisposition::WaitingForInput,
                DoneStatus::Cancelled => disposition == TurnDisposition::Cancelled,
            };
            agrees && same_optional_value(recorded, artifact)
        },
        SessionEventKind::Error { .. } => disposition == TurnDisposition::Failed
            && artifact.is_none(),
        _ => false,
    }
}

/// Every event belongs to the turn.
pub open spec fn all_of_turn(events: Seq<SessionEventView>, session: Seq<char>, turn: Seq<char>) -> bool {
    forall|i: int|
        0 <= i < events.len() ==> (#[trigger] events[i]).session_id == session && events[i].turn_id
            == turn
}

/// Exactly the last event, which is `terminal`, ends the turn.
pub open spec fn ends_once_with(events: Seq<SessionEventView>, terminal: SessionEventView) -> bool {
    &&& events.len() > 0
    &&& events.last() == terminal
    &&& terminal.is_terminal()
    &&& forall|i: int| 0 <= i < events.len() - 1 ==> !(#[trigger] events[i]).is_terminal()
}

pub open spec fn no_terminal(events: Seq<SessionEventView>) -> bool {
    forall|i: int| 0 <= i < events.len() ==> !(#[trigger] events[i]).is_terminal()
}

/// A report shows the same turn, closed by the committed terminal, and shares the settled
/// events.
pub open spec fn report_matches(
    report: AgentTurnReport,
    context: TurnFailureContext,
    terminal: SessionEventView,
    events: Seq<SessionEventView>,
    shares: bool,
) -> bool {
    &&& shares
    &&& report.session_id@ == context.session_id@
    &&& report.turn_id@ == context.turn_id@
    &&& report.disposition == context.disposition
    &&& report.final_text@ == context.final_text@
    &&& same_optional(report.artifact.deep_view(), context.artifact.deep_view())
    &&& report.events.deep_view() == events
    &&& ends_once_with(events, terminal)
}

/// Why the evidence does not describe a failed turn, if so. `shares` says whether the
/// report holds the settled events themselves and not a copy of them.
pub open spec fn failure_fault(
    context: TurnFailureContext,
    terminal: TerminalAttempt,
    settlement: SettlementAttempt,
    shares: bool,
) -> Option<InvalidTurnFailure> {
    let closure = closure_of(terminal, settlement);
    let failed = context.disposition == TurnDisposition::Failed;
    if !failed && closure == TurnClosureStatus::Closed {
        Some(InvalidTurnFailure::MissingFailureSource)
    } else if failed != context.drive_failure is Some || (context.drive_failure matches Some(
        DriveFailure::Agent(e),
    ) && e.means_cancelled()) {
        Some(InvalidTurnFailure::DriveFailureMismatch)
    } else if failed && context.artifact is Some {
        Some(InvalidTurnFailure::ArtifactMismatch)
    } else if terminal is Committed && !terminal_matches(
        terminal->Committed_0@,
        context.session_id@,
        context.turn_id@,
        context.disposition,
        context.artifact.deep_view(),
    ) {
        Some(InvalidTurnFailure::TerminalMismatch)
    } else if settlement is Settled && !all_of_turn(
        settlement->Settled_0.deep_view(),
        context.session_id@,
        context.turn_id@,
    ) {
        Some(InvalidTurnFailure::SettlementMismatch)
    } else if terminal is Failed && settlement is Settled && !no_terminal(
        settlement->Settled_0.deep_view(),
    ) {
        Some(InvalidTurnFailure::TerminalMismatch)
    } else if closure == TurnClosureStatus::Closed {
        match context.report {
            None => Some(InvalidTurnFailure::MissingClosedReport),
            Some(report) => if report_matches(
                report,
                context,
                terminal->Committed_0@,
                settlement->Settled_0.deep_view(),
                shares,
            ) {
                None
            } else {
                Some(InvalidTurnFailure::ReportMismatch)
            },
        }
    } else if context.report is Some {
        Some(InvalidTurnFailure::ReportBeforeClosure)
    } else {
        None
    }
}

fn events_of_turn(events: &Vec<SessionEvent>, session: &SessionId, turn: &TurnId) -> (answer: bool)
    ensures
        answer == all_of_turn(events.deep_view(), session@, turn@),
{
    let ghost views = events.deep_view();
    let mut i: usize = 0;
    while i < events.len()
        invariant
            i <= events@.len(),
            views == events.deep_view(),
            forall|j: int|
                0 <= j < i ==> (#[trigger] views[j]).session_id == session@ && views[j].turn_id
                    == turn@,
        decreases events@.len() - i,
    {
        assert(views[i as int] == events@[i as int]@);
        if !events[i].session_id.is_same(session) || !events[i].turn_id.is_same(turn) {
            return false;
        }
        i = i + 1;
    }
    true
}

/// Whether none of the first `n` events ends a turn.
fn without_terminal(events: &Vec<SessionEvent>, n: usize) -> (answer: bool)
    requires
        n <= events@.len(),
    ensures
        answer == (forall|i: int| 0 <= i < n ==> !(#[trigger] events.deep_view()[i]).is_terminal()),
{
    let ghost views = events.deep_view();
    let mut i: usize = 0;
    while i < n
        invariant
            i <= n <= events@.len(),
            views == events.deep_view(),
            forall|j: int| 0 <= j < i ==> !(#[trigger] views[j]).is_terminal(),
        decreases n - i,
    {
        assert(views[i as int] == events@[i as int]@);
        if is_terminal(&events[i]) {
            return false;
        }
        i = i + 1;
    }
    true
}

fn same_report(
    report: &AgentTurnReport,
    context: &TurnFailureContext,
    terminal: &SessionEvent,
    events: &Vec<SessionEvent>,
    shares: bool,
) -> (answer: bool)
    ensures
        answer == report_matches(*report, *context, terminal@, events.deep_view(), shares),
{
    let n: usize = events.len();
    if n == 0 {
        return false;
    }
    assert(events.deep_view().last() == events@[n - 1]@);
    shares && report.session_id.is_same(&context.session_id) && report.turn_id.is_same(
        &context.turn_id,
    ) && report.disposition == context.disposition && report.final_text.is_same(
        &context.final_text,
    ) && same_optional_value(&report.artifact, &context.artifact) && report.events().is_same(events)
        && events[n - 1].is_same(terminal) && is_terminal(terminal) && without_terminal(
        events,
        n - 1,
    )
}

pub open spec fn disposition_name_of(disposition: TurnDisposition) -> Seq<char> {
    match disposition {
        TurnDisposition::Completed => "Completed"@,
        TurnDisposition::WaitingForInput => "WaitingForInput"@,
        TurnDisposition::Cancelled => "Cancelled"@,
        TurnDisposition::Failed => "Failed"@,
    }
}

impl TurnDisposition {
    pub fn name(self) -> (name: &'static str)
        ensures
            name@ == disposition_name_of(self),
    {
        match self {
            TurnDisposition::Completed => "Completed",
            TurnDisposition::WaitingForInput => "WaitingForInput",
            TurnDisposition::Cancelled => "Cancelled",
            TurnDisposition::Failed => "Failed",
        }
    }
}

impl TurnFailure {
    /// The failure as one line of text.
    pub fn text(&self) -> (text: String)
        ensures
            text@ == "turn "@ + self.context.turn_id@ + " in Session "@ + self.context.session_id@
                + " failed with disposition "@ + disposition_name_of(self.context.disposition),
    {
        let mut text = "turn ".to_owned();
        text.push_str(self.context.turn_id.as_str());
        text.push_str(" in Session ");
        text.push_str(self.context.session_id.as_str());
        text.push_str(" failed with disposition ");
        text.push_str(self.context.disposition.name());
        text
    }
}

impl TurnFailure {
    pub fn session_id(&self) -> (value: &SessionId)
        ensures
            *value == self.context.session_id,
    {
        &self.context.session_id
    }

    pub fn turn_id(&self) -> (value: &TurnId)
        ensures
            *value == self.context.turn_id,
    {
        &self.context.turn_id
    }

    pub fn final_text(&self) -> (value: &str)
        ensures
            value@ == self.context.final_text@,
    {
        self.context.final_text.as_str()
    }

    pub fn artifact(&self) -> (value: Option<&Json>)
        ensures
            match value {
                Some(value) => self.context.artifact == Some(*value),
                None => self.context.artifact is None,
            },
    {
        self.context.artifact.as_ref()
    }

    pub fn report(&self) -> (value: Option<&AgentTurnReport>)
        ensures
            match value {
                Some(value) => self.context.report == Some(*value),
                None => self.context.report is None,
            },
    {
        self.context.report.as_ref()
    }

    pub fn task_run_report_attempt(&self) -> (value: Option<&TaskRunReportAttempt>)
        ensures
            match value {
                Some(value) => self.context.task_run_report_attempt == Some(*value),
                None => self.context.task_run_report_attempt is None,
            },
    {
        self.context.task_run_report_attempt.as_ref()
    }

    pub fn drive_failure(&self) -> (value: Option<&DriveFailure>)
        ensures
            match value {
                Some(value) => self.context.drive_failure == Some(*value),
                None => self.context.drive_failure is None,
            },
    {
        self.context.drive_failure.as_ref()
    }

    pub fn terminal_attempt(&self) -> (value: &TerminalAttempt)
        ensures
            *value == self.terminal_attempt,
    {
        &self.terminal_attempt
    }

    pub fn settlement_attempt(&self) -> (value: &SettlementAttempt)
        ensures
            *value == self.settlement_attempt,
    {
        &self.settlement_attempt
    }
}

/// Whether the report holds the settled events themselves and not a copy of them.
fn report_shares(context: &TurnFailureContext, settlement: &SettlementAttempt) -> (answer: bool)
    ensures
        answer ==> holds_settled(*context, *settlement),
{
    match (&context.report, settlement) {
        (Some(report), SettlementAttempt::Settled(events)) => one_allocation(&report.events, events),
        _ => false,
    }
}

/// The report holds the settled events, as its own or shared.
pub open spec fn holds_settled(context: TurnFailureContext, settlement: SettlementAttempt) -> bool {
    &&& context.report matches Some(report)
    &&& settlement matches SettlementAttempt::Settled(events)
    &&& report.events == events
}

/// What the evidence makes: the failure that it describes, or why it describes none.
pub open spec fn makes_failure(
    result: Result<TurnFailure, InvalidTurnFailure>,
    context: TurnFailureContext,
    terminal: TerminalAttempt,
    settlement: SettlementAttempt,
    shares: bool,
) -> bool {
    match result {
        Ok(failure) => {
            &&& failure_fault(context, terminal, settlement, shares) is None
            &&& failure == (TurnFailure {
                context,
                terminal_attempt: terminal,
                settlement_attempt: settlement,
            })
        },
        Err(e) => failure_fault(context, terminal, settlement, shares) == Some(e),
    }
}

impl TurnFailure {
    /// The failure that the evidence describes. A report of the closed turn has to hold
    /// the settled events themselves: whether it does is a matter of where they are
    /// stored, and a report of other events never does.
    pub fn new(
        context: TurnFailureContext,
        terminal_attempt: TerminalAttempt,
        settlement_attempt: SettlementAttempt,
    ) -> (result: Result<Self, InvalidTurnFailure>)
        ensures
            exists|shares: bool|
                {
                    &&& #[trigger] makes_failure(
                        result,
                        context,
                        terminal_attempt,
                        settlement_attempt,
                        shares,
                    )
                    &&& shares ==> holds_settled(context, settlement_attempt)
                },
    {
        let shares: bool = report_shares(&context, &settlement_attempt);
        Self::assess(context, terminal_attempt, settlement_attempt, shares)
    }

    /// The failure that the evidence describes, by whether the report shares the settled
    /// events.
    pub fn assess(
        context: TurnFailureContext,
        terminal_attempt: TerminalAttempt,
        settlement_attempt: SettlementAttempt,
        shares: bool,
    ) -> (result: Result<Self, InvalidTurnFailure>)
        ensures
            makes_failure(result, context, terminal_attempt, settlement_attempt, shares),
    {
        let closure = closure_status(&terminal_attempt, &settlement_attempt);
        let failed: bool = context.disposition == TurnDisposition::Failed;
        if !failed && closure == TurnClosureStatus::Closed {
            return Err(InvalidTurnFailure::MissingFailureSource);
        }
        let cancelled: bool = match &context.drive_failure {
            Some(DriveFailure::Agent(error)) => error.is_cancelled(),
            _ => false,
        };
        if failed != context.drive_failure.is_some() || cancelled {
            return Err(InvalidTurnFailure::DriveFailureMismatch);
        }
        if failed && context.artifact.is_some() {
            return Err(InvalidTurnFailure::ArtifactMismatch);
        }
        match &terminal_attempt {
            TerminalAttempt::Committed(terminal) => {
                if !terminal_matches_resolution(
                    terminal,
                    &context.session_id,
                    &context.turn_id,
                    context.disposition,
                    &context.artifact,
                ) {
                    return Err(InvalidTurnFailure::TerminalMismatch);
                }
            },
            TerminalAttempt::Failed(_) => {},
        }
        match &settlement_attempt {
            SettlementAttempt::Settled(events) => {
                if !events_of_turn(events, &context.session_id, &context.turn_id) {
                    return Err(InvalidTurnFailure::SettlementMismatch);
                }
                match &terminal_attempt {
                    TerminalAttempt::Failed(_) => {
                        if !without_terminal(events, events.len()) {
                            return Err(InvalidTurnFailure::TerminalMismatch);
                        }
                    },
                    TerminalAttempt::Committed(_) => {},
                }
            },
            SettlementAttempt::Failed(_) => {},
        }
        match (&terminal_attempt, &settlement_attempt) {
            (TerminalAttempt::Committed(terminal), SettlementAttempt::Settled(events)) => {
                match &context.report {
                    None => {
                        return Err(InvalidTurnFailure::MissingClosedReport);
                    },
                    Some(report) => {
                        if !same_report(report, &context, terminal, events, shares) {
                            return Err(InvalidTurnFailure::ReportMismatch);
                        }
                    },
                }
            },
            _ => {
                if context.report.is_some() {
                    return Err(InvalidTurnFailure::ReportBeforeClosure);
                }
            },
        }
        Ok(TurnFailure { context, terminal_attempt, settlement_attempt })
    }

    pub fn canonical_events_complete(&self) -> (answer: bool)
        ensures
            answer == (self.settlement_attempt is Settled),
    {
        match &self.settlement_attempt {
            SettlementAttempt::Settled(_) => true,
            SettlementAttempt::Failed(_) => false,
        }
    }

    pub fn closure_status(&self) -> (status: TurnClosureStatus)
        ensures
            status == closure_of(self.terminal_attempt, self.settlement_attempt),
    {
        closure_status(&self.terminal_attempt, &self.settlement_attempt)
    }
}

/// The authority to ask one accepted turn to stop. Whether and when the turn stops is not
/// the caller's to know: it hears the turn's own report.
pub trait AgentTurnCanceller: Send + Sync {
    fn cancel(&self);
}

/// Synchronous admission or owned-turn completion failure.
#[derive(Debug, PartialEq, Eq)]
pub enum AgentRuntimeError {
    RecoveryBoundary { source: BudgetExecutionError, settlement: Result<(), SessionRuntimeError> },
    /// The session outcome is retained even when the separate checkpoint barrier fails.
    Durability {
        source: BudgetExecutionError,
        outcome: Box<Result<AgentTurnReport, AgentRuntimeError>>,
    },
    Budget(BudgetError),
    Stopped,
    Overloaded,
    AgentNotFound { key: String },
    NotAdmitted(NotAdmittedFailure),
    Turn(Box<TurnFailure>),
}

} // verus!
