//! What a turn comes to: the intent it resolves to, and the evidence it closes with.
//!
//! A host drives a turn through these decisions in order. It appends the user's
//! message, binds the model and tool scopes the agent may use, runs the agent's body,
//! drains both scopes, records the budget, appends one terminal event and settles the
//! session. At each point it hands in what it observed and performs what it is told.

use crate::agent::turn::{
    closure_of, closure_status, failure_fault, no_terminal, all_of_turn, ends_once_with, shared, terminal_matches,
    AgentError, AgentRuntimeError, AgentTurnOutput, AgentTurnReport, CapabilityTurnFailure, DriveFailure,
    InvalidTurnFailure, NotAdmittedFailure, SettlementAttempt, TaskRunReportAttempt, TerminalAttempt,
    TurnDisposition, TurnFailure, TurnFailureContext, TurnFinally,
};
use crate::budget::execution::BudgetExecutionError;
use crate::budget::model::BudgetError;
use crate::budget::sealed::BudgetCheckpoint;
use crate::budget::vocabulary::{
    BudgetReport, TaskRunReport, TaskRunReportVersion, TaskRunStop, ReportView, TaskRunReportView, BudgetStopReason,
};
use crate::budget::wording::error_text_of;
use crate::id::{SessionId, TurnId};
use crate::json::Json;
use crate::llm::failure::{
    LlmError, ModelFinishMode, ModelGatewayError, ModelRuntimeError, ModelTurnFailure,
};
use crate::record::Record;
use crate::session::error::SessionRuntimeError;
use crate::session::event::{
    DoneStatus, SessionEvent, SessionEventKind, SessionEventKindView, SessionEventView,
};
use crate::tool::failure::{ToolFinishMode, ToolRuntimeError, ToolTurnFailure};
use std::sync::Arc;
use vstd::prelude::*;

verus! {

/// Why a turn was asked to stop. The first reason stays.
#[derive(Clone, Copy, Debug, PartialEq, Eq, Structural)]
pub enum CancelReason {
    NotRequested,
    Caller,
    RuntimeStopping,
}

/// The failure of a turn that was cancelled before a session lease was delivered.
pub open spec fn unadmitted(reason: CancelReason) -> NotAdmittedFailure {
    match reason {
        CancelReason::Caller => NotAdmittedFailure::CallerCancelled,
        CancelReason::NotRequested | CancelReason::RuntimeStopping =>
            NotAdmittedFailure::RuntimeStopping,
    }
}

/// The failure of a turn that was cancelled before a session lease was delivered.
pub fn not_admitted_failure(reason: CancelReason) -> (failure: NotAdmittedFailure)
    ensures
        failure == unadmitted(reason),
{
    match reason {
        CancelReason::Caller => NotAdmittedFailure::CallerCancelled,
        CancelReason::NotRequested | CancelReason::RuntimeStopping =>
            NotAdmittedFailure::RuntimeStopping,
    }
}

/// How waiting for a session lease ended.
#[derive(Debug, PartialEq, Eq)]
pub enum AdmissionEnd {
    BudgetStopped(BudgetError),
    Cancelled(CancelReason),
    Refused(SessionRuntimeError),
}

/// The failure of a turn without a lease. `report` is the budget once its run ended.
pub fn not_admitted(end: AdmissionEnd, report: BudgetReport) -> (error: AgentRuntimeError)
    ensures
        error == AgentRuntimeError::NotAdmitted(
            match end {
                AdmissionEnd::BudgetStopped(error) => NotAdmittedFailure::Budget {
                    error,
                    report: Box::new(report),
                },
                AdmissionEnd::Cancelled(reason) => unadmitted(reason),
                AdmissionEnd::Refused(error) => NotAdmittedFailure::Session(error),
            },
        ),
{
    AgentRuntimeError::NotAdmitted(
        match end {
            AdmissionEnd::BudgetStopped(error) => NotAdmittedFailure::Budget {
                error,
                report: Box::new(report),
            },
            AdmissionEnd::Cancelled(reason) => not_admitted_failure(reason),
            AdmissionEnd::Refused(error) => NotAdmittedFailure::Session(error),
        },
    )
}

/// Whether the delivered lease is for the requested session and the task's.
pub fn admission_matches(delivered: &SessionId, requested: &SessionId, budgeted: &SessionId) -> (answer: bool)
    ensures
        answer == (delivered@ == requested@ && delivered@ == budgeted@),
{
    delivered.is_same(requested) && delivered.is_same(budgeted)
}

/// The fields of a canonical error event.
#[derive(Debug, PartialEq, Eq)]
pub struct TerminalErrorFields {
    pub code: String,
    pub message: String,
    pub retryable: bool,
}

pub struct FieldsView {
    pub code: Seq<char>,
    pub message: Seq<char>,
    pub retryable: bool,
}

pub open spec fn fields(code: Seq<char>, message: Seq<char>, retryable: bool) -> FieldsView {
    FieldsView { code, message, retryable }
}

impl TerminalErrorFields {
    pub open spec fn view(&self) -> FieldsView {
        FieldsView { code: self.code@, message: self.message@, retryable: self.retryable }
    }

    fn fixed(code: &'static str, message: &'static str, retryable: bool) -> (made: Self)
        ensures
            made@ == fields(code@, message@, retryable),
    {
        TerminalErrorFields { code: code.to_owned(), message: message.to_owned(), retryable }
    }
}

/// An upstream status after which the same request may succeed.
pub open spec fn retryable_status(status: u16) -> bool {
    status == 408 || status == 429 || status >= 500
}

/// What the log says of a failed model call.
pub open spec fn model_fields(error: ModelGatewayError) -> FieldsView {
    match error {
        ModelGatewayError::Runtime(ModelRuntimeError::Budget(_)) => fields("task_budget_stopped"@, "model task budget rejected execution"@, false),
        ModelGatewayError::Model(LlmError::Upstream { status, .. }) => fields("model_upstream"@, "model upstream request failed"@, retryable_status(status)),
        ModelGatewayError::Model(LlmError::Timeout) => fields("model_timeout"@, "model request timed out"@, true),
        ModelGatewayError::Model(LlmError::StreamParse(_)) => fields("model_stream_parse"@, "model stream parsing failed"@, false),
        ModelGatewayError::Model(LlmError::Protocol(_)) => fields("model_protocol"@, "model protocol validation failed"@, false),
        ModelGatewayError::Model(LlmError::Cancelled) => fields("model_cancelled"@, "model request cancelled"@, false),
        ModelGatewayError::Model(LlmError::Adapter(_)) => fields("model_adapter"@, "model adapter failed"@, true),
        ModelGatewayError::Runtime(ModelRuntimeError::Stopped) => fields("model_runtime_stopped"@, "model runtime is stopped"@, false),
        ModelGatewayError::Runtime(ModelRuntimeError::TurnClosed) => fields("model_turn_closed"@, "model turn is closed"@, false),
        ModelGatewayError::Runtime(ModelRuntimeError::Overloaded { .. }) => fields("model_overloaded"@, "model scheduler capacity is exhausted"@, true),
        ModelGatewayError::Runtime(ModelRuntimeError::RequestTooLarge { .. }) => fields("model_request_too_large"@, "model request exceeds the runtime size limit"@, false),
        ModelGatewayError::Runtime(ModelRuntimeError::QueueTimeout) => fields("model_queue_timeout"@, "model request timed out in the scheduler queue"@, true),
        ModelGatewayError::Runtime(ModelRuntimeError::InvalidTimeout) => fields("model_invalid_timeout"@, "model timeout exceeds the executor clock range"@, false),
        ModelGatewayError::Runtime(ModelRuntimeError::Internal { .. }) => fields("model_runtime_internal"@, "model runtime internal failure"@, false),
        ModelGatewayError::Internal { .. } => fields("model_runtime_internal"@, "model runtime internal failure"@, false),
        ModelGatewayError::SchemaRejected { .. } => fields("model_schema_rejected"@, "model output broke its schema"@, false),
        ModelGatewayError::Recording(_) => fields("model_recording"@, "canonical model recording failed"@, false),
    }
}

fn terminal_fields_for_model_error(error: &ModelGatewayError) -> (made: TerminalErrorFields)
    ensures
        made@ == model_fields(*error),
{
    match error {
        ModelGatewayError::Runtime(ModelRuntimeError::Budget(_)) => TerminalErrorFields::fixed("task_budget_stopped", "model task budget rejected execution", false),
        ModelGatewayError::Model(LlmError::Upstream { status, .. }) => TerminalErrorFields::fixed("model_upstream", "model upstream request failed", *status == 408 || *status == 429 || *status >= 500),
        ModelGatewayError::Model(LlmError::Timeout) => TerminalErrorFields::fixed("model_timeout", "model request timed out", true),
        ModelGatewayError::Model(LlmError::StreamParse(_)) => TerminalErrorFields::fixed("model_stream_parse", "model stream parsing failed", false),
        ModelGatewayError::Model(LlmError::Protocol(_)) => TerminalErrorFields::fixed("model_protocol", "model protocol validation failed", false),
        ModelGatewayError::Model(LlmError::Cancelled) => TerminalErrorFields::fixed("model_cancelled", "model request cancelled", false),
        ModelGatewayError::Model(LlmError::Adapter(_)) => TerminalErrorFields::fixed("model_adapter", "model adapter failed", true),
        ModelGatewayError::Runtime(ModelRuntimeError::Stopped) => TerminalErrorFields::fixed("model_runtime_stopped", "model runtime is stopped", false),
        ModelGatewayError::Runtime(ModelRuntimeError::TurnClosed) => TerminalErrorFields::fixed("model_turn_closed", "model turn is closed", false),
        ModelGatewayError::Runtime(ModelRuntimeError::Overloaded { .. }) => TerminalErrorFields::fixed("model_overloaded", "model scheduler capacity is exhausted", true),
        ModelGatewayError::Runtime(ModelRuntimeError::RequestTooLarge { .. }) => TerminalErrorFields::fixed("model_request_too_large", "model request exceeds the runtime size limit", false),
        ModelGatewayError::Runtime(ModelRuntimeError::QueueTimeout) => TerminalErrorFields::fixed("model_queue_timeout", "model request timed out in the scheduler queue", true),
        ModelGatewayError::Runtime(ModelRuntimeError::InvalidTimeout) => TerminalErrorFields::fixed("model_invalid_timeout", "model timeout exceeds the executor clock range", false),
        ModelGatewayError::Runtime(ModelRuntimeError::Internal { .. }) => TerminalErrorFields::fixed("model_runtime_internal", "model runtime internal failure", false),
        ModelGatewayError::Internal { .. } => TerminalErrorFields::fixed("model_runtime_internal", "model runtime internal failure", false),
        ModelGatewayError::SchemaRejected { .. } => TerminalErrorFields::fixed("model_schema_rejected", "model output broke its schema", false),
        ModelGatewayError::Recording(_) => TerminalErrorFields::fixed("model_recording", "canonical model recording failed", false),
    }
}

/// What the log says of a failed tool call.
pub open spec fn tool_fields(error: ToolRuntimeError) -> FieldsView {
    match error {
        ToolRuntimeError::Budget(_) => fields("task_budget_stopped"@, "Tool task budget rejected execution"@, false),
        ToolRuntimeError::Stopped => fields("tool_runtime_stopped"@, "Tool runtime is stopped"@, false),
        ToolRuntimeError::TurnClosed => fields("tool_turn_closed"@, "Tool turn is closed"@, false),
        ToolRuntimeError::Overloaded => fields("tool_runtime_overloaded"@, "Tool runtime is overloaded"@, true),
        ToolRuntimeError::Preflight(_) => fields("tool_invalid_request"@, "Tool request failed controlled preflight"@, false),
        ToolRuntimeError::Cancelled { .. } => fields("tool_cancelled"@, "Tool execution was cancelled"@, false),
        ToolRuntimeError::Recording(_) => fields("tool_recording"@, "canonical Tool recording failed"@, false),
        ToolRuntimeError::Internal { .. } => fields("tool_runtime_internal"@, "Tool runtime internal failure"@, false),
    }
}

fn terminal_fields_for_tool_error(error: &ToolRuntimeError) -> (made: TerminalErrorFields)
    ensures
        made@ == tool_fields(*error),
{
    match error {
        ToolRuntimeError::Budget(_) => TerminalErrorFields::fixed("task_budget_stopped", "Tool task budget rejected execution", false),
        ToolRuntimeError::Stopped => TerminalErrorFields::fixed("tool_runtime_stopped", "Tool runtime is stopped", false),
        ToolRuntimeError::TurnClosed => TerminalErrorFields::fixed("tool_turn_closed", "Tool turn is closed", false),
        ToolRuntimeError::Overloaded => TerminalErrorFields::fixed("tool_runtime_overloaded", "Tool runtime is overloaded", true),
        ToolRuntimeError::Preflight(_) => TerminalErrorFields::fixed("tool_invalid_request", "Tool request failed controlled preflight", false),
        ToolRuntimeError::Cancelled { .. } => TerminalErrorFields::fixed("tool_cancelled", "Tool execution was cancelled", false),
        ToolRuntimeError::Recording(_) => TerminalErrorFields::fixed("tool_recording", "canonical Tool recording failed", false),
        ToolRuntimeError::Internal { .. } => TerminalErrorFields::fixed("tool_runtime_internal", "Tool runtime internal failure", false),
    }
}

/// What the log says of scopes that did not close.
pub open spec fn closure_fields(failure: CapabilityTurnFailure) -> FieldsView {
    if failure.of_model() is Some && failure.of_tool() is Some {
        fields(
            "capability_turn_closure"@,
            "model and Tool turn scopes failed to close"@,
            false,
        )
    } else if failure.of_model() is Some {
        fields("model_turn_closure"@, "model turn scope failed to close"@, false)
    } else {
        fields("tool_turn_closure"@, "Tool turn scope failed to close"@, false)
    }
}

fn terminal_fields_for_capability_closure(failure: &CapabilityTurnFailure) -> (made:
    TerminalErrorFields)
    ensures
        made@ == closure_fields(*failure),
{
    if failure.model().is_some() && failure.tool().is_some() {
        TerminalErrorFields::fixed(
            "capability_turn_closure",
            "model and Tool turn scopes failed to close",
            false,
        )
    } else if failure.model().is_some() {
        TerminalErrorFields::fixed(
            "model_turn_closure",
            "model turn scope failed to close",
            false,
        )
    } else {
        TerminalErrorFields::fixed("tool_turn_closure", "Tool turn scope failed to close", false)
    }
}

/// What the log says of an agent's failure.
pub open spec fn agent_fields(error: AgentError) -> FieldsView {
    match error {
        AgentError::Budget(e) => fields("task_budget_stopped"@, error_text_of(e), false),
        AgentError::Cancelled => fields("agent_cancelled"@, "agent cancelled"@, false),
        AgentError::Failed(f) => fields(f.code@, f.message@, f.retryable),
        AgentError::Model(e) => model_fields(e),
        AgentError::Tool(e) => tool_fields(e),
        AgentError::CapabilityClosure(f) => closure_fields(f),
        AgentError::Session(_) => fields(
            "session_runtime"@,
            "canonical Session operation failed"@,
            false,
        ),
    }
}

pub fn terminal_fields_for_agent_error(error: &AgentError) -> (made: TerminalErrorFields)
    ensures
        made@ == agent_fields(*error),
{
    match error {
        AgentError::Budget(e) => TerminalErrorFields {
            code: "task_budget_stopped".to_owned(),
            message: e.text(),
            retryable: false,
        },
        AgentError::Cancelled => TerminalErrorFields::fixed(
            "agent_cancelled",
            "agent cancelled",
            false,
        ),
        AgentError::Failed(f) => TerminalErrorFields {
            code: f.code.clone(),
            message: f.message.clone(),
            retryable: f.retryable,
        },
        AgentError::Model(e) => terminal_fields_for_model_error(e),
        AgentError::Tool(e) => terminal_fields_for_tool_error(e),
        AgentError::CapabilityClosure(f) => terminal_fields_for_capability_closure(f),
        AgentError::Session(_) => TerminalErrorFields::fixed(
            "session_runtime",
            "canonical Session operation failed",
            false,
        ),
    }
}

/// What a turn will be recorded as.
#[derive(Debug, PartialEq, Eq)]
pub struct ResolvedIntent {
    pub disposition: TurnDisposition,
    pub final_text: String,
    pub artifact: Option<Json>,
    pub drive_failure: Option<DriveFailure>,
    pub terminal_error: Option<TerminalErrorFields>,
    pub has_agent_output: bool,
}

pub struct IntentView {
    pub disposition: TurnDisposition,
    pub final_text: Seq<char>,
    pub artifact: Option<Seq<char>>,
    pub drive_failure: Option<DriveFailure>,
    pub terminal_error: Option<FieldsView>,
    pub has_agent_output: bool,
}

impl IntentView {
    /// Output that the agent produced.
    pub open spec fn output(output: AgentTurnOutput) -> IntentView {
        IntentView {
            disposition: output.outcome.as_disposition(),
            final_text: output.final_text@,
            artifact: output.artifact.deep_view(),
            drive_failure: None,
            terminal_error: None,
            has_agent_output: true,
        }
    }

    pub open spec fn cancelled(text: Seq<char>) -> IntentView {
        IntentView {
            disposition: TurnDisposition::Cancelled,
            final_text: text,
            artifact: None,
            drive_failure: None,
            terminal_error: None,
            has_agent_output: false,
        }
    }

    pub open spec fn failed(failure: DriveFailure, said: FieldsView, text: Seq<char>) -> IntentView {
        IntentView {
            disposition: TurnDisposition::Failed,
            final_text: text,
            artifact: None,
            drive_failure: Some(failure),
            terminal_error: Some(said),
            has_agent_output: false,
        }
    }

    pub open spec fn agent_failed(error: AgentError, text: Seq<char>) -> IntentView {
        IntentView::failed(DriveFailure::Agent(error), agent_fields(error), text)
    }

    /// The turn would end well.
    pub open spec fn is_successful(self) -> bool {
        self.disposition == TurnDisposition::Completed || self.disposition
            == TurnDisposition::WaitingForInput
    }

    /// Failure, its cause and its log entry come together, and a failed turn carries
    /// no artifact.
    pub open spec fn wf(self) -> bool {
        &&& (self.disposition == TurnDisposition::Failed) == (self.drive_failure is Some)
        &&& (self.disposition == TurnDisposition::Failed) == (self.terminal_error is Some)
        &&& self.disposition == TurnDisposition::Failed ==> self.artifact is None
        &&& (self.drive_failure matches Some(DriveFailure::Agent(e)) ==> !e.means_cancelled())
    }

    /// Cancellation observed late still takes back a success.
    pub open spec fn unless_cancelled(self, cancelled: bool, partial: Seq<char>) -> IntentView {
        if cancelled && self.is_successful() {
            IntentView::cancelled(partial)
        } else {
            self
        }
    }

    /// The terminal event that says what the turn came to.
    pub open spec fn terminal_kind(self) -> SessionEventKindView {
        match self.disposition {
            TurnDisposition::Completed => SessionEventKindView::Done {
                status: DoneStatus::Completed,
                artifact: self.artifact,
            },
            TurnDisposition::WaitingForInput => SessionEventKindView::Done {
                status: DoneStatus::WaitingForInput,
                artifact: self.artifact,
            },
            TurnDisposition::Cancelled => SessionEventKindView::Done {
                status: DoneStatus::Cancelled,
                artifact: self.artifact,
            },
            TurnDisposition::Failed => SessionEventKindView::Error {
                code: self.terminal_error->0.code,
                message: self.terminal_error->0.message,
                retryable: self.terminal_error->0.retryable,
            },
        }
    }
}

impl ResolvedIntent {
    pub open spec fn view(&self) -> IntentView {
        IntentView {
            disposition: self.disposition,
            final_text: self.final_text@,
            artifact: self.artifact.deep_view(),
            drive_failure: self.drive_failure,
            terminal_error: match self.terminal_error {
                Some(said) => Some(said@),
                None => None,
            },
            has_agent_output: self.has_agent_output,
        }
    }

    pub fn from_output(output: AgentTurnOutput) -> (intent: Self)
        ensures
            intent@ == IntentView::output(output),
    {
        ResolvedIntent {
            disposition: output.outcome.disposition(),
            final_text: output.final_text,
            artifact: output.artifact,
            drive_failure: None,
            terminal_error: None,
            has_agent_output: true,
        }
    }

    pub fn cancelled(final_text: String) -> (intent: Self)
        ensures
            intent@ == IntentView::cancelled(final_text@),
    {
        ResolvedIntent {
            disposition: TurnDisposition::Cancelled,
            final_text,
            artifact: None,
            drive_failure: None,
            terminal_error: None,
            has_agent_output: false,
        }
    }

    fn failed(failure: DriveFailure, said: TerminalErrorFields, final_text: String) -> (intent: Self)
        ensures
            intent@ == IntentView::failed(failure, said@, final_text@),
    {
        ResolvedIntent {
            disposition: TurnDisposition::Failed,
            final_text,
            artifact: None,
            drive_failure: Some(failure),
            terminal_error: Some(said),
            has_agent_output: false,
        }
    }

    pub fn start_envelope_failed(error: SessionRuntimeError) -> (intent: Self)
        ensures
            intent@ == IntentView::failed(
                DriveFailure::StartEnvelope(error),
                fields(
                    "session_start_envelope"@,
                    "failed to record the canonical turn start"@,
                    false,
                ),
                Seq::empty(),
            ),
    {
        let said = TerminalErrorFields::fixed(
            "session_start_envelope",
            "failed to record the canonical turn start",
            false,
        );
        Self::failed(DriveFailure::StartEnvelope(error), said, String::new())
    }

    pub fn agent_failed(error: AgentError, final_text: String) -> (intent: Self)
        ensures
            intent@ == IntentView::agent_failed(error, final_text@),
    {
        let said = terminal_fields_for_agent_error(&error);
        Self::failed(DriveFailure::Agent(error), said, final_text)
    }

    pub fn tool_failed(error: ToolRuntimeError, final_text: String) -> (intent: Self)
        ensures
            intent@ == if error is Cancelled {
                IntentView::cancelled(final_text@)
            } else {
                IntentView::agent_failed(AgentError::Tool(error), final_text@)
            },
    {
        match error {
            ToolRuntimeError::Cancelled { .. } => Self::cancelled(final_text),
            error => Self::agent_failed(AgentError::Tool(error), final_text),
        }
    }

    pub fn model_runtime_failed(error: ModelRuntimeError, final_text: String) -> (intent: Self)
        ensures
            intent@ == IntentView::agent_failed(
                AgentError::Model(ModelGatewayError::Runtime(error)),
                final_text@,
            ),
    {
        Self::agent_failed(AgentError::Model(ModelGatewayError::Runtime(error)), final_text)
    }

    pub fn panicked(final_text: String) -> (intent: Self)
        ensures
            intent@ == IntentView::failed(
                DriveFailure::Panicked,
                fields("agent_panicked"@, "agent panicked"@, false),
                final_text@,
            ),
    {
        let said = TerminalErrorFields::fixed("agent_panicked", "agent panicked", false);
        Self::failed(DriveFailure::Panicked, said, final_text)
    }

    fn successful(&self) -> (answer: bool)
        ensures
            answer == self@.is_successful(),
    {
        match self.disposition {
            TurnDisposition::Completed | TurnDisposition::WaitingForInput => true,
            TurnDisposition::Cancelled | TurnDisposition::Failed => false,
        }
    }

    fn unless_cancelled(self, cancelled: bool, partial: &String) -> (intent: Self)
        ensures
            intent@ == self@.unless_cancelled(cancelled, partial@),
    {
        if cancelled && self.successful() {
            Self::cancelled(partial.clone())
        } else {
            self
        }
    }

    /// The terminal event that says what the turn came to.
    pub fn terminal_kind(&self) -> (kind: SessionEventKind)
        requires
            self@.wf(),
        ensures
            kind@ == self@.terminal_kind(),
    {
        match self.disposition {
            TurnDisposition::Completed => SessionEventKind::Done {
                status: DoneStatus::Completed,
                artifact: self.artifact.duplicate(),
            },
            TurnDisposition::WaitingForInput => SessionEventKind::Done {
                status: DoneStatus::WaitingForInput,
                artifact: self.artifact.duplicate(),
            },
            TurnDisposition::Cancelled => SessionEventKind::Done {
                status: DoneStatus::Cancelled,
                artifact: self.artifact.duplicate(),
            },
            TurnDisposition::Failed => match &self.terminal_error {
                Some(said) => SessionEventKind::Error {
                    code: said.code.clone(),
                    message: said.message.clone(),
                    retryable: said.retryable,
                },
                None => SessionEventKind::Error {
                    code: String::new(),
                    message: String::new(),
                    retryable: false,
                },
            },
        }
    }
}

/// What follows the recording of the user's message.
#[derive(Debug, PartialEq, Eq)]
pub enum StartStep {
    /// Bind the scopes and run the body.
    Bind,
    Resolved(ResolvedIntent),
}

/// What follows from the start of a turn.
pub open spec fn starts_as(
    appended: Result<(), SessionRuntimeError>,
    budget: Result<(), BudgetError>,
    cancelled: bool,
    step: StartStep,
) -> bool {
    match (appended, budget) {
        (Err(e), _) => step is Resolved && step->Resolved_0@ == IntentView::failed(
            DriveFailure::StartEnvelope(e),
            fields(
                "session_start_envelope"@,
                "failed to record the canonical turn start"@,
                false,
            ),
            Seq::empty(),
        ),
        (Ok(_), Err(e)) => step is Resolved && step->Resolved_0@ == IntentView::agent_failed(
            AgentError::Budget(e),
            Seq::empty(),
        ),
        (Ok(_), Ok(_)) => if cancelled {
            step is Resolved && step->Resolved_0@ == IntentView::cancelled(Seq::empty())
        } else {
            step is Bind
        },
    }
}

/// After the start envelope: a failed append, a stopped budget and a cancellation, in
/// that order, resolve the turn before any scope is bound.
pub fn after_start(
    appended: Result<(), SessionRuntimeError>,
    budget: Result<(), BudgetError>,
    cancelled: bool,
) -> (step: StartStep)
    ensures
        starts_as(appended, budget, cancelled, step),
        step is Resolved ==> step->Resolved_0@.wf(),
{
    match appended {
        Err(error) => StartStep::Resolved(ResolvedIntent::start_envelope_failed(error)),
        Ok(_) => match budget {
            Err(error) => StartStep::Resolved(
                ResolvedIntent::agent_failed(AgentError::Budget(error), String::new()),
            ),
            Ok(_) => if cancelled {
                StartStep::Resolved(ResolvedIntent::cancelled(String::new()))
            } else {
                StartStep::Bind
            },
        },
    }
}

/// How binding a scope went: the agent may not use it, no runtime was selected for it,
/// it was bound, or the runtime refused.
#[derive(Debug, PartialEq, Eq)]
pub enum Binding<E> {
    NotAllowed,
    NoRuntime,
    Bound,
    Refused(E),
}

/// Whether the tool scope is to be bound: only once the model scope is not in the way.
pub fn binds_tools(model: &Binding<ModelRuntimeError>, tools_allowed: bool) -> (answer: bool)
    ensures
        answer == (tools_allowed && (*model is NotAllowed || *model is Bound)),
{
    tools_allowed && match model {
        Binding::NotAllowed | Binding::Bound => true,
        Binding::NoRuntime | Binding::Refused(_) => false,
    }
}

/// What follows from the two bindings of a turn.
pub open spec fn binds_as(
    model: Binding<ModelRuntimeError>,
    tools: Binding<ToolRuntimeError>,
    resolved: Option<ResolvedIntent>,
) -> bool {
    match model {
        Binding::Refused(e) => resolved is Some && resolved->0@ == IntentView::agent_failed(
            AgentError::Model(ModelGatewayError::Runtime(e)),
            Seq::empty(),
        ),
        Binding::NoRuntime => {
            &&& resolved is Some
            &&& resolved->0@.drive_failure matches Some(
                DriveFailure::Agent(
                    AgentError::Model(
                        ModelGatewayError::Runtime(ModelRuntimeError::Internal { code, message }),
                    ),
                ),
            )
            &&& code@ == "model_runtime_missing"@
            &&& message@ == "model-enabled Agent has no selected LlmRuntime"@
            &&& resolved->0@ == IntentView::failed(
                resolved->0@.drive_failure->0,
                fields("model_runtime_internal"@, "model runtime internal failure"@, false),
                Seq::empty(),
            )
        },
        Binding::NotAllowed | Binding::Bound => match tools {
            Binding::Refused(e) => resolved is Some && resolved->0@ == if e is Cancelled {
                IntentView::cancelled(Seq::empty())
            } else {
                IntentView::agent_failed(AgentError::Tool(e), Seq::empty())
            },
            Binding::NoRuntime => {
                &&& resolved is Some
                &&& resolved->0@.drive_failure matches Some(
                    DriveFailure::Agent(
                        AgentError::Tool(ToolRuntimeError::Internal { code, message }),
                    ),
                )
                &&& code@ == "tool_runtime_missing"@
                &&& message@ == "tool-enabled Agent has no selected ToolRuntime"@
                &&& resolved->0@ == IntentView::failed(
                    resolved->0@.drive_failure->0,
                    fields("tool_runtime_internal"@, "Tool runtime internal failure"@, false),
                    Seq::empty(),
                )
            },
            Binding::NotAllowed | Binding::Bound => resolved is None,
        },
    }
}

/// The intent of a turn whose scopes could not be bound. The model scope comes first.
pub fn after_binding(model: Binding<ModelRuntimeError>, tools: Binding<ToolRuntimeError>) -> (resolved:
    Option<ResolvedIntent>)
    ensures
        binds_as(model, tools, resolved),
        resolved matches Some(intent) ==> intent@.wf(),
{
    match model {
        Binding::Refused(error) => {
            return Some(ResolvedIntent::model_runtime_failed(error, String::new()));
        },
        Binding::NoRuntime => {
            let error = ModelRuntimeError::Internal {
                code: "model_runtime_missing".to_owned(),
                message: "model-enabled Agent has no selected LlmRuntime".to_owned(),
            };
            return Some(ResolvedIntent::model_runtime_failed(error, String::new()));
        },
        Binding::NotAllowed | Binding::Bound => {},
    }
    match tools {
        Binding::Refused(error) => Some(ResolvedIntent::tool_failed(error, String::new())),
        Binding::NoRuntime => {
            let error = ToolRuntimeError::Internal {
                code: "tool_runtime_missing".to_owned(),
                message: "tool-enabled Agent has no selected ToolRuntime".to_owned(),
            };
            Some(ResolvedIntent::tool_failed(error, String::new()))
        },
        Binding::NotAllowed | Binding::Bound => None,
    }
}

/// How the agent's body ended.
#[derive(Debug, PartialEq, Eq)]
pub enum BodyEnd {
    /// Cancelled before or while it ran.
    Cancelled,
    BudgetStopped(BudgetError),
    Panicked,
    Finished(Result<AgentTurnOutput, AgentError>),
}

/// The intent that the end of a body resolves to.
pub open spec fn body_intent(end: BodyEnd, partial: Seq<char>) -> IntentView {
    match end {
        BodyEnd::Cancelled => IntentView::cancelled(partial),
        BodyEnd::BudgetStopped(e) => IntentView::agent_failed(AgentError::Budget(e), partial),
        BodyEnd::Panicked => IntentView::failed(
            DriveFailure::Panicked,
            fields("agent_panicked"@, "agent panicked"@, false),
            partial,
        ),
        BodyEnd::Finished(Err(e)) => if e.means_cancelled() {
            IntentView::cancelled(partial)
        } else {
            IntentView::agent_failed(e, partial)
        },
        BodyEnd::Finished(Ok(output)) => IntentView::output(output),
    }
}

/// The intent that the end of a body resolves to. `partial` is the text streamed so far.
pub fn run_agent_body(end: BodyEnd, partial: String) -> (intent: ResolvedIntent)
    ensures
        intent@ == body_intent(end, partial@),
        intent@.wf(),
{
    match end {
        BodyEnd::Cancelled => ResolvedIntent::cancelled(partial),
        BodyEnd::BudgetStopped(error) => ResolvedIntent::agent_failed(
            AgentError::Budget(error),
            partial,
        ),
        BodyEnd::Panicked => ResolvedIntent::panicked(partial),
        BodyEnd::Finished(Err(error)) => if error.is_cancelled() {
            ResolvedIntent::cancelled(partial)
        } else {
            ResolvedIntent::agent_failed(error, partial)
        },
        BodyEnd::Finished(Ok(output)) => ResolvedIntent::from_output(output),
    }
}

/// A stopped budget turns whatever came before into its failure.
pub open spec fn unless_stopped(intent: IntentView, budget: Result<(), BudgetError>) -> IntentView {
    match budget {
        Err(e) => IntentView::agent_failed(AgentError::Budget(e), intent.final_text),
        Ok(_) => intent,
    }
}

/// The intent once the body is over: text streamed so far stands in for output that
/// the agent did not give, and a cancellation or a stopped budget prevails.
pub open spec fn after_body_of(
    intent: IntentView,
    partial: Seq<char>,
    cancelled: bool,
    budget: Result<(), BudgetError>,
) -> IntentView {
    let texted = if intent.has_agent_output {
        intent
    } else {
        IntentView { final_text: partial, ..intent }
    };
    unless_stopped(texted.unless_cancelled(cancelled, partial), budget)
}

/// The intent once the body is over.
pub fn after_body(
    intent: ResolvedIntent,
    partial: &String,
    cancelled: bool,
    budget: Result<(), BudgetError>,
) -> (next: ResolvedIntent)
    requires
        intent@.wf(),
    ensures
        next@ == after_body_of(intent@, partial@, cancelled, budget),
        next@.wf(),
{
    let texted = if intent.has_agent_output {
        intent
    } else {
        ResolvedIntent { final_text: partial.clone(), ..intent }
    };
    let next = texted.unless_cancelled(cancelled, partial);
    match budget {
        Err(error) => ResolvedIntent::agent_failed(AgentError::Budget(error), next.final_text),
        Ok(_) => next,
    }
}

/// How the model scope is to finish: work in flight is awaited only for a success.
pub fn model_finish_mode(intent: &ResolvedIntent) -> (mode: ModelFinishMode)
    ensures
        mode == if intent@.is_successful() {
            ModelFinishMode::Graceful
        } else {
            ModelFinishMode::Cancel
        },
{
    if intent.successful() {
        ModelFinishMode::Graceful
    } else {
        ModelFinishMode::Cancel
    }
}

/// The intent once the model scope is drained.
pub fn after_model(intent: ResolvedIntent, partial: &String, cancelled: bool) -> (next: ResolvedIntent)
    requires
        intent@.wf(),
    ensures
        next@ == intent@.unless_cancelled(cancelled, partial@),
        next@.wf(),
{
    intent.unless_cancelled(cancelled, partial)
}

/// How the tool scope is to finish: as the model scope, and never gracefully after that
/// failed to close.
pub fn tool_finish_mode(intent: &ResolvedIntent, model_closed: bool) -> (mode: ToolFinishMode)
    ensures
        mode == if intent@.is_successful() && model_closed {
            ToolFinishMode::Graceful
        } else {
            ToolFinishMode::Cancel
        },
{
    if intent.successful() && model_closed {
        ToolFinishMode::Graceful
    } else {
        ToolFinishMode::Cancel
    }
}

/// A scope that did not close fails the turn, whatever it had come to.
pub open spec fn is_after_scopes(
    next: IntentView,
    intent: IntentView,
    model: Option<ModelTurnFailure>,
    tools: Option<ToolTurnFailure>,
) -> bool {
    if model is None && tools is None {
        next == intent
    } else {
        &&& next.drive_failure matches Some(DriveFailure::Agent(AgentError::CapabilityClosure(f)))
        &&& f.of_model() == model
        &&& f.of_tool() == tools
        &&& next == IntentView::agent_failed(AgentError::CapabilityClosure(f), intent.final_text)
    }
}

/// The intent once both scopes are drained.
pub fn after_tools(
    intent: ResolvedIntent,
    partial: &String,
    cancelled: bool,
    model: Option<ModelTurnFailure>,
    tools: Option<ToolTurnFailure>,
) -> (next: ResolvedIntent)
    requires
        intent@.wf(),
    ensures
        is_after_scopes(next@, intent@.unless_cancelled(cancelled, partial@), model, tools),
        next@.wf(),
{
    let next = intent.unless_cancelled(cancelled, partial);
    if model.is_none() && tools.is_none() {
        return next;
    }
    match CapabilityTurnFailure::new(model, tools) {
        Ok(failure) => ResolvedIntent::agent_failed(
            AgentError::CapabilityClosure(failure),
            next.final_text,
        ),
        Err(_) => next,
    }
}

/// A budget that stopped meanwhile fails a turn that had not failed yet.
pub fn before_cleanup(intent: ResolvedIntent, budget: Result<(), BudgetError>) -> (next: ResolvedIntent)
    requires
        intent@.wf(),
    ensures
        next@ == if intent@.disposition == TurnDisposition::Failed {
            intent@
        } else {
            unless_stopped(intent@, budget)
        },
        next@.wf(),
{
    match budget {
        Err(error) => match intent.disposition {
            TurnDisposition::Failed => intent,
            _ => ResolvedIntent::agent_failed(AgentError::Budget(error), intent.final_text),
        },
        Ok(_) => intent,
    }
}

/// The intent once the run's report was asked for: a refusal fails the turn.
pub fn after_report(intent: ResolvedIntent, prepared: Result<(), BudgetError>) -> (next: ResolvedIntent)
    requires
        intent@.wf(),
    ensures
        next@ == unless_stopped(intent@, prepared),
        next@.wf(),
{
    match prepared {
        Err(error) => ResolvedIntent::agent_failed(AgentError::Budget(error), intent.final_text),
        Ok(_) => intent,
    }
}

/// Why the run ended, as its report says it. A budget stop prevails.
pub open spec fn run_stop_of(report: ReportView, disposition: TurnDisposition, reason: CancelReason) -> TaskRunStop {
    let stop = if report.stop is Some {
        report.stop
    } else if report.run is Some {
        report.run->0.stop
    } else {
        None
    };
    match stop {
        Some(reason) => TaskRunStop::Budget(reason),
        None => match disposition {
            TurnDisposition::Completed => TaskRunStop::Completed,
            TurnDisposition::WaitingForInput => TaskRunStop::WaitingForInput,
            TurnDisposition::Cancelled => if reason == CancelReason::RuntimeStopping {
                TaskRunStop::RuntimeStopping
            } else {
                TaskRunStop::CallerCancelled
            },
            TurnDisposition::Failed => TaskRunStop::Failed,
        },
    }
}

/// The report of a run: its budget, why it ended, and whether everything it started
/// came to an end.
pub fn task_run_report(budget: BudgetReport, disposition: TurnDisposition, reason: CancelReason) -> (report:
    TaskRunReport)
    ensures
        report@ == (TaskRunReportView {
            version: TaskRunReportVersion::V1,
            budget: budget@,
            stop: run_stop_of(budget@, disposition, reason),
            capabilities_drained: budget@.pending.len() == 0,
        }),
{
    let stop: Option<BudgetStopReason> = match budget.stop {
        Some(reason) => Some(reason),
        None => match &budget.run {
            Some(run) => run.stop,
            None => None,
        },
    };
    let stop = match stop {
        Some(reason) => TaskRunStop::Budget(reason),
        None => match disposition {
            TurnDisposition::Completed => TaskRunStop::Completed,
            TurnDisposition::WaitingForInput => TaskRunStop::WaitingForInput,
            TurnDisposition::Cancelled => if reason == CancelReason::RuntimeStopping {
                TaskRunStop::RuntimeStopping
            } else {
                TaskRunStop::CallerCancelled
            },
            TurnDisposition::Failed => TaskRunStop::Failed,
        },
    };
    TaskRunReport {
        version: TaskRunReportVersion::V1,
        capabilities_drained: budget.pending.len() == 0,
        budget,
        stop,
    }
}

/// The event confirms that exactly this report was recorded for the turn.
pub open spec fn confirms_report(
    event: SessionEventView,
    session: Seq<char>,
    turn: Seq<char>,
    report: TaskRunReportView,
) -> bool {
    event.session_id == session && event.turn_id == turn && event.kind
        == (SessionEventKindView::TaskRunReport { report })
}

/// What became of the report. Without a matching lease nothing was appended, and
/// `appended` is `None`.
pub fn report_attempt(
    report: TaskRunReport,
    appended: Option<Result<SessionEvent, SessionRuntimeError>>,
    session_id: &SessionId,
    turn_id: &TurnId,
) -> (attempt: TaskRunReportAttempt)
    ensures
        match appended {
            None => attempt == (TaskRunReportAttempt::Rejected {
                report,
                error: BudgetError::IdentityMismatch,
            }),
            Some(Err(source)) => attempt == (TaskRunReportAttempt::Failed { report, source }),
            Some(Ok(event)) => attempt == if confirms_report(
                event@,
                session_id@,
                turn_id@,
                report@,
            ) {
                TaskRunReportAttempt::Committed { report, event }
            } else {
                TaskRunReportAttempt::Invalid { report, event }
            },
        },
{
    match appended {
        None => TaskRunReportAttempt::Rejected { report, error: BudgetError::IdentityMismatch },
        Some(Err(source)) => TaskRunReportAttempt::Failed { report, source },
        Some(Ok(event)) => {
            let same: bool = match &event.kind {
                SessionEventKind::TaskRunReport { report: recorded } => recorded.is_same(&report),
                _ => false,
            };
            if event.session_id.is_same(session_id) && event.turn_id.is_same(turn_id) && same {
                TaskRunReportAttempt::Committed { report, event }
            } else {
                TaskRunReportAttempt::Invalid { report, event }
            }
        },
    }
}

/// A turn whose report is not confirmed has failed, with what had failed before as the
/// cause of the cause.
pub open spec fn is_after_attempt(next: IntentView, intent: IntentView, committed: bool) -> bool {
    if committed {
        next == intent
    } else {
        &&& next.drive_failure matches Some(DriveFailure::BudgetReport { prior })
        &&& match prior {
            Some(cause) => intent.drive_failure == Some(*cause),
            None => intent.drive_failure is None,
        }
        &&& next == IntentView::failed(
            next.drive_failure->0,
            fields(
                "task_run_report_recording"@,
                "canonical task run report could not be confirmed"@,
                false,
            ),
            intent.final_text,
        )
    }
}

/// The intent once the report was attempted.
pub fn after_attempt(intent: ResolvedIntent, attempt: &TaskRunReportAttempt) -> (next: ResolvedIntent)
    requires
        intent@.wf(),
    ensures
        is_after_attempt(next@, intent@, *attempt is Committed),
        next@.wf(),
{
    match attempt {
        TaskRunReportAttempt::Committed { .. } => intent,
        _ => {
            let prior = match intent.drive_failure {
                Some(failure) => Some(Box::new(failure)),
                None => None,
            };
            ResolvedIntent::failed(
                DriveFailure::BudgetReport { prior },
                TerminalErrorFields::fixed(
                    "task_run_report_recording",
                    "canonical task run report could not be confirmed",
                    false,
                ),
                intent.final_text,
            )
        },
    }
}

/// The text streamed to the log, piece after piece.
pub open spec fn streamed(events: Seq<SessionEventView>) -> Seq<char>
    decreases events.len(),
{
    if events.len() == 0 {
        Seq::empty()
    } else {
        let before = streamed(events.drop_last());
        match events.last().kind {
            SessionEventKindView::AssistantDelta { text } => before + text,
            _ => before,
        }
    }
}

/// The text streamed to the log.
pub fn canonical_partial_text(events: &Vec<SessionEvent>) -> (text: String)
    ensures
        text@ == streamed(events.deep_view()),
{
    let ghost views = events.deep_view();
    let mut text = String::new();
    let mut i: usize = 0;
    assert(views.take(0) =~= Seq::empty());
    while i < events.len()
        invariant
            i <= events@.len(),
            views == events.deep_view(),
            text@ == streamed(views.take(i as int)),
        decreases events@.len() - i,
    {
        proof {
            assert(views[i as int] == events@[i as int]@);
            assert(views.take(i + 1).drop_last() =~= views.take(i as int));
            assert(views.take(i + 1).last() == views[i as int]);
        }
        match &events[i].kind {
            SessionEventKind::AssistantDelta { text: piece } => {
                text.push_str(piece.as_str());
            },
            _ => {},
        }
        i = i + 1;
    }
    assert(views.take(views.len() as int) =~= views);
    text
}

/// What settling the session gave: the turn it names and its events.
#[derive(Debug, PartialEq, Eq)]
pub struct TurnCommitSummary {
    pub turn_id: TurnId,
    pub events: Vec<SessionEvent>,
}

/// A turn under a durable claim closes only with its report and its terminal confirmed
/// as the last two events of the settled turn.
pub open spec fn durable_evidence(
    attempt: TaskRunReportAttempt,
    terminal: Result<SessionEvent, SessionRuntimeError>,
    settled: Result<TurnCommitSummary, SessionRuntimeError>,
    session: Seq<char>,
    turn: Seq<char>,
    kind: SessionEventKindView,
) -> bool {
    match (attempt, terminal, settled) {
        (TaskRunReportAttempt::Committed { report: _, event }, Ok(last), Ok(summary)) => {
            let events = summary.events.deep_view();
            &&& last@.session_id == session
            &&& last@.turn_id == turn
            &&& last@.kind == kind
            &&& summary.turn_id@ == turn
            &&& events.len() >= 2
            &&& events[events.len() - 1] == last@
            &&& events[events.len() - 2] == event@
        },
        _ => false,
    }
}

/// Whether the evidence of a durable turn is complete.
pub fn durable_evidence_holds(
    attempt: &TaskRunReportAttempt,
    terminal: &Result<SessionEvent, SessionRuntimeError>,
    settled: &Result<TurnCommitSummary, SessionRuntimeError>,
    session_id: &SessionId,
    turn_id: &TurnId,
    kind: &SessionEventKind,
) -> (answer: bool)
    ensures
        answer == durable_evidence(
            *attempt,
            *terminal,
            *settled,
            session_id@,
            turn_id@,
            kind@,
        ),
{
    match (attempt, terminal, settled) {
        (TaskRunReportAttempt::Committed { report: _, event }, Ok(last), Ok(summary)) => {
            let n: usize = summary.events.len();
            if n < 2 {
                return false;
            }
            assert(summary.events.deep_view()[n - 1] == summary.events@[n - 1]@);
            assert(summary.events.deep_view()[n - 2] == summary.events@[n - 2]@);
            last.session_id.is_same(session_id) && last.turn_id.is_same(turn_id)
                && last.kind.is_same(kind) && summary.turn_id.is_same(turn_id) && summary.events[n
                - 1].is_same(last) && summary.events[n - 2].is_same(event)
        },
        _ => false,
    }
}

/// The text a closed turn shows. What the log kept replaces what a failed turn, or a
/// cancelled one without output, had at hand.
pub open spec fn closing_text(intent: IntentView, settled: Result<TurnCommitSummary, SessionRuntimeError>) -> Seq<char> {
    match settled {
        Ok(summary) => if intent.disposition == TurnDisposition::Failed || (intent.disposition
            == TurnDisposition::Cancelled && !intent.has_agent_output) {
            streamed(summary.events.deep_view())
        } else {
            intent.final_text
        },
        Err(_) => intent.final_text,
    }
}

pub open spec fn as_terminal(terminal: Result<SessionEvent, SessionRuntimeError>) -> TerminalAttempt {
    match terminal {
        Ok(event) => TerminalAttempt::Committed(event),
        Err(error) => TerminalAttempt::Failed(error),
    }
}

/// The settlement attempt holds what came of settling.
pub open spec fn is_settlement(
    attempt: SettlementAttempt,
    settled: Result<TurnCommitSummary, SessionRuntimeError>,
) -> bool {
    match settled {
        Ok(summary) => attempt matches SettlementAttempt::Settled(events) && *events == summary.events,
        Err(error) => attempt == SettlementAttempt::Failed(error),
    }
}

/// The report shows what the turn came to.
pub open spec fn reports(
    report: AgentTurnReport,
    session: Seq<char>,
    turn: Seq<char>,
    intent: IntentView,
    text: Seq<char>,
    events: Seq<SessionEventView>,
    attempt: TaskRunReportAttempt,
) -> bool {
    &&& report.session_id@ == session
    &&& report.turn_id@ == turn
    &&& report.disposition == intent.disposition
    &&& report.final_text@ == text
    &&& report.artifact.deep_view() == intent.artifact
    &&& report.events.deep_view() == events
    &&& report.budget_checkpoint is None
    &&& match attempt {
        TaskRunReportAttempt::Committed { report: run, .. } => {
            &&& report.task_run_report matches Some(shown)
            &&& shown@ == run@
        },
        _ => report.task_run_report is None,
    }
}

/// How a driven turn ended.
pub enum ClosedTurn {
    Reported(AgentTurnReport),
    Failed(TurnFailure),
}

/// The turn closed as its evidence says.
pub open spec fn closes_as(
    closed: ClosedTurn,
    session: Seq<char>,
    turn: Seq<char>,
    intent: IntentView,
    attempt: TaskRunReportAttempt,
    terminal: Result<SessionEvent, SessionRuntimeError>,
    settled: Result<TurnCommitSummary, SessionRuntimeError>,
) -> bool {
    let text = closing_text(intent, settled);
    let both = terminal is Ok && settled is Ok;
    match closed {
        ClosedTurn::Reported(report) => {
            &&& both
            &&& intent.disposition != TurnDisposition::Failed
            &&& reports(
                report,
                session,
                turn,
                intent,
                text,
                settled->Ok_0.events.deep_view(),
                attempt,
            )
        },
        ClosedTurn::Failed(failure) => {
            &&& !(both && intent.disposition != TurnDisposition::Failed)
            &&& failure.context.session_id@ == session
            &&& failure.context.turn_id@ == turn
            &&& failure.context.disposition == intent.disposition
            &&& failure.context.final_text@ == text
            &&& failure.context.artifact.deep_view() == intent.artifact
            &&& failure.context.drive_failure == intent.drive_failure
            &&& failure.context.task_run_report_attempt == Some(attempt)
            &&& failure.terminal_attempt == as_terminal(terminal)
            &&& is_settlement(failure.settlement_attempt, settled)
            &&& match failure.context.report {
                Some(report) => both && reports(
                    report,
                    session,
                    turn,
                    intent,
                    text,
                    settled->Ok_0.events.deep_view(),
                    attempt,
                ),
                None => !both,
            }
        },
    }
}

/// How a turn is closed. Its report shares the settled events. Evidence that contradicts itself closes nothing, and the answer
/// says where.
pub open spec fn turn_closes(
    result: Result<ClosedTurn, InvalidTurnFailure>,
    session: Seq<char>,
    turn: Seq<char>,
    intent: IntentView,
    attempt: TaskRunReportAttempt,
    terminal: Result<SessionEvent, SessionRuntimeError>,
    settled: Result<TurnCommitSummary, SessionRuntimeError>,
) -> bool {
    match result {
        Ok(closed) => {
            &&& closes_as(closed, session, turn, intent, attempt, terminal, settled)
            &&& closed matches ClosedTurn::Failed(f) ==> failure_fault(
                f.context,
                f.terminal_attempt,
                f.settlement_attempt,
                true,
            ) is None
        },
        Err(fault) => exists|failure: TurnFailure|
            {
                &&& #[trigger] closes_as(
                    ClosedTurn::Failed(failure),
                    session,
                    turn,
                    intent,
                    attempt,
                    terminal,
                    settled,
                )
                &&& failure_fault(
                    failure.context,
                    failure.terminal_attempt,
                    failure.settlement_attempt,
                    true,
                ) == Some(fault)
            },
    }
}

/// Closes a turn: the report of a turn that ended well and closed, or else the failure
/// with everything that is known of it. Evidence that contradicts itself, as only a
/// broken session can produce it, is refused.
pub fn close_turn(
    session_id: SessionId,
    turn_id: TurnId,
    intent: ResolvedIntent,
    attempt: TaskRunReportAttempt,
    terminal: Result<SessionEvent, SessionRuntimeError>,
    settled: Result<TurnCommitSummary, SessionRuntimeError>,
) -> (result: Result<ClosedTurn, InvalidTurnFailure>)
    ensures
        turn_closes(result, session_id@, turn_id@, intent@, attempt, terminal, settled),
{
    let ghost before = intent@;
    let ghost came = settled;
    let logged: bool = match intent.disposition {
        TurnDisposition::Failed => true,
        TurnDisposition::Cancelled => !intent.has_agent_output,
        _ => false,
    };
    let final_text = match &settled {
        Ok(summary) => if logged {
            canonical_partial_text(&summary.events)
        } else {
            intent.final_text
        },
        Err(_) => intent.final_text,
    };
    let settlement = match settled {
        Ok(summary) => SettlementAttempt::Settled(Arc::new(summary.events)),
        Err(error) => SettlementAttempt::Failed(error),
    };
    let report = match (&terminal, &settlement) {
        (Ok(_), SettlementAttempt::Settled(events)) => {
            let report = AgentTurnReport::new(
                session_id.duplicate(),
                turn_id.duplicate(),
                intent.disposition,
                final_text.clone(),
                intent.artifact.duplicate(),
                shared(events),
            );
            let shown = match &attempt {
                TaskRunReportAttempt::Committed { report: run, .. } => report.with_task_run_report(
                    run.duplicate(),
                ),
                _ => report,
            };
            Some(shown)
        },
        _ => None,
    };
    if intent.disposition != TurnDisposition::Failed {
        if let Some(report) = report {
            return Ok(ClosedTurn::Reported(report));
        }
        return finish_failure(
            session_id,
            turn_id,
            intent.disposition,
            final_text,
            intent.artifact,
            None,
            intent.drive_failure,
            attempt,
            terminal,
            settlement,
            Ghost(before),
            Ghost(came),
        );
    }
    finish_failure(
        session_id,
        turn_id,
        intent.disposition,
        final_text,
        intent.artifact,
        report,
        intent.drive_failure,
        attempt,
        terminal,
        settlement,
        Ghost(before),
        Ghost(came),
    )
}

fn finish_failure(
    session_id: SessionId,
    turn_id: TurnId,
    disposition: TurnDisposition,
    final_text: String,
    artifact: Option<Json>,
    report: Option<AgentTurnReport>,
    drive_failure: Option<DriveFailure>,
    attempt: TaskRunReportAttempt,
    terminal: Result<SessionEvent, SessionRuntimeError>,
    settlement_attempt: SettlementAttempt,
    intent: Ghost<IntentView>,
    settled: Ghost<Result<TurnCommitSummary, SessionRuntimeError>>,
) -> (result: Result<ClosedTurn, InvalidTurnFailure>)
    requires
        is_settlement(settlement_attempt, settled@),
        disposition == intent@.disposition,
        final_text@ == closing_text(intent@, settled@),
        artifact.deep_view() == intent@.artifact,
        drive_failure == intent@.drive_failure,
        !(terminal is Ok && settled@ is Ok && disposition != TurnDisposition::Failed),
        match report {
            Some(r) => terminal is Ok && settled@ is Ok && reports(
                r,
                session_id@,
                turn_id@,
                intent@,
                final_text@,
                settled@->Ok_0.events.deep_view(),
                attempt,
            ),
            None => !(terminal is Ok && settled@ is Ok),
        },
    ensures
        match result {
            Ok(closed) => {
                &&& closed is Failed
                &&& closes_as(closed, session_id@, turn_id@, intent@, attempt, terminal, settled@)
                &&& closed matches ClosedTurn::Failed(f) ==> failure_fault(
                    f.context,
                    f.terminal_attempt,
                    f.settlement_attempt,
                    true,
                ) is None
            },
            Err(fault) => exists|failure: TurnFailure|
                {
                    &&& #[trigger] closes_as(
                        ClosedTurn::Failed(failure),
                        session_id@,
                        turn_id@,
                        intent@,
                        attempt,
                        terminal,
                        settled@,
                    )
                    &&& failure_fault(
                        failure.context,
                        failure.terminal_attempt,
                        failure.settlement_attempt,
                        true,
                    ) == Some(fault)
                },
        },
{
    let context = TurnFailureContext::new(
        session_id,
        turn_id,
        disposition,
        final_text,
        artifact,
        report,
        drive_failure,
    ).with_task_run_report_attempt(attempt);
    let terminal_attempt = match terminal {
        Ok(event) => TerminalAttempt::Committed(event),
        Err(error) => TerminalAttempt::Failed(error),
    };
    let ghost failure = TurnFailure { context, terminal_attempt, settlement_attempt };
    assert(closes_as(
        ClosedTurn::Failed(failure),
        session_id@,
        turn_id@,
        intent@,
        attempt,
        terminal,
        settled@,
    ));
    match TurnFailure::assess(context, terminal_attempt, settlement_attempt, true) {
        Ok(made) => {
            assert(made == failure);
            Ok(ClosedTurn::Failed(made))
        },
        Err(fault) => Err(fault),
    }
}

/// What hooks observe of a closed turn.
pub fn observe_closing(
    session_id: SessionId,
    turn_id: TurnId,
    disposition: TurnDisposition,
    terminal: &TerminalAttempt,
    settlement: &SettlementAttempt,
) -> (observation: TurnFinally)
    ensures
        observation == (TurnFinally {
            session_id,
            turn_id,
            disposition,
            closure: closure_of(*terminal, *settlement),
        }),
{
    TurnFinally { session_id, turn_id, disposition, closure: closure_status(terminal, settlement) }
}

/// The outcome that a closed turn is to its caller.
pub open spec fn outcome_of(closed: ClosedTurn) -> Result<AgentTurnReport, AgentRuntimeError> {
    match closed {
        ClosedTurn::Reported(report) => Ok(report),
        ClosedTurn::Failed(failure) => Err(AgentRuntimeError::Turn(Box::new(failure))),
    }
}

/// The outcome of a driven turn. Under a durable claim, evidence that is not complete
/// is reported with the outcome it came with.
pub fn turn_outcome(closed: ClosedTurn, durable: bool, evidence: bool) -> (outcome: Result<
    AgentTurnReport,
    AgentRuntimeError,
>)
    ensures
        outcome == if durable && !evidence {
            Err::<AgentTurnReport, AgentRuntimeError>(
                AgentRuntimeError::Durability {
                    source: BudgetExecutionError::IncompleteTurn,
                    outcome: Box::new(outcome_of(closed)),
                },
            )
        } else {
            outcome_of(closed)
        },
{
    let outcome = match closed {
        ClosedTurn::Reported(report) => Ok(report),
        ClosedTurn::Failed(failure) => Err(AgentRuntimeError::Turn(Box::new(failure))),
    };
    if durable && !evidence {
        Err(
            AgentRuntimeError::Durability {
                source: BudgetExecutionError::IncompleteTurn,
                outcome: Box::new(outcome),
            },
        )
    } else {
        outcome
    }
}

/// The report that a durable commit can rest on.
pub open spec fn committable(outcome: Result<AgentTurnReport, AgentRuntimeError>) -> Option<AgentTurnReport> {
    match outcome {
        Ok(report) => Some(report),
        Err(AgentRuntimeError::Turn(failure)) => failure.context.report,
        Err(_) => None,
    }
}

/// The report that a durable commit can rest on.
pub fn committable_report(outcome: &Result<AgentTurnReport, AgentRuntimeError>) -> (report: Option<
    &AgentTurnReport,
>)
    ensures
        match report {
            Some(r) => committable(*outcome) == Some(*r),
            None => committable(*outcome) is None,
        },
{
    match outcome {
        Ok(report) => Some(report),
        Err(AgentRuntimeError::Turn(failure)) => failure.context.report.as_ref(),
        Err(_) => None,
    }
}

/// The outcome once the durable claim was dealt with. `committed` is what replacing the
/// claim gave; `None` where there was no report to rest it on.
pub fn finalize_durable(
    outcome: Result<AgentTurnReport, AgentRuntimeError>,
    committed: Option<Result<BudgetCheckpoint, BudgetExecutionError>>,
) -> (result: Result<AgentTurnReport, AgentRuntimeError>)
    ensures
        result == match committed {
            None => match outcome {
                Err(AgentRuntimeError::Durability { .. }) => outcome,
                Err(AgentRuntimeError::RecoveryBoundary { .. }) => outcome,
                _ => Err::<AgentTurnReport, AgentRuntimeError>(
                    AgentRuntimeError::Durability {
                        source: BudgetExecutionError::IncompleteTurn,
                        outcome: Box::new(outcome),
                    },
                ),
            },
            Some(Ok(checkpoint)) => match outcome {
                Ok(report) => Ok::<AgentTurnReport, AgentRuntimeError>(
                    AgentTurnReport { budget_checkpoint: Some(checkpoint), ..report },
                ),
                Err(error) => Err::<AgentTurnReport, AgentRuntimeError>(error),
            },
            Some(Err(source)) => Err::<AgentTurnReport, AgentRuntimeError>(
                AgentRuntimeError::Durability { source, outcome: Box::new(outcome) },
            ),
        },
{
    match committed {
        None => match outcome {
            Err(AgentRuntimeError::Durability { source, outcome: kept }) => Err(
                AgentRuntimeError::Durability { source, outcome: kept },
            ),
            Err(AgentRuntimeError::RecoveryBoundary { source, settlement }) => Err(
                AgentRuntimeError::RecoveryBoundary { source, settlement },
            ),
            outcome => Err(
                AgentRuntimeError::Durability {
                    source: BudgetExecutionError::IncompleteTurn,
                    outcome: Box::new(outcome),
                },
            ),
        },
        Some(Ok(checkpoint)) => match outcome {
            Ok(report) => Ok(report.with_budget_checkpoint(checkpoint)),
            Err(error) => Err(error),
        },
        Some(Err(source)) => Err(
            AgentRuntimeError::Durability { source, outcome: Box::new(outcome) },
        ),
    }
}

/// The session answered the terminal append with the event it was asked for.
pub open spec fn honest_terminal(
    terminal: Result<SessionEvent, SessionRuntimeError>,
    session: Seq<char>,
    turn: Seq<char>,
    intent: IntentView,
) -> bool {
    terminal matches Ok(event) ==> event@.session_id == session && event@.turn_id == turn
        && event@.kind == intent.terminal_kind()
}

/// The session settled events of this turn only, with the appended terminal, and no
/// other, at their end.
pub open spec fn honest_settlement(
    terminal: Result<SessionEvent, SessionRuntimeError>,
    settled: Result<TurnCommitSummary, SessionRuntimeError>,
    session: Seq<char>,
    turn: Seq<char>,
) -> bool {
    settled matches Ok(summary) ==> {
        let events = summary.events.deep_view();
        &&& all_of_turn(events, session, turn)
        &&& match terminal {
            Ok(last) => ends_once_with(events, last@),
            Err(_) => no_terminal(events),
        }
    }
}

/// Whatever failed, a session that answers honestly leaves a turn that can be closed:
/// its evidence never contradicts itself.
pub proof fn honest_sessions_close(
    failure: TurnFailure,
    session: Seq<char>,
    turn: Seq<char>,
    intent: IntentView,
    attempt: TaskRunReportAttempt,
    terminal: Result<SessionEvent, SessionRuntimeError>,
    settled: Result<TurnCommitSummary, SessionRuntimeError>,
)
    requires
        intent.wf(),
        honest_terminal(terminal, session, turn, intent),
        honest_settlement(terminal, settled, session, turn),
        closes_as(
            ClosedTurn::Failed(failure),
            session,
            turn,
            intent,
            attempt,
            terminal,
            settled,
        ),
    ensures
        failure_fault(
            failure.context,
            failure.terminal_attempt,
            failure.settlement_attempt,
            true,
        ) is None,
{
}

/// The terminal event always says what the turn came to.
pub proof fn terminals_say_the_disposition(event: SessionEventView, intent: IntentView)
    requires
        intent.wf(),
        event.kind == intent.terminal_kind(),
    ensures
        terminal_matches(
            event,
            event.session_id,
            event.turn_id,
            intent.disposition,
            intent.artifact,
        ),
        event.is_terminal(),
{
}

/// A turn never ends well once a cancellation was seen, the budget stopped, a scope
/// failed to close or the report could not be confirmed, and a turn that has failed
/// stays failed.
pub proof fn failures_prevail(
    intent: IntentView,
    partial: Seq<char>,
    cancelled: bool,
    budget: Result<(), BudgetError>,
    drained: IntentView,
    model: Option<ModelTurnFailure>,
    tools: Option<ToolTurnFailure>,
    reported: IntentView,
    committed: bool,
)
    requires
        is_after_scopes(drained, intent.unless_cancelled(cancelled, partial), model, tools),
        is_after_attempt(reported, drained, committed),
    ensures
        after_body_of(intent, partial, cancelled, budget).is_successful() ==> !cancelled
            && budget is Ok && intent.is_successful(),
        intent.disposition == TurnDisposition::Failed ==> after_body_of(
            intent,
            partial,
            cancelled,
            budget,
        ).disposition == TurnDisposition::Failed,
        reported.is_successful() ==> !cancelled && model is None && tools is None && committed
            && intent.is_successful(),
        intent.disposition == TurnDisposition::Failed ==> reported.disposition
            == TurnDisposition::Failed,
{
}

/// A turn is reported as done only when its terminal was recorded, its session settled
/// and it did not fail; every other turn is a failure that keeps all its evidence.
pub proof fn only_closed_turns_are_reported(
    closed: ClosedTurn,
    session: Seq<char>,
    turn: Seq<char>,
    intent: IntentView,
    attempt: TaskRunReportAttempt,
    terminal: Result<SessionEvent, SessionRuntimeError>,
    settled: Result<TurnCommitSummary, SessionRuntimeError>,
)
    requires
        closes_as(closed, session, turn, intent, attempt, terminal, settled),
    ensures
        closed is Reported <==> terminal is Ok && settled is Ok && intent.disposition
            != TurnDisposition::Failed,
        committable(outcome_of(closed)) is Some <==> terminal is Ok && settled is Ok,
{
}

} // verus!
