//! The event log of a session: the one runtime truth.

use crate::budget::vocabulary::{TaskRunReport, TaskRunReportView};
use crate::id::{EventId, GenerationId, MessageId, SessionId, TurnId};
use crate::json::Json;
use crate::record::Record;
use crate::session::model_record::{ModelRequest, ModelRequestView, ModelResult, ModelResultView};
use crate::session::tool_record::{ToolCall, ToolCallView, ToolResult, ToolResultView};
use vstd::prelude::*;

verus! {

#[derive(Clone, Copy, Debug, PartialEq, Eq, Structural)]
pub enum StageStatus {
    Started,
    Completed,
    Failed,
}

impl DeepView for StageStatus {
    type V = StageStatus;

    open spec fn deep_view(&self) -> StageStatus {
        *self
    }
}

impl Record for StageStatus {
    fn is_same(&self, other: &Self) -> (answer: bool) {
        *self == *other
    }

    fn duplicate(&self) -> (copy: Self) {
        *self
    }
}

/// How a turn ended.
#[derive(Clone, Copy, Debug, PartialEq, Eq, Structural)]
pub enum DoneStatus {
    Completed,
    /// The turn goes on once the user has answered.
    WaitingForInput,
    Cancelled,
}

impl DeepView for DoneStatus {
    type V = DoneStatus;

    open spec fn deep_view(&self) -> DoneStatus {
        *self
    }
}

impl Record for DoneStatus {
    fn is_same(&self, other: &Self) -> (answer: bool) {
        *self == *other
    }

    fn duplicate(&self) -> (copy: Self) {
        *self
    }
}

/// What an event says.
#[allow(inconsistent_fields)]
#[derive(Debug, PartialEq, Eq)]
pub enum SessionEventKind {
    UserMessage { text: String },
    AssistantDelta { text: String },
    /// A complete reply, as opposed to the pieces it was streamed in.
    AssistantMessage { text: String },
    ModelRequest { request: ModelRequest },
    ModelResult { result: ModelResult },
    ToolCall { call: ToolCall },
    ToolResult { result: ToolResult },
    StageProgress { stage: String, status: StageStatus, message: Option<String> },
    Mode { mode: String, decided_by: String, reason: String },
    PlanReady { plan: Json },
    TaskRunReport { report: TaskRunReport },
    Done { status: DoneStatus, artifact: Option<Json> },
    Error { code: String, message: String, retryable: bool },
    /// The channel for events of a plugin's own.
    Custom { plugin: String, kind: String, payload: Json },
}

#[allow(inconsistent_fields)]
pub enum SessionEventKindView {
    UserMessage { text: Seq<char> },
    AssistantDelta { text: Seq<char> },
    AssistantMessage { text: Seq<char> },
    ModelRequest { request: ModelRequestView },
    ModelResult { result: ModelResultView },
    ToolCall { call: ToolCallView },
    ToolResult { result: ToolResultView },
    StageProgress { stage: Seq<char>, status: StageStatus, message: Option<Seq<char>> },
    Mode { mode: Seq<char>, decided_by: Seq<char>, reason: Seq<char> },
    PlanReady { plan: Seq<char> },
    TaskRunReport { report: TaskRunReportView },
    Done { status: DoneStatus, artifact: Option<Seq<char>> },
    Error { code: Seq<char>, message: Seq<char>, retryable: bool },
    Custom { plugin: Seq<char>, kind: Seq<char>, payload: Seq<char> },
}

impl SessionEventKind {
    pub open spec fn view(&self) -> SessionEventKindView {
        match self {
            SessionEventKind::UserMessage { text } => SessionEventKindView::UserMessage {
                text: text@,
            },
            SessionEventKind::AssistantDelta { text } => SessionEventKindView::AssistantDelta {
                text: text@,
            },
            SessionEventKind::AssistantMessage { text } => SessionEventKindView::AssistantMessage {
                text: text@,
            },
            SessionEventKind::ModelRequest { request } => SessionEventKindView::ModelRequest {
                request: request.deep_view(),
            },
            SessionEventKind::ModelResult { result } => SessionEventKindView::ModelResult {
                result: result.deep_view(),
            },
            SessionEventKind::ToolCall { call } => SessionEventKindView::ToolCall {
                call: call.deep_view(),
            },
            SessionEventKind::ToolResult { result } => SessionEventKindView::ToolResult {
                result: result.deep_view(),
            },
            SessionEventKind::StageProgress { stage, status, message } => SessionEventKindView::StageProgress {
                stage: stage@,
                status: *status,
                message: message.deep_view(),
            },
            SessionEventKind::Mode { mode, decided_by, reason } => SessionEventKindView::Mode {
                mode: mode@,
                decided_by: decided_by@,
                reason: reason@,
            },
            SessionEventKind::PlanReady { plan } => SessionEventKindView::PlanReady {
                plan: plan@,
            },
            SessionEventKind::TaskRunReport { report } => SessionEventKindView::TaskRunReport {
                report: report.deep_view(),
            },
            SessionEventKind::Done { status, artifact } => SessionEventKindView::Done {
                status: *status,
                artifact: artifact.deep_view(),
            },
            SessionEventKind::Error { code, message, retryable } => SessionEventKindView::Error {
                code: code@,
                message: message@,
                retryable: *retryable,
            },
            SessionEventKind::Custom { plugin, kind, payload } => SessionEventKindView::Custom {
                plugin: plugin@,
                kind: kind@,
                payload: payload@,
            },
        }
    }
}

impl DeepView for SessionEventKind {
    type V = SessionEventKindView;

    open spec fn deep_view(&self) -> SessionEventKindView {
        self@
    }
}

impl Record for SessionEventKind {
    fn is_same(&self, other: &Self) -> (answer: bool) {
        match (self, other) {
            (SessionEventKind::UserMessage { text }, SessionEventKind::UserMessage { text: other_text }) => text.is_same(other_text),
            (SessionEventKind::AssistantDelta { text }, SessionEventKind::AssistantDelta { text: other_text }) => text.is_same(other_text),
            (SessionEventKind::AssistantMessage { text }, SessionEventKind::AssistantMessage { text: other_text }) => text.is_same(other_text),
            (SessionEventKind::ModelRequest { request }, SessionEventKind::ModelRequest { request: other_request }) => request.is_same(other_request),
            (SessionEventKind::ModelResult { result }, SessionEventKind::ModelResult { result: other_result }) => result.is_same(other_result),
            (SessionEventKind::ToolCall { call }, SessionEventKind::ToolCall { call: other_call }) => call.is_same(other_call),
            (SessionEventKind::ToolResult { result }, SessionEventKind::ToolResult { result: other_result }) => result.is_same(other_result),
            (SessionEventKind::StageProgress { stage, status, message }, SessionEventKind::StageProgress { stage: other_stage, status: other_status, message: other_message }) => stage.is_same(other_stage) && *status == *other_status && message.is_same(other_message),
            (SessionEventKind::Mode { mode, decided_by, reason }, SessionEventKind::Mode { mode: other_mode, decided_by: other_decided_by, reason: other_reason }) => mode.is_same(other_mode) && decided_by.is_same(other_decided_by) && reason.is_same(other_reason),
            (SessionEventKind::PlanReady { plan }, SessionEventKind::PlanReady { plan: other_plan }) => plan.is_same(other_plan),
            (SessionEventKind::TaskRunReport { report }, SessionEventKind::TaskRunReport { report: other_report }) => report.is_same(other_report),
            (SessionEventKind::Done { status, artifact }, SessionEventKind::Done { status: other_status, artifact: other_artifact }) => *status == *other_status && artifact.is_same(other_artifact),
            (SessionEventKind::Error { code, message, retryable }, SessionEventKind::Error { code: other_code, message: other_message, retryable: other_retryable }) => code.is_same(other_code) && message.is_same(other_message) && *retryable == *other_retryable,
            (SessionEventKind::Custom { plugin, kind, payload }, SessionEventKind::Custom { plugin: other_plugin, kind: other_kind, payload: other_payload }) => plugin.is_same(other_plugin) && kind.is_same(other_kind) && payload.is_same(other_payload),
            _ => false,
        }
    }

    fn duplicate(&self) -> (copy: Self) {
        match self {
            SessionEventKind::UserMessage { text } => SessionEventKind::UserMessage {
                text: text.duplicate(),
            },
            SessionEventKind::AssistantDelta { text } => SessionEventKind::AssistantDelta {
                text: text.duplicate(),
            },
            SessionEventKind::AssistantMessage { text } => SessionEventKind::AssistantMessage {
                text: text.duplicate(),
            },
            SessionEventKind::ModelRequest { request } => SessionEventKind::ModelRequest {
                request: request.duplicate(),
            },
            SessionEventKind::ModelResult { result } => SessionEventKind::ModelResult {
                result: result.duplicate(),
            },
            SessionEventKind::ToolCall { call } => SessionEventKind::ToolCall {
                call: call.duplicate(),
            },
            SessionEventKind::ToolResult { result } => SessionEventKind::ToolResult {
                result: result.duplicate(),
            },
            SessionEventKind::StageProgress { stage, status, message } => SessionEventKind::StageProgress {
                stage: stage.duplicate(),
                status: *status,
                message: message.duplicate(),
            },
            SessionEventKind::Mode { mode, decided_by, reason } => SessionEventKind::Mode {
                mode: mode.duplicate(),
                decided_by: decided_by.duplicate(),
                reason: reason.duplicate(),
            },
            SessionEventKind::PlanReady { plan } => SessionEventKind::PlanReady {
                plan: plan.duplicate(),
            },
            SessionEventKind::TaskRunReport { report } => SessionEventKind::TaskRunReport {
                report: report.duplicate(),
            },
            SessionEventKind::Done { status, artifact } => SessionEventKind::Done {
                status: *status,
                artifact: artifact.duplicate(),
            },
            SessionEventKind::Error { code, message, retryable } => SessionEventKind::Error {
                code: code.duplicate(),
                message: message.duplicate(),
                retryable: *retryable,
            },
            SessionEventKind::Custom { plugin, kind, payload } => SessionEventKind::Custom {
                plugin: plugin.duplicate(),
                kind: kind.duplicate(),
                payload: payload.duplicate(),
            },
        }
    }
}

/// One event of a session.
#[derive(Debug, PartialEq, Eq)]
pub struct SessionEvent {
    /// Key under which a repeated event is recognised.
    pub event_id: EventId,
    pub session_id: SessionId,
    pub turn_id: TurnId,
    pub generation_id: Option<GenerationId>,
    pub message_id: Option<MessageId>,
    /// Zero-based physical index in the event log of the session.
    pub seq: u64,
    pub kind: SessionEventKind,
}

pub struct SessionEventView {
    pub event_id: Seq<char>,
    pub session_id: Seq<char>,
    pub turn_id: Seq<char>,
    pub generation_id: Option<Seq<char>>,
    pub message_id: Option<Seq<char>>,
    pub seq: u64,
    pub kind: SessionEventKindView,
}

impl SessionEvent {
    pub open spec fn view(&self) -> SessionEventView {
        SessionEventView {
            event_id: self.event_id@,
            session_id: self.session_id@,
            turn_id: self.turn_id@,
            generation_id: self.generation_id.deep_view(),
            message_id: self.message_id.deep_view(),
            seq: self.seq,
            kind: self.kind.deep_view(),
        }
    }
}

impl DeepView for SessionEvent {
    type V = SessionEventView;

    open spec fn deep_view(&self) -> SessionEventView {
        self@
    }
}

impl Record for SessionEvent {
    fn is_same(&self, other: &Self) -> (answer: bool) {
        self.event_id.is_same(&other.event_id)
            && self.session_id.is_same(&other.session_id)
            && self.turn_id.is_same(&other.turn_id)
            && self.generation_id.is_same(&other.generation_id)
            && self.message_id.is_same(&other.message_id)
            && self.seq == other.seq
            && self.kind.is_same(&other.kind)
    }

    fn duplicate(&self) -> (copy: Self) {
        SessionEvent {
            event_id: self.event_id.duplicate(),
            session_id: self.session_id.duplicate(),
            turn_id: self.turn_id.duplicate(),
            generation_id: self.generation_id.duplicate(),
            message_id: self.message_id.duplicate(),
            seq: self.seq,
            kind: self.kind.duplicate(),
        }
    }
}

} // verus!
