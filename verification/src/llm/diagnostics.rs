//! What may be shown of a model failure: kinds, numbers and codes, never the words of a
//! provider, a prompt or an answer.

use crate::budget::model::BudgetError;
use crate::generation::ModelFailureCategory;
use crate::id::ModelCallId;
use crate::llm::failure::{
    LlmError, ModelClosureFailure, ModelGatewayError, ModelOverloadKind, ModelRecordFailure,
    ModelRecordStage, ModelRuntimeError,
};
use crate::record::Record;
use crate::session::model_record::{ModelRecordedOutcome, ModelResult};
use vstd::prelude::*;

verus! {

/// What may be shown of a failure to close a call.
#[derive(Debug, PartialEq, Eq)]
pub struct ClosureDiagnostic {
    pub call_id: ModelCallId,
    pub stage: ModelRecordStage,
    pub result_status: Option<&'static str>,
    pub source: &'static str,
}

pub struct ClosureDiagnosticView {
    pub call_id: Seq<char>,
    pub stage: ModelRecordStage,
    pub result_status: Option<Seq<char>>,
    pub source: Seq<char>,
}

/// The one thing that goes with a kind.
#[derive(Debug, PartialEq, Eq)]
pub enum DiagnosticDetail {
    Nothing,
    Budget(BudgetError),
    Status(u16),
    Capacity(ModelOverloadKind),
    LimitBytes(usize),
    Code(String),
    Closure(ClosureDiagnostic),
}

pub enum DetailView {
    Nothing,
    Budget(BudgetError),
    Status(u16),
    Capacity(ModelOverloadKind),
    LimitBytes(usize),
    Code(Seq<char>),
    Closure(ClosureDiagnosticView),
}

/// What may be shown of a gateway's error.
#[derive(Debug, PartialEq, Eq)]
pub struct GatewayDiagnostic {
    pub kind: &'static str,
    pub detail: DiagnosticDetail,
}

pub struct DiagnosticView {
    pub kind: Seq<char>,
    pub detail: DetailView,
}

impl ClosureDiagnostic {
    pub open spec fn view(&self) -> ClosureDiagnosticView {
        ClosureDiagnosticView {
            call_id: self.call_id@,
            stage: self.stage,
            result_status: match self.result_status {
                Some(word) => Some(word@),
                None => None,
            },
            source: self.source@,
        }
    }
}

impl DiagnosticDetail {
    pub open spec fn view(&self) -> DetailView {
        match self {
            DiagnosticDetail::Nothing => DetailView::Nothing,
            DiagnosticDetail::Budget(error) => DetailView::Budget(*error),
            DiagnosticDetail::Status(status) => DetailView::Status(*status),
            DiagnosticDetail::Capacity(capacity) => DetailView::Capacity(*capacity),
            DiagnosticDetail::LimitBytes(limit) => DetailView::LimitBytes(*limit),
            DiagnosticDetail::Code(code) => DetailView::Code(code@),
            DiagnosticDetail::Closure(closure) => DetailView::Closure(closure@),
        }
    }
}

impl GatewayDiagnostic {
    pub open spec fn view(&self) -> DiagnosticView {
        DiagnosticView { kind: self.kind@, detail: self.detail@ }
    }
}

pub open spec fn category_word_of(category: ModelFailureCategory) -> Seq<char> {
    match category {
        ModelFailureCategory::Upstream => "failed_upstream"@,
        ModelFailureCategory::Timeout => "failed_timeout"@,
        ModelFailureCategory::StreamParse => "failed_stream_parse"@,
        ModelFailureCategory::Protocol => "failed_protocol"@,
        ModelFailureCategory::Cancelled => "failed_cancelled"@,
        ModelFailureCategory::Adapter => "failed_adapter"@,
        ModelFailureCategory::Internal => "failed_internal"@,
        ModelFailureCategory::Budget => "failed_budget"@,
    }
}

/// How a result ended, in one word.
pub open spec fn status_word_of(result: ModelResult) -> Seq<char> {
    match result.outcome {
        ModelRecordedOutcome::Succeeded { .. } => "succeeded"@,
        ModelRecordedOutcome::Failed { category, .. } => category_word_of(category),
    }
}

fn status_word(result: &ModelResult) -> (word: &'static str)
    ensures
        word@ == status_word_of(*result),
{
    match &result.outcome {
        ModelRecordedOutcome::Succeeded { .. } => "succeeded",
        ModelRecordedOutcome::Failed { category, .. } => match category {
            ModelFailureCategory::Upstream => "failed_upstream",
            ModelFailureCategory::Timeout => "failed_timeout",
            ModelFailureCategory::StreamParse => "failed_stream_parse",
            ModelFailureCategory::Protocol => "failed_protocol",
            ModelFailureCategory::Cancelled => "failed_cancelled",
            ModelFailureCategory::Adapter => "failed_adapter",
            ModelFailureCategory::Internal => "failed_internal",
            ModelFailureCategory::Budget => "failed_budget",
        },
    }
}

pub open spec fn source_word_of(source: ModelRecordFailure) -> Seq<char> {
    match source {
        ModelRecordFailure::Session(_) => "session"@,
        ModelRecordFailure::RecorderPanicked => "recorder_panicked"@,
        ModelRecordFailure::Budget(_) => "budget"@,
    }
}

pub open spec fn shown_closure(failure: ModelClosureFailure) -> ClosureDiagnosticView {
    ClosureDiagnosticView {
        call_id: failure.request.call_id@,
        stage: failure.stage,
        result_status: match failure.result {
            Some(result) => Some(status_word_of(result)),
            None => None,
        },
        source: source_word_of(failure.source),
    }
}

impl ModelClosureFailure {
    /// What may be shown of the failure.
    pub fn diagnostic(&self) -> (shown: ClosureDiagnostic)
        ensures
            shown@ == shown_closure(*self),
    {
        let result_status = match &self.result {
            Some(result) => Some(status_word(result)),
            None => None,
        };
        let source = match self.source {
            ModelRecordFailure::Session(_) => "session",
            ModelRecordFailure::RecorderPanicked => "recorder_panicked",
            ModelRecordFailure::Budget(_) => "budget",
        };
        ClosureDiagnostic {
            call_id: self.request.call_id.duplicate(),
            stage: self.stage,
            result_status,
            source,
        }
    }
}

pub open spec fn shown_model(error: LlmError) -> DiagnosticView {
    match error {
        LlmError::Upstream { status, .. } => DiagnosticView {
            kind: "model_upstream"@,
            detail: DetailView::Status(status),
        },
        LlmError::Timeout => DiagnosticView { kind: "model_timeout"@, detail: DetailView::Nothing },
        LlmError::StreamParse(_) => DiagnosticView {
            kind: "model_stream_parse"@,
            detail: DetailView::Nothing,
        },
        LlmError::Protocol(_) => DiagnosticView {
            kind: "model_protocol"@,
            detail: DetailView::Nothing,
        },
        LlmError::Cancelled => DiagnosticView {
            kind: "model_cancelled"@,
            detail: DetailView::Nothing,
        },
        LlmError::Adapter(_) => DiagnosticView {
            kind: "model_adapter"@,
            detail: DetailView::Nothing,
        },
    }
}

pub open spec fn shown_runtime(error: ModelRuntimeError) -> DiagnosticView {
    match error {
        ModelRuntimeError::Budget(error) => DiagnosticView {
            kind: "model_budget"@,
            detail: DetailView::Budget(error),
        },
        ModelRuntimeError::Stopped => DiagnosticView {
            kind: "model_runtime_stopped"@,
            detail: DetailView::Nothing,
        },
        ModelRuntimeError::TurnClosed => DiagnosticView {
            kind: "model_turn_closed"@,
            detail: DetailView::Nothing,
        },
        ModelRuntimeError::Overloaded { capacity } => DiagnosticView {
            kind: "model_overloaded"@,
            detail: DetailView::Capacity(capacity),
        },
        ModelRuntimeError::RequestTooLarge { limit_bytes } => DiagnosticView {
            kind: "model_request_too_large"@,
            detail: DetailView::LimitBytes(limit_bytes),
        },
        ModelRuntimeError::QueueTimeout => DiagnosticView {
            kind: "model_queue_timeout"@,
            detail: DetailView::Nothing,
        },
        ModelRuntimeError::InvalidTimeout => DiagnosticView {
            kind: "model_invalid_timeout"@,
            detail: DetailView::Nothing,
        },
        ModelRuntimeError::Internal { code, .. } => DiagnosticView {
            kind: "model_runtime_internal"@,
            detail: DetailView::Code(code@),
        },
    }
}

/// What may be shown of an error.
pub open spec fn shown(error: ModelGatewayError) -> DiagnosticView {
    match error {
        ModelGatewayError::Model(error) => shown_model(error),
        ModelGatewayError::Runtime(error) => shown_runtime(error),
        ModelGatewayError::SchemaRejected { .. } => DiagnosticView {
            kind: "model_schema_rejected"@,
            detail: DetailView::Nothing,
        },
        ModelGatewayError::Recording(failure) => DiagnosticView {
            kind: "model_recording"@,
            detail: DetailView::Closure(shown_closure(*failure)),
        },
        ModelGatewayError::Internal { code, .. } => DiagnosticView {
            kind: "model_runtime_internal"@,
            detail: DetailView::Code(code@),
        },
    }
}

fn bare(kind: &'static str) -> (diagnostic: GatewayDiagnostic)
    ensures
        diagnostic@ == (DiagnosticView { kind: kind@, detail: DetailView::Nothing }),
{
    GatewayDiagnostic { kind, detail: DiagnosticDetail::Nothing }
}

fn show_model(error: &LlmError) -> (diagnostic: GatewayDiagnostic)
    ensures
        diagnostic@ == shown_model(*error),
{
    match error {
        LlmError::Upstream { status, .. } => GatewayDiagnostic {
            kind: "model_upstream",
            detail: DiagnosticDetail::Status(*status),
        },
        LlmError::Timeout => bare("model_timeout"),
        LlmError::StreamParse(_) => bare("model_stream_parse"),
        LlmError::Protocol(_) => bare("model_protocol"),
        LlmError::Cancelled => bare("model_cancelled"),
        LlmError::Adapter(_) => bare("model_adapter"),
    }
}

fn show_runtime(error: &ModelRuntimeError) -> (diagnostic: GatewayDiagnostic)
    ensures
        diagnostic@ == shown_runtime(*error),
{
    match error {
        ModelRuntimeError::Budget(error) => GatewayDiagnostic {
            kind: "model_budget",
            detail: DiagnosticDetail::Budget(*error),
        },
        ModelRuntimeError::Stopped => bare("model_runtime_stopped"),
        ModelRuntimeError::TurnClosed => bare("model_turn_closed"),
        ModelRuntimeError::Overloaded { capacity } => GatewayDiagnostic {
            kind: "model_overloaded",
            detail: DiagnosticDetail::Capacity(*capacity),
        },
        ModelRuntimeError::RequestTooLarge { limit_bytes } => GatewayDiagnostic {
            kind: "model_request_too_large",
            detail: DiagnosticDetail::LimitBytes(*limit_bytes),
        },
        ModelRuntimeError::QueueTimeout => bare("model_queue_timeout"),
        ModelRuntimeError::InvalidTimeout => bare("model_invalid_timeout"),
        ModelRuntimeError::Internal { code, .. } => GatewayDiagnostic {
            kind: "model_runtime_internal",
            detail: DiagnosticDetail::Code(code.duplicate()),
        },
    }
}

impl ModelGatewayError {
    /// What may be shown of the error.
    pub fn diagnostic(&self) -> (diagnostic: GatewayDiagnostic)
        ensures
            diagnostic@ == shown(*self),
    {
        match self {
            ModelGatewayError::Model(error) => show_model(error),
            ModelGatewayError::Runtime(error) => show_runtime(error),
            ModelGatewayError::SchemaRejected { .. } => bare("model_schema_rejected"),
            ModelGatewayError::Recording(failure) => GatewayDiagnostic {
                kind: "model_recording",
                detail: DiagnosticDetail::Closure(failure.diagnostic()),
            },
            ModelGatewayError::Internal { code, .. } => GatewayDiagnostic {
                kind: "model_runtime_internal",
                detail: DiagnosticDetail::Code(code.duplicate()),
            },
        }
    }
}

/// Two errors that differ only in a provider's words, a message or what was asked and
/// answered are shown alike.
pub proof fn words_are_withheld(
    status: u16,
    code: String,
    first: String,
    second: String,
    failure: ModelClosureFailure,
    other: ModelClosureFailure,
)
    requires
        failure.request.call_id@ == other.request.call_id@,
        failure.stage == other.stage,
        source_word_of(failure.source) == source_word_of(other.source),
        failure.result is Some == other.result is Some,
        failure.result is Some ==> status_word_of(failure.result->0) == status_word_of(
            other.result->0,
        ),
    ensures
        shown_model(LlmError::Upstream { status, body: first }) == shown_model(
            LlmError::Upstream { status, body: second },
        ),
        shown_model(LlmError::StreamParse(first)) == shown_model(LlmError::StreamParse(second)),
        shown_model(LlmError::Adapter(first)) == shown_model(LlmError::Adapter(second)),
        shown_runtime(ModelRuntimeError::Internal { code, message: first }) == shown_runtime(
            ModelRuntimeError::Internal { code, message: second },
        ),
        shown(ModelGatewayError::Internal { code, message: first }) == shown(
            ModelGatewayError::Internal { code, message: second },
        ),
        shown(ModelGatewayError::Recording(Box::new(failure))) == shown(
            ModelGatewayError::Recording(Box::new(other)),
        ),
{
}

} // verus!
