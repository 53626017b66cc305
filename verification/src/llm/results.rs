//! What a controlled model call is recorded as, and what its caller hears.

use crate::agent::driver::retryable_status;
use crate::generation::{
    DecisionContext, GenerationLimits, GenerationPartial, GenerationPartialView, GenerationRequest,
    GenerationResponse, GenerationResponseView, ModelCallMode, ModelFailureCategory,
    ModelProtocolError, ModelRecordVersion,
};
use crate::id::ModelCallId;
use crate::llm::failure::{
    LlmError, ModelClosureFailure, ModelGatewayError, ModelRecordFailure, ModelRecordStage, ModelRuntimeError,
};
use crate::record::Record;
use crate::session::error::SessionRuntimeError;
use crate::session::model_record::{
    ModelRecordedOutcome, ModelRecordedOutcomeView, ModelRequest, ModelRequestOptions, ModelRequestOptionsView,
    ModelRequestView, ModelResult, ModelResultView, ModelTimeout,
};
use crate::text::same_text;
use crate::time::Duration;
use vstd::prelude::*;

verus! {

/// Why a job was stopped.
#[derive(Clone, Copy, Debug, PartialEq, Eq, Structural)]
pub enum ModelJobStopReason {
    Cancelled,
    QueueTimeout,
    Timeout,
    ConsumerDropped,
    Failed,
}

/// What a caller asks of one model call.
#[derive(Debug, PartialEq, Eq)]
pub struct GenerationOptions {
    pub context: Option<DecisionContext>,
    pub max_tokens: Option<u32>,
    pub timeout: Option<Duration>,
    pub limits: GenerationLimits,
}

/// The timeout of a call: its own, but no longer than the runtime's.
pub fn effective_timeout(call: Option<Duration>, runtime: Duration) -> (timeout: Duration)
    ensures
        timeout == match call {
            Some(call) => if runtime.length() < call.length() {
                runtime
            } else {
                call
            },
            None => runtime,
        },
{
    match call {
        Some(call) => call.min(runtime),
        None => runtime,
    }
}

/// Whether a request of so many serialized bytes, options included, may be accepted.
pub fn validate_request_size(request_bytes: u64, options_bytes: u64, limit_bytes: usize) -> (result: Result<
    (),
    ModelGatewayError,
>)
    ensures
        result == if request_bytes + options_bytes <= limit_bytes {
            Ok::<(), ModelGatewayError>(())
        } else {
            Err::<(), ModelGatewayError>(
                ModelGatewayError::Runtime(ModelRuntimeError::RequestTooLarge { limit_bytes }),
            )
        },
{
    let fits: bool = match request_bytes.checked_add(options_bytes) {
        Some(total) => total <= limit_bytes as u64,
        None => false,
    };
    if fits {
        Ok(())
    } else {
        Err(ModelGatewayError::Runtime(ModelRuntimeError::RequestTooLarge { limit_bytes }))
    }
}

/// The record of a call about to be made.
pub fn model_request(call_id: ModelCallId, mode: ModelCallMode, input: GenerationRequest, options: &GenerationOptions) -> (request:
    ModelRequest)
    ensures
        request@ == (ModelRequestView {
            version: ModelRecordVersion::V1,
            call_id: call_id@,
            mode,
            input: input@,
            options: ModelRequestOptionsView {
                context: options.context.deep_view(),
                max_tokens: options.max_tokens,
                timeout: request@.options.timeout,
                limits: options.limits,
            },
        }),
        match options.timeout {
            Some(timeout) => request@.options.timeout is Some
                && request@.options.timeout->0.spec_secs() == timeout.spec_secs()
                && request@.options.timeout->0.spec_nanos() == timeout.spec_nanos(),
            None => request@.options.timeout is None,
        },
{
    let timeout = match options.timeout {
        Some(timeout) => Some(ModelTimeout::from_duration(timeout)),
        None => None,
    };
    ModelRequest {
        version: ModelRecordVersion::V1,
        call_id,
        mode,
        input,
        options: ModelRequestOptions {
            context: options.context.duplicate(),
            max_tokens: options.max_tokens,
            timeout,
            limits: options.limits,
        },
    }
}

/// A failed call's record.
pub open spec fn failure(
    call: Seq<char>,
    category: ModelFailureCategory,
    code: Seq<char>,
    message: Seq<char>,
    retryable: bool,
    upstream_status: Option<u16>,
    partial: GenerationPartialView,
) -> ModelResultView {
    ModelResultView {
        version: ModelRecordVersion::V1,
        call_id: call,
        outcome: ModelRecordedOutcomeView::Failed {
            category,
            code,
            message,
            retryable,
            upstream_status,
            partial,
        },
    }
}

fn failure_result(
    request: &ModelRequest,
    category: ModelFailureCategory,
    code: &str,
    message: &str,
    retryable: bool,
    upstream_status: Option<u16>,
    partial: GenerationPartial,
) -> (result: ModelResult)
    ensures
        result@ == failure(
            request@.call_id,
            category,
            code@,
            message@,
            retryable,
            upstream_status,
            partial@,
        ),
{
    ModelResult {
        version: ModelRecordVersion::V1,
        call_id: request.call_id.duplicate(),
        outcome: ModelRecordedOutcome::Failed {
            category,
            code: code.to_owned(),
            message: message.to_owned(),
            retryable,
            upstream_status,
            partial,
        },
    }
}

/// Nothing had arrived.
pub open spec fn nothing() -> GenerationPartialView {
    GenerationPartialView { text: Seq::empty(), tool_calls: Seq::empty() }
}

fn no_partial() -> (partial: GenerationPartial)
    ensures
        partial@ == nothing(),
{
    let partial = GenerationPartial { text: String::new(), tool_calls: Vec::new() };
    assert(partial@.tool_calls =~= Seq::empty());
    partial
}

pub open spec fn success(call: Seq<char>, response: GenerationResponseView) -> ModelResultView {
    ModelResultView {
        version: ModelRecordVersion::V1,
        call_id: call,
        outcome: ModelRecordedOutcomeView::Succeeded { response },
    }
}

fn successful_result(request: &ModelRequest, response: &GenerationResponse) -> (result: ModelResult)
    ensures
        result@ == success(request@.call_id, response@),
{
    ModelResult {
        version: ModelRecordVersion::V1,
        call_id: request.call_id.duplicate(),
        outcome: ModelRecordedOutcome::Succeeded { response: response.duplicate() },
    }
}

/// How a failure of the model is recorded. Details of the provider stay out of it.
pub open spec fn model_failure(call: Seq<char>, error: LlmError, partial: GenerationPartialView) -> ModelResultView {
    match error {
        LlmError::Upstream { status, .. } => failure(
            call,
            ModelFailureCategory::Upstream,
            "model_upstream"@,
            "Model provider rejected the request"@,
            retryable_status(status),
            Some(status),
            partial,
        ),
        LlmError::Timeout => failure(
            call,
            ModelFailureCategory::Timeout,
            "model_timeout"@,
            "Model operation exceeded its deadline"@,
            true,
            None,
            partial,
        ),
        LlmError::StreamParse(_) => failure(
            call,
            ModelFailureCategory::StreamParse,
            "model_stream_parse"@,
            "Model stream could not be decoded"@,
            false,
            None,
            partial,
        ),
        LlmError::Protocol(_) => failure(
            call,
            ModelFailureCategory::Protocol,
            "model_protocol"@,
            "Model request or response violated its protocol"@,
            false,
            None,
            partial,
        ),
        LlmError::Cancelled => failure(
            call,
            ModelFailureCategory::Cancelled,
            "model_cancelled"@,
            "Model operation was cancelled"@,
            false,
            None,
            partial,
        ),
        LlmError::Adapter(_) => failure(
            call,
            ModelFailureCategory::Adapter,
            "model_adapter"@,
            "Model adapter failed"@,
            true,
            None,
            partial,
        ),
    }
}

pub fn failed_result(request: &ModelRequest, error: &LlmError, partial: GenerationPartial) -> (result: ModelResult)
    ensures
        result@ == model_failure(request@.call_id, *error, partial@),
{
    match error {
        LlmError::Upstream { status, .. } => failure_result(
            request,
            ModelFailureCategory::Upstream,
            "model_upstream",
            "Model provider rejected the request",
            *status == 408 || *status == 429 || *status >= 500,
            Some(*status),
            partial,
        ),
        LlmError::Timeout => failure_result(
            request,
            ModelFailureCategory::Timeout,
            "model_timeout",
            "Model operation exceeded its deadline",
            true,
            None,
            partial,
        ),
        LlmError::StreamParse(_) => failure_result(
            request,
            ModelFailureCategory::StreamParse,
            "model_stream_parse",
            "Model stream could not be decoded",
            false,
            None,
            partial,
        ),
        LlmError::Protocol(_) => failure_result(
            request,
            ModelFailureCategory::Protocol,
            "model_protocol",
            "Model request or response violated its protocol",
            false,
            None,
            partial,
        ),
        LlmError::Cancelled => failure_result(
            request,
            ModelFailureCategory::Cancelled,
            "model_cancelled",
            "Model operation was cancelled",
            false,
            None,
            partial,
        ),
        LlmError::Adapter(_) => failure_result(
            request,
            ModelFailureCategory::Adapter,
            "model_adapter",
            "Model adapter failed",
            true,
            None,
            partial,
        ),
    }
}

/// How a stream is recorded whose consumer went away.
pub open spec fn dropped(call: Seq<char>, partial: GenerationPartialView) -> ModelResultView {
    failure(
        call,
        ModelFailureCategory::Cancelled,
        "model_stream_consumer_dropped"@,
        "Model stream consumer dropped"@,
        false,
        None,
        partial,
    )
}

pub fn consumer_dropped_result(request: &ModelRequest, partial: GenerationPartial) -> (result: ModelResult)
    ensures
        result@ == dropped(request@.call_id, partial@),
{
    failure_result(
        request,
        ModelFailureCategory::Cancelled,
        "model_stream_consumer_dropped",
        "Model stream consumer dropped",
        false,
        None,
        partial,
    )
}

/// How a fault of the runtime itself is recorded.
pub open spec fn internal(
    call: Seq<char>,
    code: Seq<char>,
    message: Seq<char>,
    partial: GenerationPartialView,
) -> ModelResultView {
    failure(call, ModelFailureCategory::Internal, code, message, false, None, partial)
}

pub fn internal_result_with_partial(request: &ModelRequest, code: &str, message: &str, partial: GenerationPartial) -> (result:
    ModelResult)
    ensures
        result@ == internal(request@.call_id, code@, message@, partial@),
{
    failure_result(
        request,
        ModelFailureCategory::Internal,
        code,
        message,
        false,
        None,
        partial,
    )
}

/// How a job is recorded that was stopped before the provider was asked.
pub open spec fn stopped(call: Seq<char>, reason: ModelJobStopReason) -> ModelResultView {
    match reason {
        ModelJobStopReason::QueueTimeout => failure(
            call,
            ModelFailureCategory::Timeout,
            "model_queue_timeout"@,
            "Model operation exceeded its deadline while queued"@,
            true,
            None,
            nothing(),
        ),
        ModelJobStopReason::Timeout => model_failure(call, LlmError::Timeout, nothing()),
        ModelJobStopReason::Cancelled => model_failure(call, LlmError::Cancelled, nothing()),
        ModelJobStopReason::ConsumerDropped => dropped(call, nothing()),
        ModelJobStopReason::Failed => internal(
            call,
            "model_scheduler_state"@,
            "Model job lost its execution state"@,
            nothing(),
        ),
    }
}

/// What the caller of a stopped job hears.
pub open spec fn is_stop_error(error: ModelGatewayError, reason: ModelJobStopReason) -> bool {
    match reason {
        ModelJobStopReason::QueueTimeout => error == ModelGatewayError::Runtime(
            ModelRuntimeError::QueueTimeout,
        ),
        ModelJobStopReason::Timeout => error == ModelGatewayError::Model(LlmError::Timeout),
        ModelJobStopReason::Cancelled => error == ModelGatewayError::Model(LlmError::Cancelled),
        ModelJobStopReason::ConsumerDropped => error == ModelGatewayError::Model(
            LlmError::Cancelled,
        ),
        ModelJobStopReason::Failed => is_internal(
            error,
            "model_scheduler_state"@,
            "Model job lost its execution state"@,
        ),
    }
}

pub open spec fn is_internal(error: ModelGatewayError, code: Seq<char>, message: Seq<char>) -> bool {
    error matches ModelGatewayError::Internal { code: c, message: m } && c@ == code && m@ == message
}

pub fn stopped_result(request: &ModelRequest, reason: ModelJobStopReason) -> (ended: (
    ModelResult,
    ModelGatewayError,
))
    ensures
        ended.0@ == stopped(request@.call_id, reason),
        is_stop_error(ended.1, reason),
{
    match reason {
        ModelJobStopReason::QueueTimeout => (
            failure_result(
                request,
                ModelFailureCategory::Timeout,
                "model_queue_timeout",
                "Model operation exceeded its deadline while queued",
                true,
                None,
                no_partial(),
            ),
            ModelGatewayError::Runtime(ModelRuntimeError::QueueTimeout),
        ),
        ModelJobStopReason::Timeout => (
            failed_result(request, &LlmError::Timeout, no_partial()),
            ModelGatewayError::Model(LlmError::Timeout),
        ),
        ModelJobStopReason::Cancelled => (
            failed_result(request, &LlmError::Cancelled, no_partial()),
            ModelGatewayError::Model(LlmError::Cancelled),
        ),
        ModelJobStopReason::ConsumerDropped => (
            consumer_dropped_result(request, no_partial()),
            ModelGatewayError::Model(LlmError::Cancelled),
        ),
        ModelJobStopReason::Failed => (
            internal_result_with_partial(
                request,
                "model_scheduler_state",
                "Model job lost its execution state",
                no_partial(),
            ),
            ModelGatewayError::Internal {
                code: "model_scheduler_state".to_owned(),
                message: "Model job lost its execution state".to_owned(),
            },
        ),
    }
}

/// Why a job stopped, as its record shows it.
pub open spec fn stop_reason_of(outcome: ModelRecordedOutcomeView) -> Option<ModelJobStopReason> {
    match outcome {
        ModelRecordedOutcomeView::Succeeded { .. } => None,
        ModelRecordedOutcomeView::Failed { category, code, .. } => Some(
            if code == "model_queue_timeout"@ {
                ModelJobStopReason::QueueTimeout
            } else if code == "model_stream_consumer_dropped"@ {
                ModelJobStopReason::ConsumerDropped
            } else {
                match category {
                    ModelFailureCategory::Timeout => ModelJobStopReason::Timeout,
                    ModelFailureCategory::Cancelled => ModelJobStopReason::Cancelled,
                    _ => ModelJobStopReason::Failed,
                }
            },
        ),
    }
}

pub fn result_stop_reason(result: &ModelResult) -> (reason: Option<ModelJobStopReason>)
    ensures
        reason == stop_reason_of(result@.outcome),
{
    match &result.outcome {
        ModelRecordedOutcome::Succeeded { .. } => None,
        ModelRecordedOutcome::Failed { category, code, .. } => {
            if same_text(code.as_str(), "model_queue_timeout") {
                return Some(ModelJobStopReason::QueueTimeout);
            }
            if same_text(code.as_str(), "model_stream_consumer_dropped") {
                return Some(ModelJobStopReason::ConsumerDropped);
            }
            Some(
                match *category {
                    ModelFailureCategory::Timeout => ModelJobStopReason::Timeout,
                    ModelFailureCategory::Cancelled => ModelJobStopReason::Cancelled,
                    _ => ModelJobStopReason::Failed,
                },
            )
        },
    }
}

/// How a call that was let in came out.
#[derive(Debug, PartialEq, Eq)]
pub enum Resolution {
    Succeeded(GenerationResponse),
    ModelFailed { error: LlmError, partial: GenerationPartial },
    ConsumerDropped(GenerationPartial),
    Stopped(ModelJobStopReason),
    Internal { code: &'static str, message: &'static str, partial: GenerationPartial },
}

pub open spec fn is_panic(resolution: Resolution, message: Seq<char>, partial: GenerationPartialView) -> bool {
    resolution matches Resolution::Internal { code, message: m, partial: p } && code@
        == "model_runtime_panicked"@ && m@ == message && p@ == partial
}

fn panicked(message: &'static str, partial: GenerationPartial) -> (resolution: Resolution)
    ensures
        is_panic(resolution, message@, partial@),
{
    Resolution::Internal { code: "model_runtime_panicked", message, partial }
}

/// How the check before the provider is asked ended: it passed, refused, or panicked.
#[derive(Debug, PartialEq, Eq)]
pub enum Preflight {
    Passed,
    Refused(LlmError),
    Panicked,
}

/// A call that does not get past its check, or is stopped before the provider is asked.
pub fn resolve_preflight(preflight: Preflight, started: Result<(), ModelJobStopReason>) -> (resolution: Option<
    Resolution,
>)
    ensures
        match preflight {
            Preflight::Refused(error) => resolution matches Some(
                Resolution::ModelFailed { error: e, partial },
            ) && e == error && partial@ == nothing(),
            Preflight::Panicked => resolution is Some && is_panic(
                resolution->0,
                "Model runtime preflight panicked"@,
                nothing(),
            ),
            Preflight::Passed => match started {
                Err(stop) => resolution == Some(Resolution::Stopped(stop)),
                Ok(_) => resolution is None,
            },
        },
{
    match preflight {
        Preflight::Refused(error) => Some(
            Resolution::ModelFailed { error, partial: no_partial() },
        ),
        Preflight::Panicked => Some(panicked("Model runtime preflight panicked", no_partial())),
        Preflight::Passed => match started {
            Err(stop) => Some(Resolution::Stopped(stop)),
            Ok(_) => None,
        },
    }
}

/// How waiting for a complete answer ended.
#[derive(Debug, PartialEq, Eq)]
pub enum Answer {
    Cancelled,
    TimedOut,
    Panicked,
    Failed(LlmError),
    /// An answer, and whether it satisfies the request.
    Complete { response: GenerationResponse, checked: Result<(), LlmError> },
}

/// The resolution of a complete call.
pub fn resolve_complete(answer: Answer) -> (resolution: Resolution)
    ensures
        match answer {
            Answer::Cancelled => resolution matches Resolution::ModelFailed { error, partial }
                && error == LlmError::Cancelled && partial@ == nothing(),
            Answer::TimedOut => resolution matches Resolution::ModelFailed { error, partial }
                && error == LlmError::Timeout && partial@ == nothing(),
            Answer::Panicked => is_panic(
                resolution,
                "Model runtime operation panicked"@,
                nothing(),
            ),
            Answer::Failed(e) => resolution matches Resolution::ModelFailed { error, partial }
                && error == e && partial@ == nothing(),
            Answer::Complete { response, checked } => match checked {
                Ok(_) => resolution == Resolution::Succeeded(response),
                Err(e) => resolution matches Resolution::ModelFailed { error, partial } && error
                    == e && partial@ == nothing(),
            },
        },
{
    match answer {
        Answer::Cancelled => Resolution::ModelFailed {
            error: LlmError::Cancelled,
            partial: no_partial(),
        },
        Answer::TimedOut => Resolution::ModelFailed {
            error: LlmError::Timeout,
            partial: no_partial(),
        },
        Answer::Panicked => panicked("Model runtime operation panicked", no_partial()),
        Answer::Failed(error) => Resolution::ModelFailed { error, partial: no_partial() },
        Answer::Complete { response, checked } => match checked {
            Ok(_) => Resolution::Succeeded(response),
            Err(error) => Resolution::ModelFailed { error, partial: no_partial() },
        },
    }
}

/// What came next while a stream was read.
#[derive(Debug, PartialEq, Eq)]
pub enum StreamItem {
    Cancelled,
    TimedOut,
    ConsumerClosed,
    Panicked,
    Failed(LlmError),
    /// The stream ended without a final answer.
    Ended,
    /// The final answer: whether it agrees with what was streamed, and whether it
    /// satisfies the request.
    Finished {
        response: GenerationResponse,
        agrees: Result<(), ModelProtocolError>,
        checked: Result<(), LlmError>,
    },
    /// A piece, and whether it could be added to what had arrived.
    Delta { added: Result<(), ModelProtocolError> },
}

/// The failure with what had arrived.
pub open spec fn fails_with(resolution: Resolution, error: LlmError, partial: GenerationPartialView) -> bool {
    resolution matches Resolution::ModelFailed { error: e, partial: p } && e == error && p@
        == partial
}

/// What an item resolves a stream to; `None` while the piece is still to be passed on.
pub open spec fn item_resolves(item: StreamItem, partial: GenerationPartialView, resolution: Option<Resolution>) -> bool {
    match item {
        StreamItem::Cancelled => resolution is Some && fails_with(
            resolution->0,
            LlmError::Cancelled,
            partial,
        ),
        StreamItem::TimedOut => resolution is Some && fails_with(
            resolution->0,
            LlmError::Timeout,
            partial,
        ),
        StreamItem::ConsumerClosed => resolution matches Some(Resolution::ConsumerDropped(p)) && p@
            == partial,
        StreamItem::Panicked => resolution is Some && is_panic(
            resolution->0,
            "Model runtime operation panicked"@,
            partial,
        ),
        StreamItem::Failed(e) => resolution is Some && fails_with(resolution->0, e, partial),
        StreamItem::Ended => resolution is Some && fails_with(
            resolution->0,
            LlmError::Protocol(ModelProtocolError::MissingStreamTerminal),
            partial,
        ),
        StreamItem::Finished { response, agrees, checked } => match agrees {
            Err(e) => resolution is Some && fails_with(
                resolution->0,
                LlmError::Protocol(e),
                partial,
            ),
            Ok(_) => match checked {
                Err(e) => resolution is Some && fails_with(resolution->0, e, partial),
                Ok(_) => resolution == Some(Resolution::Succeeded(response)),
            },
        },
        StreamItem::Delta { added } => match added {
            Err(e) => resolution is Some && fails_with(
                resolution->0,
                LlmError::Protocol(e),
                partial,
            ),
            Ok(_) => resolution is None,
        },
    }
}

/// What an item resolves a stream to. `partial` is what had arrived.
pub fn resolve_stream(item: StreamItem, partial: &GenerationPartial) -> (resolution: Option<Resolution>)
    ensures
        item_resolves(item, partial@, resolution),
{
    let error = match item {
        StreamItem::Cancelled => LlmError::Cancelled,
        StreamItem::TimedOut => LlmError::Timeout,
        StreamItem::ConsumerClosed => {
            return Some(Resolution::ConsumerDropped(partial.duplicate()));
        },
        StreamItem::Panicked => {
            return Some(panicked("Model runtime operation panicked", partial.duplicate()));
        },
        StreamItem::Failed(error) => error,
        StreamItem::Ended => LlmError::Protocol(ModelProtocolError::MissingStreamTerminal),
        StreamItem::Finished { response, agrees, checked } => match agrees {
            Err(error) => LlmError::Protocol(error),
            Ok(_) => match checked {
                Err(error) => error,
                Ok(_) => {
                    return Some(Resolution::Succeeded(response));
                },
            },
        },
        StreamItem::Delta { added } => match added {
            Err(error) => LlmError::Protocol(error),
            Ok(_) => {
                return None;
            },
        },
    };
    Some(Resolution::ModelFailed { error, partial: partial.duplicate() })
}

/// How passing a piece on ended.
#[derive(Clone, Copy, Debug, PartialEq, Eq, Structural)]
pub enum Passing {
    Cancelled,
    TimedOut,
    ConsumerClosed,
    Passed,
}

/// What passing a piece on resolves a stream to; `None` where the stream goes on.
pub fn resolve_passing(passing: Passing, partial: &GenerationPartial) -> (resolution: Option<Resolution>)
    ensures
        match passing {
            Passing::Cancelled => resolution is Some && fails_with(
                resolution->0,
                LlmError::Cancelled,
                partial@,
            ),
            Passing::TimedOut => resolution is Some && fails_with(
                resolution->0,
                LlmError::Timeout,
                partial@,
            ),
            Passing::ConsumerClosed => resolution matches Some(Resolution::ConsumerDropped(p))
                && p@ == partial@,
            Passing::Passed => resolution is None,
        },
{
    match passing {
        Passing::Cancelled => Some(
            Resolution::ModelFailed { error: LlmError::Cancelled, partial: partial.duplicate() },
        ),
        Passing::TimedOut => Some(
            Resolution::ModelFailed { error: LlmError::Timeout, partial: partial.duplicate() },
        ),
        Passing::ConsumerClosed => Some(Resolution::ConsumerDropped(partial.duplicate())),
        Passing::Passed => None,
    }
}

/// How a resolution is recorded.
pub open spec fn recorded(call: Seq<char>, resolution: Resolution) -> ModelResultView {
    match resolution {
        Resolution::Succeeded(response) => success(call, response@),
        Resolution::ModelFailed { error, partial } => model_failure(call, error, partial@),
        Resolution::ConsumerDropped(partial) => dropped(call, partial@),
        Resolution::Stopped(reason) => stopped(call, reason),
        Resolution::Internal { code, message, partial } => internal(
            call,
            code@,
            message@,
            partial@,
        ),
    }
}

/// What the caller hears of a resolution, once its record is confirmed.
pub open spec fn is_heard(output: Result<GenerationResponse, ModelGatewayError>, resolution: Resolution) -> bool {
    match resolution {
        Resolution::Succeeded(response) => output == Ok::<GenerationResponse, ModelGatewayError>(
            response,
        ),
        Resolution::ModelFailed { error, .. } => output == Err::<
            GenerationResponse,
            ModelGatewayError,
        >(ModelGatewayError::Model(error)),
        Resolution::ConsumerDropped(_) => output == Err::<GenerationResponse, ModelGatewayError>(
            ModelGatewayError::Model(LlmError::Cancelled),
        ),
        Resolution::Stopped(reason) => output matches Err(e) && is_stop_error(e, reason),
        Resolution::Internal { code, message, .. } => output matches Err(e) && is_internal(
            e,
            code@,
            message@,
        ),
    }
}

/// The record of a call, and what its caller hears once that is confirmed.
pub fn conclude(request: &ModelRequest, resolution: Resolution) -> (ended: (
    ModelResult,
    Result<GenerationResponse, ModelGatewayError>,
))
    ensures
        ended.0@ == recorded(request@.call_id, resolution),
        is_heard(ended.1, resolution),
{
    match resolution {
        Resolution::Succeeded(response) => (
            successful_result(request, &response),
            Ok(response),
        ),
        Resolution::ModelFailed { error, partial } => (
            failed_result(request, &error, partial),
            Err(ModelGatewayError::Model(error)),
        ),
        Resolution::ConsumerDropped(partial) => (
            consumer_dropped_result(request, partial),
            Err(ModelGatewayError::Model(LlmError::Cancelled)),
        ),
        Resolution::Stopped(reason) => {
            let (result, error) = stopped_result(request, reason);
            (result, Err(error))
        },
        Resolution::Internal { code, message, partial } => (
            internal_result_with_partial(request, code, message, partial),
            Err(
                ModelGatewayError::Internal { code: code.to_owned(), message: message.to_owned() },
            ),
        ),
    }
}

/// How recording an event ended.
#[derive(Debug, PartialEq, Eq)]
pub enum Appended {
    Done,
    Refused(SessionRuntimeError),
    Panicked,
}

/// The failure holds what was to be recorded and why it was not.
pub open spec fn shows_failure(
    failure: ModelClosureFailure,
    request: ModelRequestView,
    result: Option<ModelResultView>,
    appended: Appended,
) -> bool {
    &&& failure.request@ == request
    &&& failure.result.deep_view() == result
    &&& failure.stage == if result is Some {
        ModelRecordStage::Result
    } else {
        ModelRecordStage::Request
    }
    &&& failure.source == match appended {
        Appended::Refused(source) => ModelRecordFailure::Session(source),
        _ => ModelRecordFailure::RecorderPanicked,
    }
}

/// A request that could not be recorded closes the call with its evidence.
pub fn append_request(request: &ModelRequest, appended: Appended) -> (result: Result<
    (),
    ModelGatewayError,
>)
    ensures
        match appended {
            Appended::Done => result is Ok,
            _ => result matches Err(ModelGatewayError::Recording(failure)) && shows_failure(
                *failure,
                request@,
                None,
                appended,
            ),
        },
{
    match appended {
        Appended::Done => Ok(()),
        Appended::Refused(source) => Err(
            ModelGatewayError::Recording(
                Box::new(ModelClosureFailure::request(request.duplicate(), source)),
            ),
        ),
        Appended::Panicked => Err(
            ModelGatewayError::Recording(
                Box::new(ModelClosureFailure::request_recorder_panicked(request.duplicate())),
            ),
        ),
    }
}

/// A result that could not be recorded closes the call with its evidence.
pub fn append_result(request: &ModelRequest, result: &ModelResult, appended: Appended) -> (outcome: Result<
    (),
    ModelGatewayError,
>)
    ensures
        match appended {
            Appended::Done => outcome is Ok,
            _ => outcome matches Err(ModelGatewayError::Recording(failure)) && shows_failure(
                *failure,
                request@,
                Some(result@),
                appended,
            ),
        },
{
    match appended {
        Appended::Done => Ok(()),
        Appended::Refused(source) => Err(
            ModelGatewayError::Recording(
                Box::new(
                    ModelClosureFailure::result(request.duplicate(), result.duplicate(), source),
                ),
            ),
        ),
        Appended::Panicked => Err(
            ModelGatewayError::Recording(
                Box::new(
                    ModelClosureFailure::result_recorder_panicked(
                        request.duplicate(),
                        result.duplicate(),
                    ),
                ),
            ),
        ),
    }
}

/// The caller hears of success exactly when success is what was recorded, and the record
/// always belongs to the call.
pub proof fn callers_hear_what_is_recorded(
    call: Seq<char>,
    resolution: Resolution,
    output: Result<GenerationResponse, ModelGatewayError>,
)
    requires
        is_heard(output, resolution),
    ensures
        recorded(call, resolution).call_id == call,
        output is Ok <==> recorded(call, resolution).outcome is Succeeded,
        output matches Ok(response) ==> recorded(call, resolution) == success(call, response@),
{
}

/// Why a job was stopped can be read off its record.
pub proof fn records_tell_the_stop(call: Seq<char>, reason: ModelJobStopReason)
    ensures
        stop_reason_of(stopped(call, reason).outcome) == Some(reason),
{
    reveal_strlit("model_queue_timeout");
    reveal_strlit("model_stream_consumer_dropped");
    reveal_strlit("model_timeout");
    reveal_strlit("model_cancelled");
    reveal_strlit("model_scheduler_state");
    assert("model_timeout"@.len() != "model_queue_timeout"@.len());
    assert("model_cancelled"@.len() != "model_queue_timeout"@.len());
    assert("model_scheduler_state"@.len() != "model_queue_timeout"@.len());
    assert("model_stream_consumer_dropped"@.len() != "model_queue_timeout"@.len());
    assert("model_timeout"@.len() != "model_stream_consumer_dropped"@.len());
    assert("model_cancelled"@.len() != "model_stream_consumer_dropped"@.len());
    assert("model_scheduler_state"@.len() != "model_stream_consumer_dropped"@.len());
}

} // verus!
