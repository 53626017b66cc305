//! The way into the model runtime: its settings and the start of a call.

use crate::generation::{GenerationRequest, GenerationRequestView, ModelCallMode};
use crate::id::ModelCallId;
use crate::json::{decimal, decimal_text};
use crate::llm::failure::{ModelGatewayError, ModelRuntimeError};
use crate::llm::results::{effective_timeout, model_request, validate_request_size, GenerationOptions};
use crate::llm::scheduler::{
    entry_fault, has_deadline, is_entry_error, Admission, ModelSchedulerConfig, RuntimeControl, TurnControl,
};
use crate::record::Record;
use crate::session::model_record::{ModelRequest, ModelRequestView};
use crate::time::Duration;
use vstd::prelude::*;

verus! {

/// The settings of a model runtime.
#[derive(Clone, Copy, Debug, PartialEq, Eq, Structural)]
pub struct CanonicalLlmRuntimePlugin {
    pub default_timeout: Duration,
    pub scheduler: ModelSchedulerConfig,
}

impl CanonicalLlmRuntimePlugin {
    /// Ten minutes for a call, and the usual limits.
    pub fn new() -> (plugin: Self)
        ensures
            plugin.default_timeout.length() == 600_000_000_000,
            plugin.scheduler == (ModelSchedulerConfig {
                max_concurrency: 4,
                max_queued: 32,
                max_inflight: 64,
                max_request_bytes: 8_388_608,
            }),
    {
        CanonicalLlmRuntimePlugin {
            default_timeout: Duration::from_secs(600),
            scheduler: ModelSchedulerConfig::new(),
        }
    }

    pub fn with_default_timeout(self, timeout: Duration) -> (plugin: Self)
        ensures
            plugin == (CanonicalLlmRuntimePlugin { default_timeout: timeout, ..self }),
    {
        CanonicalLlmRuntimePlugin { default_timeout: timeout, ..self }
    }

    pub fn with_scheduler_config(self, config: ModelSchedulerConfig) -> (plugin: Self)
        ensures
            plugin == (CanonicalLlmRuntimePlugin { scheduler: config, ..self }),
    {
        CanonicalLlmRuntimePlugin { scheduler: config, ..self }
    }

    /// The state of a runtime with these settings. The host says whether its clock
    /// reaches as far as the timeout.
    pub fn construct(&self, timeout_in_range: bool) -> (result: Result<RuntimeControl, &'static str>)
        ensures
            if !timeout_in_range {
                result == Err::<RuntimeControl, &'static str>(
                    "canonical LlmRuntime default timeout exceeds the executor clock range",
                )
            } else if !self.scheduler.is_workable() {
                result == Err::<RuntimeControl, &'static str>(
                    "model scheduler requires positive concurrency and request bytes, and max_inflight >= max_concurrency",
                )
            } else {
                result matches Ok(control) && control.wf() && control@.config == self.scheduler
                    && control@.jobs.len() == 0 && control@.lifecycle is Constructed
            },
    {
        if !timeout_in_range {
            return Err("canonical LlmRuntime default timeout exceeds the executor clock range");
        }
        if !self.scheduler.validate() {
            return Err(
                "model scheduler requires positive concurrency and request bytes, and max_inflight >= max_concurrency",
            );
        }
        Ok(RuntimeControl::new(self.scheduler))
    }
}

impl Default for CanonicalLlmRuntimePlugin {
    fn default() -> (plugin: Self)
        ensures
            plugin.default_timeout.length() == 600_000_000_000,
            plugin.scheduler.max_concurrency == 4,
            plugin.scheduler.max_queued == 32,
            plugin.scheduler.max_inflight == 64,
            plugin.scheduler.max_request_bytes == 8_388_608,
    {
        Self::new()
    }
}

/// The timeout of a call under a runtime's own.
pub open spec fn tighter(call: Option<Duration>, runtime: Duration) -> Duration {
    match call {
        Some(call) => if runtime.length() < call.length() {
            runtime
        } else {
            call
        },
        None => runtime,
    }
}

/// The request says what was asked, under the timeout that holds.
pub open spec fn is_request_of(
    request: ModelRequestView,
    call_id: Seq<char>,
    mode: ModelCallMode,
    input: GenerationRequestView,
    options: GenerationOptions,
    timeout: Duration,
) -> bool {
    &&& request.call_id == call_id
    &&& request.mode == mode
    &&& request.input == input
    &&& request.options.context == options.context.deep_view()
    &&& request.options.max_tokens == options.max_tokens
    &&& request.options.limits == options.limits
    &&& request.options.timeout is Some
    &&& request.options.timeout->0.spec_secs() == timeout.spec_secs()
    &&& request.options.timeout->0.spec_nanos() == timeout.spec_nanos()
}

/// Starts a call: checks its size, lets it in and gives the request to be recorded. The
/// host measures request and options, makes the identity up, and tells whether its clock
/// reaches the deadline, which is the tighter timeout counted from `now`.
pub fn begin_call(
    control: &mut RuntimeControl,
    turn: &mut TurnControl,
    call_id: ModelCallId,
    mode: ModelCallMode,
    input: GenerationRequest,
    options: GenerationOptions,
    default_timeout: Duration,
    request_bytes: u64,
    options_bytes: u64,
    now: Duration,
    in_range: bool,
) -> (result: Result<(Admission, ModelRequest), ModelGatewayError>)
    requires
        old(control).wf(),
        old(turn).wf(),
    ensures
        final(control).wf(),
        final(turn).wf(),
        final(control).next_turn_id == old(control).next_turn_id,
        final(control).unacknowledged@ == old(control).unacknowledged@,
        final(turn).open == old(turn).open,
        final(turn).kept() == old(turn).kept(),
        final(turn).left_out() == old(turn).left_out(),
        result is Err ==> final(control)@ == old(control)@ && final(turn).jobs@ == old(turn).jobs@,
        ({
            let v = old(control)@;
            let timeout = tighter(options.timeout, default_timeout);
            if request_bytes + options_bytes > v.config.max_request_bytes {
                result == Err::<(Admission, ModelRequest), ModelGatewayError>(
                    ModelGatewayError::Runtime(
                        ModelRuntimeError::RequestTooLarge {
                            limit_bytes: v.config.max_request_bytes,
                        },
                    ),
                )
            } else if let Some(fault) = entry_fault(
                v,
                old(turn).open,
                has_deadline(now, timeout, in_range),
            ) {
                result matches Err(ModelGatewayError::Runtime(e)) && is_entry_error(e, fault)
            } else {
                &&& result matches Ok((admission, request))
                &&& admission.job_id == v.next_job_id
                &&& admission.deadline.length() == now.length() + timeout.length()
                &&& final(control)@ == v.admitted(call_id@, now, admission.deadline, timeout)
                &&& final(turn).jobs@ == old(turn).jobs@.push(v.next_job_id)
                &&& is_request_of(request@, call_id@, mode, input@, options, timeout)
            }
        }),
{
    let timeout = effective_timeout(options.timeout, default_timeout);
    let options = GenerationOptions { timeout: Some(timeout), ..options };
    match validate_request_size(request_bytes, options_bytes, control.config.max_request_bytes) {
        Err(e) => {
            return Err(e);
        },
        Ok(_) => {},
    }
    match control.accept(turn, call_id.duplicate(), timeout, now, in_range) {
        Err(e) => Err(ModelGatewayError::Runtime(e)),
        Ok(admission) => Ok((admission, model_request(call_id, mode, input, &options))),
    }
}

/// A driver that ended without an answer to a call.
pub fn driver_lost(job_id: u64) -> (error: ModelGatewayError)
    ensures
        error matches ModelGatewayError::Internal { code, message } && code@
            == "model_driver_lost"@ && message@ == "Model operation "@ + decimal(job_id as nat)
            + " ended without a completion report"@,
{
    let mut message = "Model operation ".to_owned();
    message.push_str(decimal_text(job_id).as_str());
    message.push_str(" ended without a completion report");
    ModelGatewayError::Internal { code: "model_driver_lost".to_owned(), message }
}

/// A driver of a stream that ended without an answer.
pub fn stream_driver_lost(job_id: u64) -> (error: ModelGatewayError)
    ensures
        error matches ModelGatewayError::Internal { code, message } && code@
            == "model_driver_lost"@ && message@ == "Model stream operation "@ + decimal(
            job_id as nat,
        ) + " ended without a terminal report"@,
{
    let mut message = "Model stream operation ".to_owned();
    message.push_str(decimal_text(job_id).as_str());
    message.push_str(" ended without a terminal report");
    ModelGatewayError::Internal { code: "model_driver_lost".to_owned(), message }
}

/// A driver that went away before the call was closed. It is a failure to close.
pub fn driver_unwound() -> (error: ModelGatewayError)
    ensures
        crate::llm::failure::is_closure_error(error),
        error matches ModelGatewayError::Internal { code, message } && code@
            == "model_driver_unwound"@ && message@
            == "Model operation driver unwound before canonical closure"@,
{
    ModelGatewayError::Internal {
        code: "model_driver_unwound".to_owned(),
        message: "Model operation driver unwound before canonical closure".to_owned(),
    }
}

} // verus!
