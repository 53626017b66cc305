//! A bounded agent: step after step, with a few corrections and none of them repeated,
//! until the model claims to be done, asks the user, or a limit is reached.
//!
//! The host carries out the steps and emits the reports. What to do next is decided
//! here, from what the host observed.

use crate::agent::action::{
    execution_of, ActionError, ActionStepFailure, AgentAction, ContextActionError,
    ContextActionProtocol, ContextActionReport, StepOutcome,
};
use crate::agent::reference_report::{
    CompletionDecision, CompletionDecisionView, CorrectionReason, PendingQuestion, PendingQuestionView,
    ReferenceCorrectionReport, ReferenceCorrectionReportView, ReferenceRunReport, ReferenceRunReportView,
    ReferenceStepOutcome, ReferenceStepReport, ReferenceStepReportView, ReferenceStop,
};
use crate::agent::turn::{AgentError, AgentTurnOutput, TurnOutcome};
use crate::budget::model::BudgetError;
use crate::budget::vocabulary::BudgetReport;
use crate::context::budgeting::{ContextBudget, ContextBuildLimits, ContextTarget};
use crate::context::viewing::ToolViewLimits;
use crate::context::vocabulary::{LegacyReplyPolicy, ProjectionConfig};
use crate::generation::{DecisionContext, DecisionContextView, ModelMessage, ModelMessageView, ModelProtocolError};
use crate::generation_shape::{has_tool, names_tool};
use crate::id::{EventId, SessionId, TaskId, TurnId};
use crate::json::{decimal, decimal_text, json_string, quote, Json};
use crate::llm::failure::{LlmError, ModelGatewayError, ModelRuntimeError};
use crate::record::Record;
use crate::session::outcome_text::{bool_text, bool_text_of, outcome_json, outcome_json_of};
use crate::session::tool_record::{ToolRecordedOutcome, ToolRecordedOutcomeView};
use crate::text::{blank, text_within, byte_len, is_blank, is_bounded_text, same_text, size};
use crate::tool::failure::ToolRuntimeError;
use vstd::prelude::*;

verus! {

pub const REFERENCE_EVENT_PLUGIN: &'static str = "jingwei.reference";

pub const REFERENCE_STEP_EVENT: &'static str = "step_v1";

pub const REFERENCE_RUN_EVENT: &'static str = "run_v1";

pub const REFERENCE_CORRECTION_EVENT: &'static str = "correction_v1";

/// Invalid configuration, clock or handoff.
#[derive(Clone, Copy, Debug, PartialEq, Eq, Structural)]
pub struct ReferenceConfigError;

/// The host's configuration. It selects no model, no persistence and no grant.
#[derive(Debug, PartialEq, Eq)]
pub struct ReferenceAgentConfig {
    pub max_steps: u32,
    /// Ceiling of a turn, also charged to the task's corrections.
    pub max_corrections: u32,
    pub protocol: ContextActionProtocol,
    pub system: Vec<String>,
    pub pinned_turns: Vec<TurnId>,
    pub target: ContextTarget,
    pub context_budget: ContextBudget,
    pub context_limits: ContextBuildLimits,
    pub projection: ProjectionConfig,
    pub tool_limits: ToolViewLimits,
    pub max_preview_bytes: usize,
    pub content_ttl_ms: u64,
    /// Limit of one event's serialized payload.
    pub max_report_bytes: usize,
}

/// The agent can work with this configuration.
pub open spec fn is_workable(c: ReferenceAgentConfig) -> bool {
    &&& 0 < c.max_steps <= 1024
    &&& c.max_corrections <= 1024
    &&& c.content_ttl_ms > 0
    &&& c.max_report_bytes > 0
    &&& c.max_preview_bytes > 0
    &&& !is_blank(c.target.model@)
    &&& !is_blank(c.target.template_revision@)
    &&& c.context_budget.window_tokens > 0
    &&& 0 < c.context_budget.output_reserve <= u32::MAX
}

impl ReferenceAgentConfig {
    pub fn new(target: ContextTarget, context_budget: ContextBudget) -> (config: Self)
        ensures
            config.max_steps == 8,
            config.max_corrections == 2,
            config.protocol == ContextActionProtocol::Native,
            config.system@.len() == 0,
            config.pinned_turns@.len() == 0,
            config.target == target,
            config.context_budget == context_budget,
            config.context_limits == (ContextBuildLimits {
                max_input_bytes: 16_777_216,
                max_groups: 4096,
                max_messages: 8192,
                max_count_calls: 128,
            }),
            config.projection == (ProjectionConfig {
                legacy_replies: LegacyReplyPolicy::Reject,
                max_events: 100_000,
                max_input_bytes: 16_777_216,
                max_messages: 50_000,
            }),
            config.tool_limits == (ToolViewLimits {
                max_catalog: 1024,
                max_visible: 64,
                max_input_bytes: 4_194_304,
            }),
            config.max_preview_bytes == 4096,
            config.content_ttl_ms == 600_000,
            config.max_report_bytes == 262_144,
    {
        ReferenceAgentConfig {
            max_steps: 8,
            max_corrections: 2,
            protocol: ContextActionProtocol::Native,
            system: Vec::new(),
            pinned_turns: Vec::new(),
            target,
            context_budget,
            context_limits: ContextBuildLimits::default(),
            projection: ProjectionConfig::default(),
            tool_limits: ToolViewLimits::default(),
            max_preview_bytes: 4096,
            content_ttl_ms: 600_000,
            max_report_bytes: 262_144,
        }
    }
}

/// The agent: a workable configuration and a policy on progress.
#[derive(Debug, PartialEq, Eq)]
pub struct ReferenceAgent {
    pub config: ReferenceAgentConfig,
    pub progress: ProgressPolicy,
}

impl ReferenceAgent {
    pub fn new(config: ReferenceAgentConfig) -> (result: Result<Self, ReferenceConfigError>)
        ensures
            match result {
                Ok(agent) => is_workable(config) && agent.config == config
                    && agent.progress.is_default(),
                Err(_) => !is_workable(config),
            },
    {
        if config.max_steps == 0 || config.max_steps > 1024 || config.max_corrections > 1024
            || config.content_ttl_ms == 0 || config.max_report_bytes == 0
            || config.max_preview_bytes == 0 || blank(config.target.model.as_str()) || blank(
            config.target.template_revision.as_str(),
        ) || config.context_budget.window_tokens == 0 || config.context_budget.output_reserve == 0
            || config.context_budget.output_reserve > u32::MAX as u64 {
            return Err(ReferenceConfigError);
        }
        Ok(ReferenceAgent { config, progress: ProgressPolicy::default() })
    }

    /// Another policy on progress, checked before anything runs.
    pub fn with_checks(self, progress: ProgressPolicy) -> (result: Result<Self, ReferenceConfigError>)
        ensures
            match result {
                Ok(agent) => progress.is_valid() && agent == (ReferenceAgent { progress, ..self }),
                Err(_) => !progress.is_valid(),
            },
    {
        match progress.validate() {
            Ok(_) => Ok(ReferenceAgent { progress, ..self }),
            Err(e) => Err(e),
        }
    }
}

/// A host that tells nothing of its own state.
#[derive(Clone, Copy, Debug, PartialEq, Eq, Structural)]
pub struct UnknownReferenceState;

impl UnknownReferenceState {
    /// The version of the host's state: unknown.
    pub fn version(&self) -> (version: Option<String>)
        ensures
            version is None,
    {
        None
    }
}

/// A host that checks no claim of completion.
#[derive(Clone, Copy, Debug, PartialEq, Eq, Structural)]
pub struct UnverifiedCompletion;

impl UnverifiedCompletion {
    /// What is thought of a claim: nothing.
    pub fn check(&self) -> (decision: CompletionDecision)
        ensures
            decision is Unverified,
    {
        CompletionDecision::Unverified
    }
}

impl CompletionDecision {
    /// Evidence and reasons say something, and not too much.
    pub fn valid(&self) -> (answer: bool)
        ensures
            answer == is_valid_decision(self@),
    {
        match self {
            CompletionDecision::Unverified => true,
            CompletionDecision::Verified { evidence } => text_within(evidence.as_str(), 4096),
            CompletionDecision::Rejected { reason } => text_within(reason.as_str(), 4096),
        }
    }
}

pub open spec fn is_valid_decision(decision: CompletionDecisionView) -> bool {
    match decision {
        CompletionDecisionView::Unverified => true,
        CompletionDecisionView::Verified { evidence } => is_bounded_text(evidence, 4096),
        CompletionDecisionView::Rejected { reason } => is_bounded_text(reason, 4096),
    }
}

/// A tool that may be polled, and how often.
#[derive(Debug, PartialEq, Eq)]
pub struct PollingLimit {
    pub name: String,
    pub limit: u32,
}

/// How many identical observations in a row, the first one counted, are too many.
/// Arguments, result and host state are compared as they are; identities are not.
#[derive(Debug, PartialEq, Eq)]
pub struct ProgressPolicy {
    pub max_repetitions: u32,
    /// Thresholds of single tools; they never override the limits of steps or task.
    pub polling_limits: Vec<PollingLimit>,
    pub max_observation_bytes: usize,
}

pub open spec fn is_repetition_limit(limit: u32) -> bool {
    2 <= limit <= 1024
}

/// The first threshold for a tool from the `k`th on, or the general one.
pub open spec fn limit_from(limits: Seq<PollingLimit>, name: Seq<char>, k: int, general: u32) -> u32
    decreases limits.len() - k,
{
    if k < 0 || k >= limits.len() {
        general
    } else if limits[k].name@ == name {
        limits[k].limit
    } else {
        limit_from(limits, name, k + 1, general)
    }
}

impl ProgressPolicy {
    /// Three identical observations are too many, of every tool.
    pub open spec fn is_default(&self) -> bool {
        &&& self.max_repetitions == 3
        &&& self.polling_limits@ == Seq::<PollingLimit>::empty()
        &&& self.max_observation_bytes == 1_048_576
    }

    pub open spec fn is_valid(&self) -> bool {
        &&& is_repetition_limit(self.max_repetitions)
        &&& 0 < self.max_observation_bytes <= 16_777_216
        &&& self.polling_limits@.len() <= 1024
        &&& forall|i: int|
            0 <= i < self.polling_limits@.len() ==> is_bounded_text(
                (#[trigger] self.polling_limits@[i]).name@,
                4096,
            ) && is_repetition_limit(self.polling_limits@[i].limit)
    }

    pub fn validate(&self) -> (result: Result<(), ReferenceConfigError>)
        ensures
            result is Ok <==> self.is_valid(),
    {
        if self.max_repetitions < 2 || self.max_repetitions > 1024 || self.max_observation_bytes
            == 0 || self.max_observation_bytes > 16_777_216 || self.polling_limits.len() > 1024 {
            return Err(ReferenceConfigError);
        }
        let mut i: usize = 0;
        while i < self.polling_limits.len()
            invariant
                i <= self.polling_limits@.len(),
                is_repetition_limit(self.max_repetitions),
                0 < self.max_observation_bytes <= 16_777_216,
                self.polling_limits@.len() <= 1024,
                forall|k: int|
                    0 <= k < i ==> is_bounded_text(
                        (#[trigger] self.polling_limits@[k]).name@,
                        4096,
                    ) && is_repetition_limit(self.polling_limits@[k].limit),
            decreases self.polling_limits@.len() - i,
        {
            let entry = &self.polling_limits[i];
            if !text_within(entry.name.as_str(), 4096) || entry.limit < 2 || entry.limit > 1024 {
                return Err(ReferenceConfigError);
            }
            i = i + 1;
        }
        Ok(())
    }

    /// How many identical observations of this tool are too many.
    pub fn limit(&self, name: &str) -> (limit: u32)
        ensures
            limit == limit_from(self.polling_limits@, name@, 0, self.max_repetitions),
    {
        let mut i: usize = 0;
        while i < self.polling_limits.len()
            invariant
                i <= self.polling_limits@.len(),
                limit_from(self.polling_limits@, name@, 0, self.max_repetitions) == limit_from(
                    self.polling_limits@,
                    name@,
                    i as int,
                    self.max_repetitions,
                ),
            decreases self.polling_limits@.len() - i,
        {
            if same_text(self.polling_limits[i].name.as_str(), name) {
                return self.polling_limits[i].limit;
            }
            i = i + 1;
        }
        self.max_repetitions
    }
}

impl Default for ProgressPolicy {
    fn default() -> (policy: Self)
        ensures
            policy.is_default(),
            policy.is_valid(),
    {
        ProgressPolicy {
            max_repetitions: 3,
            polling_limits: Vec::new(),
            max_observation_bytes: 1_048_576,
        }
    }
}

/// What a rejected proposal can be corrected for. `parsed` is what the protocol makes
/// of an answer that broke its schema.
pub open spec fn correctable(
    error: ContextActionError,
    parsed: Option<Result<AgentAction, ActionError>>,
) -> Option<CorrectionReason> {
    match error {
        ContextActionError::Action { error: failed, build: _, tools } =>
            if failed.completed_execution is Some {
            None
        } else {
            match failed.failure {
                ActionStepFailure::Model(ModelGatewayError::SchemaRejected { .. }) => match parsed {
                    Some(Ok(AgentAction::CallTool { name, .. })) => if has_tool(
                        tools@.tools,
                        name@,
                    ) {
                        Some(CorrectionReason::InvalidArguments)
                    } else {
                        None
                    },
                    Some(Err(ActionError::EmptyText)) => Some(CorrectionReason::EmptyText),
                    Some(Err(ActionError::InvalidAction)) => Some(CorrectionReason::InvalidFormat),
                    _ => None,
                },
                ActionStepFailure::Validation(ActionError::InvalidAction) => Some(
                    CorrectionReason::InvalidFormat,
                ),
                ActionStepFailure::Validation(ActionError::EmptyText) => Some(
                    CorrectionReason::EmptyText,
                ),
                ActionStepFailure::Validation(ActionError::MultipleActions) => Some(
                    CorrectionReason::MultipleActions,
                ),
                ActionStepFailure::Validation(ActionError::InvalidArguments) => Some(
                    CorrectionReason::InvalidArguments,
                ),
                ActionStepFailure::Model(
                    ModelGatewayError::Model(
                        LlmError::Protocol(ModelProtocolError::InvalidJsonOutput),
                    ),
                ) => Some(CorrectionReason::InvalidFormat),
                _ => None,
            }
        },
        _ => None,
    }
}

/// What a rejected proposal can be corrected for. Nothing that a tool has run for is.
pub fn eligible(error: &ContextActionError, parsed: &Option<Result<AgentAction, ActionError>>) -> (reason: Option<
    CorrectionReason,
>)
    ensures
        reason == correctable(*error, *parsed),
{
    match error {
        ContextActionError::Action { error: failed, build: _, tools } => {
            if failed.completed_execution.is_some() {
                return None;
            }
            match &failed.failure {
                ActionStepFailure::Model(ModelGatewayError::SchemaRejected { .. }) => match parsed {
                    Some(Ok(AgentAction::CallTool { name, .. })) => if names_tool(
                        &tools.tools,
                        name,
                    ) {
                        Some(CorrectionReason::InvalidArguments)
                    } else {
                        None
                    },
                    Some(Err(ActionError::EmptyText)) => Some(CorrectionReason::EmptyText),
                    Some(Err(ActionError::InvalidAction)) => Some(CorrectionReason::InvalidFormat),
                    _ => None,
                },
                ActionStepFailure::Validation(ActionError::InvalidAction) => Some(
                    CorrectionReason::InvalidFormat,
                ),
                ActionStepFailure::Validation(ActionError::EmptyText) => Some(
                    CorrectionReason::EmptyText,
                ),
                ActionStepFailure::Validation(ActionError::MultipleActions) => Some(
                    CorrectionReason::MultipleActions,
                ),
                ActionStepFailure::Validation(ActionError::InvalidArguments) => Some(
                    CorrectionReason::InvalidArguments,
                ),
                ActionStepFailure::Model(
                    ModelGatewayError::Model(
                        LlmError::Protocol(ModelProtocolError::InvalidJsonOutput),
                    ),
                ) => Some(CorrectionReason::InvalidFormat),
                _ => None,
            }
        },
        _ => None,
    }
}

pub open spec fn reason_name_of(reason: CorrectionReason) -> Seq<char> {
    match reason {
        CorrectionReason::InvalidFormat => "InvalidFormat"@,
        CorrectionReason::EmptyText => "EmptyText"@,
        CorrectionReason::MultipleActions => "MultipleActions"@,
        CorrectionReason::InvalidArguments => "InvalidArguments"@,
    }
}

fn reason_name(reason: CorrectionReason) -> (name: &'static str)
    ensures
        name@ == reason_name_of(reason),
{
    match reason {
        CorrectionReason::InvalidFormat => "InvalidFormat",
        CorrectionReason::EmptyText => "EmptyText",
        CorrectionReason::MultipleActions => "MultipleActions",
        CorrectionReason::InvalidArguments => "InvalidArguments",
    }
}

/// What a model is told of a rejected proposal: the reason and a fixed instruction.
pub open spec fn feedback_of(reason: CorrectionReason) -> Seq<char> {
    "{\"instruction\":\"The previous proposal was rejected before tool execution. Return exactly one action satisfying the supplied schema. Do not repeat unavailable or denied operations.\",\"reason\":\""@
        + reason_name_of(reason) + "\",\"type\":\"jingwei_action_correction_v1\"}"@
}

pub fn feedback(reason: CorrectionReason) -> (text: String)
    ensures
        text@ == feedback_of(reason),
{
    let mut text =
        "{\"instruction\":\"The previous proposal was rejected before tool execution. Return exactly one action satisfying the supplied schema. Do not repeat unavailable or denied operations.\",\"reason\":\"".to_owned();
    text.push_str(reason_name(reason));
    text.push_str("\",\"type\":\"jingwei_action_correction_v1\"}");
    text
}

/// A failure of the agent's own, which is not retried.
pub open spec fn is_failed(error: AgentError, code: Seq<char>, message: Seq<char>) -> bool {
    error matches AgentError::Failed(f) && f.code@ == code && f.message@ == message && !f.retryable
}

fn failed(code: &'static str, message: &'static str) -> (error: AgentError)
    ensures
        is_failed(error, code@, message@),
{
    AgentError::failed(code.to_owned(), message.to_owned(), false)
}

/// What a failed step ends the run with.
pub open spec fn fails_as(error: ContextActionError, stop: ReferenceStop, failure: AgentError) -> bool {
    match error {
        ContextActionError::Action { error: f, .. } => match f.failure {
            ActionStepFailure::Cancelled => stop == ReferenceStop::Cancelled && failure
                == AgentError::Cancelled,
            ActionStepFailure::Model(e) => failure == AgentError::Model(e) && stop == match e {
                ModelGatewayError::Runtime(ModelRuntimeError::Budget(_)) =>
                    ReferenceStop::BudgetExhausted,
                ModelGatewayError::Model(LlmError::Cancelled) => ReferenceStop::Cancelled,
                _ => ReferenceStop::RuntimeFailure,
            },
            ActionStepFailure::Tool(e) => failure == AgentError::Tool(e) && stop == match e {
                ToolRuntimeError::Budget(_) => ReferenceStop::BudgetExhausted,
                ToolRuntimeError::Cancelled { .. } => ReferenceStop::Cancelled,
                _ => ReferenceStop::RuntimeFailure,
            },
            ActionStepFailure::Validation(_) => stop == ReferenceStop::InvalidAction && is_failed(
                failure,
                "reference_invalid_action"@,
                "action validation rejected; no correction was attempted"@,
            ),
        },
        ContextActionError::ResultView { .. } => stop == ReferenceStop::ResultViewFailed
            && is_failed(
            failure,
            "reference_result_view"@,
            "confirmed tool result could not be projected"@,
        ),
        ContextActionError::Build(_) => stop == ReferenceStop::ContextRejected && is_failed(
            failure,
            "reference_context"@,
            "context budget or shape rejected"@,
        ),
        ContextActionError::View(_) => stop == ReferenceStop::PolicyRejected && is_failed(
            failure,
            "reference_policy"@,
            "tool visibility policy rejected"@,
        ),
        ContextActionError::Protocol(_) => stop == ReferenceStop::InvalidAction && is_failed(
            failure,
            "reference_configuration"@,
            "action configuration or protocol rejected"@,
        ),
        ContextActionError::Invalid => stop == ReferenceStop::InvalidAction && is_failed(
            failure,
            "reference_configuration"@,
            "action configuration or protocol rejected"@,
        ),
    }
}

/// What a failed step ends the run with. Failures of the runtimes keep their evidence.
pub fn action_failure(error: ContextActionError) -> (ended: (ReferenceStop, AgentError))
    ensures
        fails_as(error, ended.0, ended.1),
{
    match error {
        ContextActionError::Action { error: f, .. } => match f.failure {
            ActionStepFailure::Cancelled => (ReferenceStop::Cancelled, AgentError::Cancelled),
            ActionStepFailure::Model(e) => {
                let stop = match &e {
                    ModelGatewayError::Runtime(ModelRuntimeError::Budget(_)) =>
                        ReferenceStop::BudgetExhausted,
                    ModelGatewayError::Model(LlmError::Cancelled) => ReferenceStop::Cancelled,
                    _ => ReferenceStop::RuntimeFailure,
                };
                (stop, AgentError::Model(e))
            },
            ActionStepFailure::Tool(e) => {
                let stop = match &e {
                    ToolRuntimeError::Budget(_) => ReferenceStop::BudgetExhausted,
                    ToolRuntimeError::Cancelled { .. } => ReferenceStop::Cancelled,
                    _ => ReferenceStop::RuntimeFailure,
                };
                (stop, AgentError::Tool(e))
            },
            ActionStepFailure::Validation(_) => (
                ReferenceStop::InvalidAction,
                failed(
                    "reference_invalid_action",
                    "action validation rejected; no correction was attempted",
                ),
            ),
        },
        ContextActionError::ResultView { .. } => (
            ReferenceStop::ResultViewFailed,
            failed("reference_result_view", "confirmed tool result could not be projected"),
        ),
        ContextActionError::Build(_) => (
            ReferenceStop::ContextRejected,
            failed("reference_context", "context budget or shape rejected"),
        ),
        ContextActionError::View(_) => (
            ReferenceStop::PolicyRejected,
            failed("reference_policy", "tool visibility policy rejected"),
        ),
        ContextActionError::Protocol(_) => (
            ReferenceStop::InvalidAction,
            failed("reference_configuration", "action configuration or protocol rejected"),
        ),
        ContextActionError::Invalid => (
            ReferenceStop::InvalidAction,
            failed("reference_configuration", "action configuration or protocol rejected"),
        ),
    }
}

/// The events that a step's tool call left.
pub open spec fn tool_events_of(outcome: StepOutcome) -> Seq<Seq<char>> {
    match execution_of(outcome) {
        Some(e) => seq![e.call_event@.event_id, e.result_event@.event_id],
        None => Seq::empty(),
    }
}

pub open spec fn step_outcome_of(outcome: StepOutcome) -> ReferenceStepOutcome {
    match outcome {
        StepOutcome::Final { .. } => ReferenceStepOutcome::ModelClaimedComplete,
        StepOutcome::AskUser { .. } => ReferenceStepOutcome::WaitingForInput,
        StepOutcome::ToolCompleted { .. } => ReferenceStepOutcome::ToolSucceeded,
        StepOutcome::Halted { .. } => ReferenceStepOutcome::ToolFailed,
    }
}

/// The report of one step.
pub fn step_report(report: &ContextActionReport, turn_id: &TurnId, ordinal: u32) -> (made: ReferenceStepReport)
    ensures
        made@ == (ReferenceStepReportView {
            version: 1,
            task_id: report.step.context@.task_id,
            turn_id: turn_id@,
            ordinal,
            decision: report.step.context@,
            outcome: step_outcome_of(report.step.outcome),
            build: report.build@,
            visible_tools: report.tools@.tools.map_values(
                |t: crate::generation::ModelToolDefinitionView| t.name,
            ),
            tool_events: tool_events_of(report.step.outcome),
            result_view: report.result.deep_view(),
        }),
{
    let mut tool_events: Vec<EventId> = Vec::new();
    let outcome = match &report.step.outcome {
        StepOutcome::Final { .. } => ReferenceStepOutcome::ModelClaimedComplete,
        StepOutcome::AskUser { .. } => ReferenceStepOutcome::WaitingForInput,
        StepOutcome::ToolCompleted { execution } => {
            tool_events.push(execution.call_event.event_id.duplicate());
            tool_events.push(execution.result_event.event_id.duplicate());
            ReferenceStepOutcome::ToolSucceeded
        },
        StepOutcome::Halted { execution } => {
            tool_events.push(execution.call_event.event_id.duplicate());
            tool_events.push(execution.result_event.event_id.duplicate());
            ReferenceStepOutcome::ToolFailed
        },
    };
    assert(tool_events.deep_view() =~= tool_events_of(report.step.outcome));
    let ghost wanted = report.tools@.tools.map_values(
        |t: crate::generation::ModelToolDefinitionView| t.name,
    );
    let mut visible_tools: Vec<String> = Vec::new();
    let mut i: usize = 0;
    while i < report.tools.tools.len()
        invariant
            i <= report.tools.tools@.len(),
            wanted == report.tools.tools.deep_view().map_values(
                |t: crate::generation::ModelToolDefinitionView| t.name,
            ),
            visible_tools@.len() == i,
            forall|k: int| 0 <= k < i ==> (#[trigger] visible_tools@[k])@ == wanted[k],
        decreases report.tools.tools@.len() - i,
    {
        assert(report.tools.tools.deep_view()[i as int] == report.tools.tools@[i as int]@);
        visible_tools.push(report.tools.tools[i].name.clone());
        i = i + 1;
    }
    assert(visible_tools.deep_view() =~= wanted);
    ReferenceStepReport {
        version: 1,
        task_id: report.step.context.task_id.duplicate(),
        turn_id: turn_id.duplicate(),
        ordinal,
        decision: report.step.context.duplicate(),
        outcome,
        build: report.build.duplicate(),
        visible_tools,
        tool_events,
        result_view: report.result.duplicate(),
    }
}

/// A payload that never grows beyond its limit.
#[derive(Debug, PartialEq, Eq)]
pub struct BoundedPayload {
    bytes: Vec<u8>,
    max: usize,
}

impl BoundedPayload {
    pub closed spec fn view(&self) -> Seq<u8> {
        self.bytes@
    }

    pub closed spec fn limit(&self) -> usize {
        self.max
    }

    #[verifier::type_invariant]
    spec fn inv(&self) -> bool {
        self.bytes@.len() <= self.max
    }

    pub fn new(max: usize) -> (payload: Self)
        ensures
            payload@ == Seq::<u8>::empty(),
            payload.limit() == max,
    {
        BoundedPayload { bytes: Vec::new(), max }
    }

    /// Takes the bytes, all of them or none.
    pub fn write(&mut self, bytes: &Vec<u8>) -> (accepted: bool)
        ensures
            accepted == (old(self)@.len() + bytes@.len() <= old(self).limit()),
            final(self).limit() == old(self).limit(),
            final(self)@ == if accepted {
                old(self)@ + bytes@
            } else {
                old(self)@
            },
    {
        proof {
            use_type_invariant(&*self);
        }
        if bytes.len() > self.max - self.bytes.len() {
            return false;
        }
        let mut held: Vec<u8> = Vec::new();
        std::mem::swap(&mut held, &mut self.bytes);
        let mut more = bytes.clone();
        assert(more@ =~= bytes@);
        held.append(&mut more);
        self.bytes = held;
        true
    }
}

/// Whether a report of so many bytes may be emitted.
pub fn check_report(bytes: usize, config: &ReferenceAgentConfig) -> (result: Result<(), AgentError>)
    ensures
        match result {
            Ok(_) => bytes <= config.max_report_bytes,
            Err(e) => bytes > config.max_report_bytes && is_failed(
                e,
                "reference_report_limit"@,
                "reference report exceeds its limit"@,
            ),
        },
{
    if bytes > config.max_report_bytes {
        return Err(failed("reference_report_limit", "reference report exceeds its limit"));
    }
    Ok(())
}

/// A decision in JSON.
pub open spec fn decision_json_of(d: CompletionDecisionView) -> Seq<char> {
    match d {
        CompletionDecisionView::Unverified => "\"Unverified\""@,
        CompletionDecisionView::Verified { evidence } => "{\"Verified\":{\"evidence\":"@
            + json_string(evidence) + "}}"@,
        CompletionDecisionView::Rejected { reason } => "{\"Rejected\":{\"reason\":"@ + json_string(
            reason,
        ) + "}}"@,
    }
}

/// The artifact of a completed turn.
pub open spec fn completion_artifact(verified: bool, d: CompletionDecisionView, task: Seq<char>) -> Seq<char> {
    "{\"business_verified\":"@ + bool_text_of(verified) + ",\"completion\":"@ + decision_json_of(d)
        + ",\"task_id\":"@ + json_string(task) + ",\"type\":\"reference_completion_v1\"}"@
}

/// A pending question in JSON.
pub open spec fn pending_json_of(p: PendingQuestionView) -> Seq<char> {
    "{\"agent_key\":"@ + json_string(p.agent_key) + ",\"pending_question\":"@ + json_string(
        p.pending_question,
    ) + ",\"session_id\":"@ + json_string(p.session_id) + ",\"task_id\":"@ + json_string(p.task_id)
        + ",\"turn_id\":"@ + json_string(p.turn_id) + ",\"version\":"@ + decimal(p.version as nat)
        + "}"@
}

/// The artifact of a turn that waits for input.
pub open spec fn waiting_artifact(p: PendingQuestionView) -> Seq<char> {
    "{\"pending\":"@ + pending_json_of(p) + ",\"pending_question\":"@ + json_string(
        p.pending_question,
    ) + ",\"task_id\":"@ + json_string(p.task_id) + ",\"turn_id\":"@ + json_string(p.turn_id)
        + ",\"type\":\"reference_waiting_v1\"}"@
}

fn completion_json(verified: bool, d: &CompletionDecision, task: &TaskId) -> (json: Json)
    ensures
        json@ == completion_artifact(verified, d@, task@),
{
    let mut text = "{\"business_verified\":".to_owned();
    text.push_str(bool_text(verified));
    text.push_str(",\"completion\":");
    let decided = match d {
        CompletionDecision::Unverified => "\"Unverified\"".to_owned(),
        CompletionDecision::Verified { evidence } => {
            let mut inner = "{\"Verified\":{\"evidence\":".to_owned();
            inner.push_str(quote(evidence.as_str()).as_str());
            inner.push_str("}}");
            inner
        },
        CompletionDecision::Rejected { reason } => {
            let mut inner = "{\"Rejected\":{\"reason\":".to_owned();
            inner.push_str(quote(reason.as_str()).as_str());
            inner.push_str("}}");
            inner
        },
    };
    text.push_str(decided.as_str());
    text.push_str(",\"task_id\":");
    text.push_str(quote(task.as_str()).as_str());
    text.push_str(",\"type\":\"reference_completion_v1\"}");
    Json::from_compact(text)
}

fn waiting_json(p: &PendingQuestion) -> (json: Json)
    ensures
        json@ == waiting_artifact(p@),
{
    let question = quote(p.pending_question.as_str());
    let task = quote(p.task_id.as_str());
    let turn = quote(p.turn_id.as_str());
    let mut inner = "{\"agent_key\":".to_owned();
    inner.push_str(quote(p.agent_key.as_str()).as_str());
    inner.push_str(",\"pending_question\":");
    inner.push_str(question.as_str());
    inner.push_str(",\"session_id\":");
    inner.push_str(quote(p.session_id.as_str()).as_str());
    inner.push_str(",\"task_id\":");
    inner.push_str(task.as_str());
    inner.push_str(",\"turn_id\":");
    inner.push_str(turn.as_str());
    inner.push_str(",\"version\":");
    inner.push_str(decimal_text(p.version as u64).as_str());
    inner.push_str("}");
    let mut text = "{\"pending\":".to_owned();
    text.push_str(inner.as_str());
    text.push_str(",\"pending_question\":");
    text.push_str(question.as_str());
    text.push_str(",\"task_id\":");
    text.push_str(task.as_str());
    text.push_str(",\"turn_id\":");
    text.push_str(turn.as_str());
    text.push_str(",\"type\":\"reference_waiting_v1\"}");
    Json::from_compact(text)
}

pub open spec fn is_valid_question(p: PendingQuestionView) -> bool {
    &&& p.version == 1
    &&& is_bounded_text(p.agent_key, 4096)
    &&& is_bounded_text(p.pending_question, 65_536)
}

impl PendingQuestion {
    pub fn valid(&self) -> (answer: bool)
        ensures
            answer == is_valid_question(self@),
    {
        self.version == 1 && text_within(self.agent_key.as_str(), 4096) && text_within(
            self.pending_question.as_str(),
            65_536,
        )
    }
}

/// What an observation is compared by: tool, arguments, outcome and host state.
pub open spec fn observation_of(
    name: Seq<char>,
    arguments: Seq<char>,
    outcome: ToolRecordedOutcomeView,
    state: Option<Seq<char>>,
) -> Seq<char> {
    "["@ + json_string(name) + ","@ + arguments + ","@ + outcome_json_of(outcome) + ","@
        + match state {
        Some(version) => json_string(version),
        None => "null"@,
    } + "]"@
}

fn observation(name: &String, arguments: &Json, outcome: &ToolRecordedOutcome, state: &Option<String>) -> (text:
    String)
    ensures
        text@ == observation_of(name@, arguments@, outcome@, state.deep_view()),
{
    let mut text = "[".to_owned();
    text.push_str(quote(name.as_str()).as_str());
    text.push_str(",");
    text.push_str(arguments.as_str());
    text.push_str(",");
    text.push_str(outcome_json(outcome).as_str());
    text.push_str(",");
    match state {
        Some(version) => {
            text.push_str(quote(version.as_str()).as_str());
        },
        None => {
            text.push_str("null");
        },
    }
    text.push_str("]");
    text
}

/// A run in progress.
#[derive(Debug, PartialEq, Eq)]
pub struct ReferenceDrive {
    pub run: ReferenceRunReport,
    pub task_id: TaskId,
    pub agent_key: String,
    pub max_corrections: u32,
    pub now: u64,
    pub expires: u64,
    /// Steps begun.
    pub ordinal: u32,
    pub previous: Option<String>,
    pub correction_feedback: Option<String>,
    pub current: Vec<ModelMessage>,
}

pub struct DriveView {
    pub run: ReferenceRunReportView,
    pub task: Seq<char>,
    pub agent: Seq<char>,
    pub max_corrections: u32,
    pub now: u64,
    pub expires: u64,
    pub ordinal: u32,
    pub previous: Option<Seq<char>>,
    pub feedback: Option<Seq<char>>,
    pub current: Seq<ModelMessageView>,
}

impl DriveView {
    /// Counts stay within the limits, and the clock within the content's lifetime.
    pub open spec fn wf(self) -> bool {
        &&& self.run.task_id == Some(self.task)
        &&& self.ordinal <= self.run.max_steps <= 1024
        &&& self.run.attempted_steps <= self.ordinal
        &&& self.run.confirmed_steps <= self.ordinal
        &&& self.run.corrections <= self.max_corrections <= 1024
        &&& self.run.repeated_observations <= self.ordinal
    }

    pub open spec fn stopped(self, stop: ReferenceStop) -> DriveView {
        DriveView { run: ReferenceRunReportView { stop, ..self.run }, ..self }
    }
}

/// The report that a run starts with.
pub open spec fn fresh_run(session: Seq<char>, turn: Seq<char>, max_steps: u32) -> ReferenceRunReportView {
    ReferenceRunReportView {
        version: 1,
        session_id: session,
        turn_id: turn,
        task_id: None,
        max_steps,
        attempted_steps: 0,
        confirmed_steps: 0,
        stop: ReferenceStop::RuntimeFailure,
        business_verified: false,
        completion: None,
        repeated_observations: 0,
        corrections: 0,
    }
}

/// What the host found before the first step.
#[derive(Debug, PartialEq, Eq)]
pub struct DriveStart {
    /// `None` where no budget is bound.
    pub budget: Option<Result<BudgetReport, BudgetError>>,
    pub has_model: bool,
    /// The history could be projected.
    pub history: bool,
    /// `None` where the clock failed.
    pub clock: Option<u64>,
}

/// The run could not begin: its report and the failure.
#[derive(Debug, PartialEq, Eq)]
pub struct DriveRefusal {
    pub run: ReferenceRunReport,
    pub error: AgentError,
}

/// Why a run cannot begin: how its report says it, and as which failure.
pub open spec fn refuses_start(
    start: DriveStart,
    session: Seq<char>,
    ttl: u64,
    stop: ReferenceStop,
    task: Option<Seq<char>>,
    error: AgentError,
) -> bool {
    match start.budget {
        None => task is None && stop == ReferenceStop::RuntimeFailure && is_failed(
            error,
            "reference_budget_required"@,
            "a controlled Task budget is required"@,
        ),
        Some(Err(e)) => task is None && stop == ReferenceStop::RuntimeFailure && error
            == AgentError::Budget(e),
        Some(Ok(report)) => if report@.identity.session != session {
            task is None && stop == ReferenceStop::RuntimeFailure && is_failed(
                error,
                "reference_identity"@,
                "Task and Session do not match"@,
            )
        } else {
            &&& task == Some(report@.identity.task)
            &&& match report@.stop {
                Some(reason) => stop == ReferenceStop::RuntimeFailure && error
                    == AgentError::Budget(BudgetError::Stopped(reason)),
                None => if !start.has_model {
                    stop == ReferenceStop::RuntimeFailure && is_failed(
                        error,
                        "reference_model_required"@,
                        "a controlled model gateway is required"@,
                    )
                } else if !start.history {
                    stop == ReferenceStop::HistoryRejected && is_failed(
                        error,
                        "reference_history"@,
                        "history projection rejected"@,
                    )
                } else {
                    match start.clock {
                        None => stop == ReferenceStop::ClockFailure && is_failed(
                            error,
                            "reference_clock"@,
                            "host clock failed"@,
                        ),
                        Some(now) => now + ttl > u64::MAX && stop == ReferenceStop::ClockFailure
                            && is_failed(
                            error,
                            "reference_clock"@,
                            "content expiry overflow"@,
                        ),
                    }
                },
            }
        },
    }
}

/// A run can begin.
pub open spec fn can_start(start: DriveStart, session: Seq<char>, ttl: u64) -> bool {
    &&& start.budget matches Some(Ok(report))
    &&& report@.identity.session == session
    &&& report@.stop is None
    &&& start.has_model
    &&& start.history
    &&& start.clock matches Some(now)
    &&& now + ttl <= u64::MAX
}

/// What the host found before a step.
#[derive(Debug, PartialEq, Eq)]
pub struct StepStart {
    pub cancelled: bool,
    pub budget: Result<BudgetReport, BudgetError>,
    pub clock: Option<u64>,
    /// `None` where the state could not be observed.
    pub state: Option<Option<String>>,
}

/// A host state's name says something, in few bytes.
pub open spec fn is_state_version(state: Option<Seq<char>>) -> bool {
    state matches Some(version) ==> is_bounded_text(version, 4096)
}

/// Why the next step does not begin, and the run after it.
pub open spec fn refuses_step(before: DriveView, start: StepStart, after: DriveView, error: AgentError) -> bool {
    if before.ordinal >= before.run.max_steps {
        after == before.stopped(ReferenceStop::StepLimit) && is_failed(
            error,
            "reference_step_limit"@,
            "finite action step limit reached"@,
        )
    } else {
        let begun = DriveView { ordinal: (before.ordinal + 1) as u32, ..before };
        if start.cancelled {
            after == begun && error == AgentError::Cancelled
        } else {
            match start.budget {
                Err(e) => after == begun && error == AgentError::Budget(e),
                Ok(report) => match report@.stop {
                    Some(reason) => after == begun && error == AgentError::Budget(
                        BudgetError::Stopped(reason),
                    ),
                    None => match start.clock {
                        None => after == begun.stopped(ReferenceStop::ClockFailure) && is_failed(
                            error,
                            "reference_clock"@,
                            "host clock failed"@,
                        ),
                        Some(next) => if next < before.now {
                            after == begun.stopped(ReferenceStop::ClockFailure) && is_failed(
                                error,
                                "reference_clock"@,
                                "host clock moved backwards"@,
                            )
                        } else if next >= before.expires {
                            after == (DriveView { now: next, ..begun }).stopped(
                                ReferenceStop::ContentExpired,
                            ) && is_failed(
                                error,
                                "reference_content_expired"@,
                                "content scope expired"@,
                            )
                        } else {
                            &&& after == attempted(before, next).stopped(
                                ReferenceStop::PolicyRejected,
                            )
                            &&& match start.state {
                                None => is_failed(
                                    error,
                                    "reference_state"@,
                                    "host state observation failed"@,
                                ),
                                Some(state) => !is_state_version(state.deep_view()) && is_failed(
                                    error,
                                    "reference_state"@,
                                    "invalid host state version"@,
                                ),
                            }
                        },
                    },
                },
            }
        }
    }
}

/// The run once the next step was attempted at `now`.
pub open spec fn attempted(before: DriveView, now: u64) -> DriveView {
    let ordinal = (before.ordinal + 1) as u32;
    DriveView {
        ordinal,
        now,
        run: ReferenceRunReportView { attempted_steps: ordinal, ..before.run },
        ..before
    }
}

/// The next step begins.
pub open spec fn can_step(before: DriveView, start: StepStart) -> bool {
    &&& before.ordinal < before.run.max_steps
    &&& !start.cancelled
    &&& start.budget matches Ok(report)
    &&& report@.stop is None
    &&& start.clock matches Some(next)
    &&& before.now <= next < before.expires
    &&& start.state matches Some(state)
    &&& is_state_version(state.deep_view())
}

/// What follows a failed step.
#[derive(Debug, PartialEq, Eq)]
pub enum FailurePlan {
    /// Charge one correction and try again.
    Charge(CorrectionReason),
    /// Report the step that a tool has run for, then stop.
    ReportAndStop,
    Stop,
    /// Stop at once with this failure.
    Refuse(AgentError),
}

/// The run after a failed step, and what follows.
pub open spec fn plans(
    before: DriveView,
    error: ContextActionError,
    parsed: Option<Result<AgentAction, ActionError>>,
    cancelled: bool,
    after: DriveView,
    plan: FailurePlan,
) -> bool {
    match correctable(error, parsed) {
        Some(reason) => if before.ordinal == before.run.max_steps {
            &&& after == before.stopped(ReferenceStop::StepLimit)
            &&& plan matches FailurePlan::Refuse(e)
            &&& is_failed(e, "reference_step_limit"@, "no action steps remain for correction"@)
        } else if before.run.corrections >= before.max_corrections {
            &&& after == before.stopped(ReferenceStop::CorrectionLimit)
            &&& plan matches FailurePlan::Refuse(e)
            &&& is_failed(e, "reference_correction_limit"@, "finite correction limit reached"@)
        } else {
            &&& after == before
            &&& plan == if cancelled {
                FailurePlan::Refuse(AgentError::Cancelled)
            } else {
                FailurePlan::Charge(reason)
            }
        },
        None => {
            &&& after == before
            &&& plan == if error is ResultView {
                FailurePlan::ReportAndStop
            } else {
                FailurePlan::Stop
            }
        },
    }
}

/// The run once a correction was charged, and its report; or as it was, where the charge
/// failed.
pub open spec fn corrects(
    before: DriveView,
    reason: CorrectionReason,
    decision: DecisionContextView,
    charged: Result<(), BudgetError>,
    after: DriveView,
    result: Result<ReferenceCorrectionReport, AgentError>,
) -> bool {
    match charged {
        Err(e) => {
            &&& after == before
            &&& result == Err::<ReferenceCorrectionReport, AgentError>(AgentError::Budget(e))
        },
        Ok(_) => {
            let n = (before.run.corrections + 1) as u32;
            &&& after == (DriveView {
                run: ReferenceRunReportView { corrections: n, ..before.run },
                feedback: Some(feedback_of(reason)),
                ..before
            })
            &&& result matches Ok(report)
            &&& report@ == (ReferenceCorrectionReportView {
                version: 1,
                turn_id: before.run.turn_id,
                decision,
                ordinal: before.ordinal,
                correction: n,
                reason,
            })
        },
    }
}

/// The run with one more step confirmed.
pub open spec fn confirmed(before: DriveView) -> DriveView {
    DriveView {
        run: ReferenceRunReportView {
            confirmed_steps: (before.run.confirmed_steps + 1) as u32,
            ..before.run
        },
        feedback: None,
        ..before
    }
}

/// The run after a claim of completion, and its answer.
pub open spec fn completes(
    before: DriveView,
    text: String,
    decision: Option<CompletionDecision>,
    after: DriveView,
    result: Result<AgentTurnOutput, AgentError>,
) -> bool {
    match decision {
        None => {
            &&& after == before.stopped(ReferenceStop::PolicyRejected)
            &&& result matches Err(e)
            &&& is_failed(e, "reference_completion_policy"@, "completion checker failed"@)
        },
        Some(d) => if !is_valid_decision(d@) {
            &&& after == before.stopped(ReferenceStop::PolicyRejected)
            &&& result matches Err(e)
            &&& is_failed(e, "reference_completion_policy"@, "invalid completion evidence"@)
        } else {
            let verified = before.run.business_verified || d is Verified;
            &&& after == (DriveView {
                run: ReferenceRunReportView {
                    completion: Some(d@),
                    business_verified: verified,
                    stop: match d {
                        CompletionDecision::Unverified => ReferenceStop::ModelClaimedComplete,
                        CompletionDecision::Verified { .. } => ReferenceStop::BusinessVerified,
                        CompletionDecision::Rejected { .. } => ReferenceStop::CompletionRejected,
                    },
                    ..before.run
                },
                ..before
            })
            &&& if d is Rejected {
                &&& result matches Err(e)
                &&& is_failed(
                    e,
                    "reference_completion_rejected"@,
                    "host completion check rejected the claim"@,
                )
            } else {
                &&& result matches Ok(output)
                &&& output.final_text == text
                &&& output.outcome == TurnOutcome::Completed
                &&& output.artifact.deep_view() == Some(
                    completion_artifact(verified, d@, before.task),
                )
            }
        },
    }
}

/// A question as it waits for its answer.
pub open spec fn question_of(drive: DriveView, question: Seq<char>) -> PendingQuestionView {
    PendingQuestionView {
        version: 1,
        session_id: drive.run.session_id,
        task_id: drive.task,
        turn_id: drive.run.turn_id,
        agent_key: drive.agent,
        pending_question: question,
    }
}

/// The run after a question to the user, and its answer.
pub open spec fn asks_user(
    before: DriveView,
    question: Seq<char>,
    after: DriveView,
    result: Result<AgentTurnOutput, AgentError>,
) -> bool {
    let pending = question_of(before, question);
    if !is_valid_question(pending) {
        &&& after == before.stopped(ReferenceStop::PolicyRejected)
        &&& result matches Err(e)
        &&& is_failed(
            e,
            "reference_question_limit"@,
            "pending question is invalid or too large"@,
        )
    } else {
        &&& after == before.stopped(ReferenceStop::WaitingForInput)
        &&& result matches Ok(output)
        &&& output.final_text@ == question
        &&& output.outcome == TurnOutcome::WaitingForInput
        &&& output.artifact.deep_view() == Some(waiting_artifact(pending))
    }
}

/// The run after a tool failed, and its failure.
pub open spec fn halts(before: DriveView, after: DriveView, failure: AgentError) -> bool {
    &&& after == before.stopped(ReferenceStop::ToolHalted)
    &&& is_failed(failure, "reference_tool_halted"@, "tool failed; no retry was attempted"@)
}

/// The run after a tool completed and `seen` was observed.
pub open spec fn observes(
    before: DriveView,
    name: Seq<char>,
    seen: Seq<char>,
    policy: ProgressPolicy,
    next_current: Seq<ModelMessageView>,
    after: DriveView,
    result: Result<(), AgentError>,
) -> bool {
    let times = if before.previous == Some(seen) {
        (before.run.repeated_observations + 1) as u32
    } else {
        1u32
    };
    let noted = DriveView {
        run: ReferenceRunReportView { repeated_observations: times, ..before.run },
        previous: Some(seen),
        ..before
    };
    if byte_len(seen) > policy.max_observation_bytes {
        &&& after == before.stopped(ReferenceStop::PolicyRejected)
        &&& result matches Err(e)
        &&& is_failed(
            e,
            "reference_progress_limit"@,
            "progress observation exceeds its limit"@,
        )
    } else if times >= limit_from(policy.polling_limits@, name, 0, policy.max_repetitions) {
        &&& after == noted.stopped(ReferenceStop::NoProgress)
        &&& result matches Err(e)
        &&& is_failed(
            e,
            "reference_no_progress"@,
            "repeated action and feedback without state change"@,
        )
    } else {
        &&& result is Ok
        &&& after == (DriveView { current: next_current, ..noted })
    }
}

/// What follows a confirmed step.
#[derive(Debug, PartialEq, Eq)]
pub enum DriveNext {
    /// Another step.
    Continue,
    /// The run is over, with this answer.
    Finish(Result<AgentTurnOutput, AgentError>),
}

/// The run after a confirmed step, and what follows.
pub open spec fn follows(
    before: DriveView,
    outcome: StepOutcome,
    decision: Option<CompletionDecision>,
    state: Option<Seq<char>>,
    policy: ProgressPolicy,
    next_current: Seq<ModelMessageView>,
    after: DriveView,
    next: DriveNext,
) -> bool {
    match outcome {
        StepOutcome::Final { text } => {
            &&& next matches DriveNext::Finish(answer)
            &&& completes(confirmed(before), text, decision, after, answer)
        },
        StepOutcome::AskUser { question } => {
            &&& next matches DriveNext::Finish(answer)
            &&& asks_user(confirmed(before), question@, after, answer)
        },
        StepOutcome::Halted { .. } => {
            &&& next matches DriveNext::Finish(Err(failure))
            &&& halts(confirmed(before), after, failure)
        },
        StepOutcome::ToolCompleted { execution } => {
            let call = execution.call;
            observes(
                confirmed(before),
                call.name@,
                observation_of(
                    call.name@,
                    call.arguments@,
                    execution.result.outcome@,
                    state,
                ),
                policy,
                next_current,
                after,
                match next {
                    DriveNext::Continue => Ok(()),
                    DriveNext::Finish(Err(e)) => Err(e),
                    DriveNext::Finish(Ok(_)) => Ok(()),
                },
            ) && !(next matches DriveNext::Finish(Ok(_)))
        },
    }
}

/// The claim of completion that a step made.
pub fn claim_of(outcome: &StepOutcome) -> (claim: Option<&String>)
    ensures
        match claim {
            Some(text) => *outcome == (StepOutcome::Final { text: *text }),
            None => !(*outcome is Final),
        },
{
    match outcome {
        StepOutcome::Final { text } => Some(text),
        _ => None,
    }
}

impl ReferenceDrive {
    pub open spec fn view(&self) -> DriveView {
        DriveView {
            run: self.run@,
            task: self.task_id@,
            agent: self.agent_key@,
            max_corrections: self.max_corrections,
            now: self.now,
            expires: self.expires,
            ordinal: self.ordinal,
            previous: self.previous.deep_view(),
            feedback: self.correction_feedback.deep_view(),
            current: self.current.deep_view(),
        }
    }

    /// Begins a run.
    pub fn begin(
        config: &ReferenceAgentConfig,
        session_id: &SessionId,
        turn_id: &TurnId,
        user_message: &String,
        start: DriveStart,
    ) -> (result: Result<ReferenceDrive, DriveRefusal>)
        requires
            is_workable(*config),
        ensures
            match result {
                Ok(drive) => {
                    let report = start.budget->0->Ok_0@;
                    &&& can_start(start, session_id@, config.content_ttl_ms)
                    &&& drive@.wf()
                    &&& drive@ == (DriveView {
                        run: ReferenceRunReportView {
                            task_id: Some(report.identity.task),
                            ..fresh_run(session_id@, turn_id@, config.max_steps)
                        },
                        task: report.identity.task,
                        agent: report.identity.agent,
                        max_corrections: config.max_corrections,
                        now: start.clock->0,
                        expires: (start.clock->0 + config.content_ttl_ms) as u64,
                        ordinal: 0,
                        previous: None,
                        feedback: None,
                        current: seq![ModelMessageView::User { content: user_message@ }],
                    })
                },
                Err(refusal) => {
                    &&& !can_start(start, session_id@, config.content_ttl_ms)
                    &&& refusal.run@ == (ReferenceRunReportView {
                        task_id: refusal.run@.task_id,
                        stop: refusal.run.stop,
                        ..fresh_run(session_id@, turn_id@, config.max_steps)
                    })
                    &&& refuses_start(
                        start,
                        session_id@,
                        config.content_ttl_ms,
                        refusal.run.stop,
                        refusal.run@.task_id,
                        refusal.error,
                    )
                },
            },
    {
        let mut run = ReferenceRunReport {
            version: 1,
            session_id: session_id.duplicate(),
            turn_id: turn_id.duplicate(),
            task_id: None,
            max_steps: config.max_steps,
            attempted_steps: 0,
            confirmed_steps: 0,
            stop: ReferenceStop::RuntimeFailure,
            business_verified: false,
            completion: None,
            repeated_observations: 0,
            corrections: 0,
        };
        let report = match start.budget {
            None => {
                let error = failed(
                    "reference_budget_required",
                    "a controlled Task budget is required",
                );
                return Err(DriveRefusal { run, error });
            },
            Some(Err(e)) => {
                return Err(DriveRefusal { run, error: AgentError::Budget(e) });
            },
            Some(Ok(report)) => report,
        };
        if !report.identity.session_id.is_same(session_id) {
            let error = failed("reference_identity", "Task and Session do not match");
            return Err(DriveRefusal { run, error });
        }
        run.task_id = Some(report.identity.task_id.duplicate());
        if let Some(reason) = report.stop {
            let error = AgentError::Budget(BudgetError::Stopped(reason));
            return Err(DriveRefusal { run, error });
        }
        if !start.has_model {
            let error = failed(
                "reference_model_required",
                "a controlled model gateway is required",
            );
            return Err(DriveRefusal { run, error });
        }
        if !start.history {
            run.stop = ReferenceStop::HistoryRejected;
            let error = failed("reference_history", "history projection rejected");
            return Err(DriveRefusal { run, error });
        }
        let now: u64 = match start.clock {
            Some(now) => now,
            None => {
                run.stop = ReferenceStop::ClockFailure;
                let error = failed("reference_clock", "host clock failed");
                return Err(DriveRefusal { run, error });
            },
        };
        let expires: u64 = match now.checked_add(config.content_ttl_ms) {
            Some(expires) => expires,
            None => {
                run.stop = ReferenceStop::ClockFailure;
                let error = failed("reference_clock", "content expiry overflow");
                return Err(DriveRefusal { run, error });
            },
        };
        let mut current: Vec<ModelMessage> = Vec::new();
        let message = ModelMessage::User { content: user_message.clone() };
        current.push(message);
        assert(current.deep_view() =~= seq![message@]);
        Ok(
            ReferenceDrive {
                run,
                task_id: report.identity.task_id,
                agent_key: report.identity.agent_key,
                max_corrections: config.max_corrections,
                now,
                expires,
                ordinal: 0,
                previous: None,
                correction_feedback: None,
                current,
            },
        )
    }

    /// Begins the next step.
    pub fn next_step(&mut self, start: StepStart) -> (result: Result<u32, AgentError>)
        requires
            old(self)@.wf(),
        ensures
            final(self)@.wf(),
            match result {
                Ok(ordinal) => {
                    &&& can_step(old(self)@, start)
                    &&& ordinal == old(self)@.ordinal + 1
                    &&& final(self)@ == attempted(old(self)@, start.clock->0)
                },
                Err(error) => !can_step(old(self)@, start) && refuses_step(
                    old(self)@,
                    start,
                    final(self)@,
                    error,
                ),
            },
    {
        if self.ordinal >= self.run.max_steps {
            self.run.stop = ReferenceStop::StepLimit;
            return Err(failed("reference_step_limit", "finite action step limit reached"));
        }
        self.ordinal = self.ordinal + 1;
        if start.cancelled {
            return Err(AgentError::Cancelled);
        }
        let report = match start.budget {
            Ok(report) => report,
            Err(e) => {
                return Err(AgentError::Budget(e));
            },
        };
        if let Some(reason) = report.stop {
            return Err(AgentError::Budget(BudgetError::Stopped(reason)));
        }
        let next: u64 = match start.clock {
            Some(next) => next,
            None => {
                self.run.stop = ReferenceStop::ClockFailure;
                return Err(failed("reference_clock", "host clock failed"));
            },
        };
        if next < self.now {
            self.run.stop = ReferenceStop::ClockFailure;
            return Err(failed("reference_clock", "host clock moved backwards"));
        }
        self.now = next;
        if self.now >= self.expires {
            self.run.stop = ReferenceStop::ContentExpired;
            return Err(failed("reference_content_expired", "content scope expired"));
        }
        self.run.attempted_steps = self.ordinal;
        match &start.state {
            None => {
                self.run.stop = ReferenceStop::PolicyRejected;
                return Err(failed("reference_state", "host state observation failed"));
            },
            Some(Some(version)) => {
                if !text_within(version.as_str(), 4096) {
                    self.run.stop = ReferenceStop::PolicyRejected;
                    return Err(failed("reference_state", "invalid host state version"));
                }
            },
            Some(None) => {},
        }
        Ok(self.ordinal)
    }

    /// Decides what follows a failed step. A correction needs a step and a correction
    /// that are still to be had.
    pub fn plan_failure(
        &mut self,
        error: &ContextActionError,
        parsed: &Option<Result<AgentAction, ActionError>>,
        cancelled: bool,
    ) -> (plan: FailurePlan)
        requires
            old(self)@.wf(),
        ensures
            final(self)@.wf(),
            plans(old(self)@, *error, *parsed, cancelled, final(self)@, plan),
    {
        match eligible(error, parsed) {
            Some(reason) => {
                if self.ordinal == self.run.max_steps {
                    self.run.stop = ReferenceStop::StepLimit;
                    return FailurePlan::Refuse(
                        failed("reference_step_limit", "no action steps remain for correction"),
                    );
                }
                if self.run.corrections >= self.max_corrections {
                    self.run.stop = ReferenceStop::CorrectionLimit;
                    return FailurePlan::Refuse(
                        failed("reference_correction_limit", "finite correction limit reached"),
                    );
                }
                if cancelled {
                    return FailurePlan::Refuse(AgentError::Cancelled);
                }
                FailurePlan::Charge(reason)
            },
            None => match error {
                ContextActionError::ResultView { .. } => FailurePlan::ReportAndStop,
                _ => FailurePlan::Stop,
            },
        }
    }

    /// A correction was charged, or could not be. It is reported before the next step,
    /// which is told of it.
    pub fn correct(
        &mut self,
        reason: CorrectionReason,
        decision: &DecisionContext,
        charged: Result<(), BudgetError>,
    ) -> (result: Result<ReferenceCorrectionReport, AgentError>)
        requires
            old(self)@.wf(),
            old(self)@.run.corrections < old(self)@.max_corrections,
        ensures
            final(self)@.wf(),
            corrects(old(self)@, reason, decision@, charged, final(self)@, result),
    {
        match charged {
            Err(e) => {
                return Err(AgentError::Budget(e));
            },
            Ok(_) => {},
        }
        self.run.corrections = self.run.corrections + 1;
        self.correction_feedback = Some(feedback(reason));
        Ok(
            ReferenceCorrectionReport {
                version: 1,
                turn_id: self.run.turn_id.duplicate(),
                decision: decision.duplicate(),
                ordinal: self.ordinal,
                correction: self.run.corrections,
                reason,
            },
        )
    }

    /// A step was confirmed by its report. The model is no longer told of corrections.
    pub fn confirm(&mut self)
        requires
            old(self)@.wf(),
            old(self)@.run.confirmed_steps < old(self)@.ordinal,
        ensures
            final(self)@.wf(),
            final(self)@ == confirmed(old(self)@),
    {
        self.run.confirmed_steps = self.run.confirmed_steps + 1;
        self.correction_feedback = None;
    }

    /// Ends the run with a failed step.
    pub fn fail(&mut self, error: ContextActionError) -> (failure: AgentError)
        requires
            old(self)@.wf(),
        ensures
            final(self)@.wf(),
            final(self)@ == old(self)@.stopped(final(self)@.run.stop),
            fails_as(error, final(self)@.run.stop, failure),
    {
        let (stop, failure) = action_failure(error);
        self.run.stop = stop;
        failure
    }

    /// The model claims to be done. `decision` is what the host's check makes of it, or
    /// `None` where the check failed. A rejected claim ends the turn, without retry.
    pub fn complete(&mut self, text: String, decision: Option<CompletionDecision>) -> (result: Result<
        AgentTurnOutput,
        AgentError,
    >)
        requires
            old(self)@.wf(),
        ensures
            final(self)@.wf(),
            completes(old(self)@, text, decision, final(self)@, result),
    {
        let decision = match decision {
            Some(decision) => decision,
            None => {
                self.run.stop = ReferenceStop::PolicyRejected;
                return Err(failed("reference_completion_policy", "completion checker failed"));
            },
        };
        if !decision.valid() {
            self.run.stop = ReferenceStop::PolicyRejected;
            return Err(failed("reference_completion_policy", "invalid completion evidence"));
        }
        self.run.completion = Some(decision.duplicate());
        match &decision {
            CompletionDecision::Unverified => {
                self.run.stop = ReferenceStop::ModelClaimedComplete;
            },
            CompletionDecision::Verified { .. } => {
                self.run.stop = ReferenceStop::BusinessVerified;
                self.run.business_verified = true;
            },
            CompletionDecision::Rejected { .. } => {
                self.run.stop = ReferenceStop::CompletionRejected;
                return Err(
                    failed(
                        "reference_completion_rejected",
                        "host completion check rejected the claim",
                    ),
                );
            },
        }
        let artifact = completion_json(self.run.business_verified, &decision, &self.task_id);
        Ok(
            AgentTurnOutput {
                final_text: text,
                outcome: TurnOutcome::Completed,
                artifact: Some(artifact),
            },
        )
    }

    /// The model asks the user.
    pub fn ask_user(&mut self, question: String) -> (result: Result<AgentTurnOutput, AgentError>)
        requires
            old(self)@.wf(),
        ensures
            final(self)@.wf(),
            asks_user(old(self)@, question@, final(self)@, result),
    {
        let pending = PendingQuestion {
            version: 1,
            session_id: self.run.session_id.duplicate(),
            task_id: self.task_id.duplicate(),
            turn_id: self.run.turn_id.duplicate(),
            agent_key: self.agent_key.clone(),
            pending_question: question,
        };
        if !pending.valid() {
            self.run.stop = ReferenceStop::PolicyRejected;
            return Err(
                failed("reference_question_limit", "pending question is invalid or too large"),
            );
        }
        self.run.stop = ReferenceStop::WaitingForInput;
        let artifact = waiting_json(&pending);
        Ok(
            AgentTurnOutput {
                final_text: pending.pending_question,
                outcome: TurnOutcome::WaitingForInput,
                artifact: Some(artifact),
            },
        )
    }

    /// A tool failed. It is not tried again.
    pub fn halt(&mut self) -> (failure: AgentError)
        requires
            old(self)@.wf(),
        ensures
            final(self)@.wf(),
            halts(old(self)@, final(self)@, failure),
    {
        self.run.stop = ReferenceStop::ToolHalted;
        failed("reference_tool_halted", "tool failed; no retry was attempted")
    }

    /// A tool completed: the run goes on unless the same was observed too often in a
    /// row.
    pub fn observe(
        &mut self,
        name: &String,
        arguments: &Json,
        outcome: &ToolRecordedOutcome,
        state: &Option<String>,
        policy: &ProgressPolicy,
        next_current: Vec<ModelMessage>,
    ) -> (result: Result<(), AgentError>)
        requires
            old(self)@.wf(),
            old(self)@.run.repeated_observations < old(self)@.ordinal,
        ensures
            final(self)@.wf(),
            observes(
                old(self)@,
                name@,
                observation_of(name@, arguments@, outcome@, state.deep_view()),
                *policy,
                next_current.deep_view(),
                final(self)@,
                result,
            ),
    {
        let seen = observation(name, arguments, outcome, state);
        if size(seen.as_str()) > policy.max_observation_bytes {
            self.run.stop = ReferenceStop::PolicyRejected;
            return Err(
                failed("reference_progress_limit", "progress observation exceeds its limit"),
            );
        }
        let repeated: bool = match &self.previous {
            Some(previous) => same_text(previous.as_str(), seen.as_str()),
            None => false,
        };
        self.run.repeated_observations = if repeated {
            self.run.repeated_observations + 1
        } else {
            1
        };
        self.previous = Some(seen);
        if self.run.repeated_observations >= policy.limit(name.as_str()) {
            self.run.stop = ReferenceStop::NoProgress;
            return Err(
                failed(
                    "reference_no_progress",
                    "repeated action and feedback without state change",
                ),
            );
        }
        self.current = next_current;
        Ok(())
    }
}

impl ReferenceDrive {
    /// What the model is told beside the conversation: the host's texts, and the last
    /// correction while none of the steps since was confirmed.
    pub fn system_texts(&self, config: &ReferenceAgentConfig) -> (texts: Vec<String>)
        ensures
            texts.deep_view() == config.system.deep_view() + match self@.feedback {
                Some(feedback) => seq![feedback],
                None => Seq::empty(),
            },
    {
        let mut texts: Vec<String> = config.system.duplicate();
        let ghost told = texts.deep_view();
        if let Some(feedback) = &self.correction_feedback {
            texts.push(feedback.clone());
            assert(texts.deep_view() =~= told.push(feedback@));
            assert(texts.deep_view() =~= told + seq![feedback@]);
        }
        assert(texts.deep_view() =~= told + match self@.feedback {
            Some(feedback) => seq![feedback],
            None => Seq::empty(),
        });
        texts
    }

    /// A step was reported: confirms it and decides what follows. `decision` is what the
    /// host's check made of the claim, where the step made one.
    pub fn after_step(
        &mut self,
        outcome: StepOutcome,
        decision: Option<CompletionDecision>,
        state: &Option<String>,
        policy: &ProgressPolicy,
        next_current: Vec<ModelMessage>,
    ) -> (next: DriveNext)
        requires
            old(self)@.wf(),
            old(self)@.run.confirmed_steps < old(self)@.ordinal,
            old(self)@.run.repeated_observations < old(self)@.ordinal,
        ensures
            final(self)@.wf(),
            follows(
                old(self)@,
                outcome,
                decision,
                state.deep_view(),
                *policy,
                next_current.deep_view(),
                final(self)@,
                next,
            ),
    {
        self.confirm();
        match outcome {
            StepOutcome::Final { text } => DriveNext::Finish(self.complete(text, decision)),
            StepOutcome::AskUser { question } => DriveNext::Finish(self.ask_user(question)),
            StepOutcome::Halted { .. } => DriveNext::Finish(Err(self.halt())),
            StepOutcome::ToolCompleted { execution } => {
                let seen = self.observe(
                    &execution.call.name,
                    &execution.call.arguments,
                    &execution.result.outcome,
                    state,
                    policy,
                    next_current,
                );
                match seen {
                    Ok(_) => DriveNext::Continue,
                    Err(e) => DriveNext::Finish(Err(e)),
                }
            },
        }
    }
}

/// Whether the run is reported: failures of the runtimes and cancellation keep their own
/// evidence instead.
pub fn reports_run(output: &Result<AgentTurnOutput, AgentError>) -> (answer: bool)
    ensures
        answer == (*output is Ok || (*output matches Err(e) && e is Failed)),
{
    match output {
        Ok(_) => true,
        Err(AgentError::Failed(_)) => true,
        Err(_) => false,
    }
}

/// A run attempts at most as many steps as it may, corrects at most as often as it may,
/// and never counts a repetition that it did not see.
pub proof fn runs_are_bounded(drive: DriveView)
    requires
        drive.wf(),
    ensures
        drive.run.attempted_steps <= drive.run.max_steps,
        drive.run.confirmed_steps <= drive.run.max_steps,
        drive.run.corrections <= drive.max_corrections,
        drive.run.repeated_observations <= drive.run.max_steps,
{
}

/// The run goes on: nothing has stopped it, and nothing is verified yet.
pub open spec fn is_running(drive: DriveView) -> bool {
    &&& drive.wf()
    &&& drive.run.stop == ReferenceStop::RuntimeFailure
    &&& !drive.run.business_verified
}

/// One event of a run that goes on.
pub open spec fn goes_on(before: DriveView, after: DriveView) -> bool {
    ||| exists|now: u64| before.ordinal < before.run.max_steps && after == #[trigger] attempted(before, now)
    ||| exists|reason: CorrectionReason, decision: DecisionContextView, result: Result<
        ReferenceCorrectionReport,
        AgentError,
    >|
        before.run.corrections < before.max_corrections && #[trigger] corrects(
            before,
            reason,
            decision,
            Ok(()),
            after,
            result,
        )
    ||| before.run.confirmed_steps < before.ordinal && after == confirmed(before)
    ||| exists|
        outcome: StepOutcome,
        decision: Option<CompletionDecision>,
        state: Option<Seq<char>>,
        policy: ProgressPolicy,
        next_current: Seq<ModelMessageView>,
    |
        before.run.confirmed_steps < before.ordinal && before.run.repeated_observations
            < before.ordinal && #[trigger] follows(
            before,
            outcome,
            decision,
            state,
            policy,
            next_current,
            after,
            DriveNext::Continue,
        )
}

/// The last event of a run, and its answer: the next step is refused, a failed step is
/// not corrected, a correction cannot be charged, an event cannot be recorded, or a
/// confirmed step ends the run.
pub open spec fn ends(before: DriveView, after: DriveView, answer: Result<AgentTurnOutput, AgentError>) -> bool {
    ||| exists|start: StepStart| answer is Err && #[trigger] refuses_step(before, start, after, answer->Err_0)
    ||| exists|error: ContextActionError, parsed: Option<Result<AgentAction, ActionError>>, cancelled: bool|
        answer is Err && #[trigger] plans(
            before,
            error,
            parsed,
            cancelled,
            after,
            FailurePlan::Refuse(answer->Err_0),
        )
    ||| exists|error: ContextActionError|
        answer is Err && after == before.stopped(after.run.stop) && #[trigger] fails_as(
            error,
            after.run.stop,
            answer->Err_0,
        )
    ||| answer is Err && after == before
    ||| exists|
        outcome: StepOutcome,
        decision: Option<CompletionDecision>,
        state: Option<Seq<char>>,
        policy: ProgressPolicy,
        next_current: Seq<ModelMessageView>,
    |
        before.run.confirmed_steps < before.ordinal && before.run.repeated_observations
            < before.ordinal && #[trigger] follows(
            before,
            outcome,
            decision,
            state,
            policy,
            next_current,
            after,
            DriveNext::Finish(answer),
        )
}

/// A run that goes on has not been stopped, and has verified nothing.
pub proof fn running_goes_on(before: DriveView, after: DriveView)
    requires
        is_running(before),
        goes_on(before, after),
    ensures
        is_running(after),
{
}

/// A run answers exactly where it stops because the model claims to be done, the host
/// verified the claim, or the user is asked; and its report calls the work verified
/// exactly where the host verified the claim.
pub proof fn answers_match_stops(
    before: DriveView,
    after: DriveView,
    answer: Result<AgentTurnOutput, AgentError>,
)
    requires
        is_running(before),
        ends(before, after, answer),
    ensures
        answer is Ok <==> (after.run.stop == ReferenceStop::ModelClaimedComplete
            || after.run.stop == ReferenceStop::BusinessVerified
            || after.run.stop == ReferenceStop::WaitingForInput),
        after.run.business_verified <==> after.run.stop == ReferenceStop::BusinessVerified,
{
}

/// A run that cannot begin stops for none of the reasons that give an answer.
pub proof fn refused_runs_have_no_answer(
    start: DriveStart,
    session: Seq<char>,
    ttl: u64,
    stop: ReferenceStop,
    task: Option<Seq<char>>,
    error: AgentError,
)
    requires
        refuses_start(start, session, ttl, stop, task, error),
    ensures
        stop == ReferenceStop::RuntimeFailure || stop == ReferenceStop::HistoryRejected || stop
            == ReferenceStop::ClockFailure,
{
}

} // verus!
