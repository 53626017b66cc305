//! Recorded tool calls, their results and the operations they carry out.

use crate::generation::{ActionContext, ActionContextView};
use crate::id::{EventId, TaskId};
use crate::json::Json;
use crate::record::Record;
use vstd::prelude::*;

verus! {

/// What calling a tool twice may do.
#[derive(Clone, Copy, Debug, PartialEq, Eq, Structural)]
pub enum ToolEffect {
    Unknown,
    ReadOnly,
    /// The provider durably deduplicates identical keys and rejects changed inputs.
    Idempotent,
    NonIdempotent,
}

impl DeepView for ToolEffect {
    type V = ToolEffect;

    open spec fn deep_view(&self) -> ToolEffect {
        *self
    }
}

impl Record for ToolEffect {
    fn is_same(&self, other: &Self) -> (answer: bool) {
        *self == *other
    }

    fn duplicate(&self) -> (copy: Self) {
        *self
    }
}

/// Host-owned declaration of a tool's side effects.
#[derive(Debug, PartialEq, Eq)]
pub struct ToolEffectContract {
    pub effect: ToolEffect,
    /// Host-maintained revision of the effect and of the input and result contract.
    pub revision: String,
}

pub struct ToolEffectContractView {
    pub effect: ToolEffect,
    pub revision: Seq<char>,
}

impl ToolEffectContract {
    pub open spec fn view(&self) -> ToolEffectContractView {
        ToolEffectContractView {
            effect: self.effect,
            revision: self.revision@,
        }
    }
}

impl DeepView for ToolEffectContract {
    type V = ToolEffectContractView;

    open spec fn deep_view(&self) -> ToolEffectContractView {
        self@
    }
}

impl Record for ToolEffectContract {
    fn is_same(&self, other: &Self) -> (answer: bool) {
        self.effect == other.effect
            && self.revision.is_same(&other.revision)
    }

    fn duplicate(&self) -> (copy: Self) {
        ToolEffectContract {
            effect: self.effect,
            revision: self.revision.duplicate(),
        }
    }
}

impl Default for ToolEffectContract {
    fn default() -> (contract: Self)
        ensures
            contract.effect == ToolEffect::Unknown,
            contract.revision@ == "unspecified"@,
    {
        ToolEffectContract { effect: ToolEffect::Unknown, revision: "unspecified".to_owned() }
    }
}

#[derive(Clone, Copy, Debug, PartialEq, Eq, Structural)]
pub enum ToolReviewOutcome {
    NotExecuted,
    Completed,
    Uncertain,
}

impl DeepView for ToolReviewOutcome {
    type V = ToolReviewOutcome;

    open spec fn deep_view(&self) -> ToolReviewOutcome {
        *self
    }
}

impl Record for ToolReviewOutcome {
    fn is_same(&self, other: &Self) -> (answer: bool) {
        *self == *other
    }

    fn duplicate(&self) -> (copy: Self) {
        *self
    }
}

/// Trusted host evidence, not model-supplied authorization or synthesized output.
#[derive(Debug, PartialEq, Eq)]
pub struct ToolRetryReview {
    pub actor: String,
    pub evidence: String,
    pub outcome: ToolReviewOutcome,
}

pub struct ToolRetryReviewView {
    pub actor: Seq<char>,
    pub evidence: Seq<char>,
    pub outcome: ToolReviewOutcome,
}

impl ToolRetryReview {
    pub open spec fn view(&self) -> ToolRetryReviewView {
        ToolRetryReviewView {
            actor: self.actor@,
            evidence: self.evidence@,
            outcome: self.outcome,
        }
    }
}

impl DeepView for ToolRetryReview {
    type V = ToolRetryReviewView;

    open spec fn deep_view(&self) -> ToolRetryReviewView {
        self@
    }
}

impl Record for ToolRetryReview {
    fn is_same(&self, other: &Self) -> (answer: bool) {
        self.actor.is_same(&other.actor)
            && self.evidence.is_same(&other.evidence)
            && self.outcome == other.outcome
    }

    fn duplicate(&self) -> (copy: Self) {
        ToolRetryReview {
            actor: self.actor.duplicate(),
            evidence: self.evidence.duplicate(),
            outcome: self.outcome,
        }
    }
}

/// The attempt that another attempt repeats.
#[derive(Debug, PartialEq, Eq)]
pub struct ToolRetryAudit {
    pub call_id: String,
    pub event_id: EventId,
    pub review: Option<ToolRetryReview>,
}

pub struct ToolRetryAuditView {
    pub call_id: Seq<char>,
    pub event_id: Seq<char>,
    pub review: Option<ToolRetryReviewView>,
}

impl ToolRetryAudit {
    pub open spec fn view(&self) -> ToolRetryAuditView {
        ToolRetryAuditView {
            call_id: self.call_id@,
            event_id: self.event_id@,
            review: self.review.deep_view(),
        }
    }
}

impl DeepView for ToolRetryAudit {
    type V = ToolRetryAuditView;

    open spec fn deep_view(&self) -> ToolRetryAuditView {
        self@
    }
}

impl Record for ToolRetryAudit {
    fn is_same(&self, other: &Self) -> (answer: bool) {
        self.call_id.is_same(&other.call_id)
            && self.event_id.is_same(&other.event_id)
            && self.review.is_same(&other.review)
    }

    fn duplicate(&self) -> (copy: Self) {
        ToolRetryAudit {
            call_id: self.call_id.duplicate(),
            event_id: self.event_id.duplicate(),
            review: self.review.duplicate(),
        }
    }
}

/// Persisted identity of a logical operation.
#[derive(Debug, PartialEq, Eq)]
pub struct ToolOperation {
    pub task_id: TaskId,
    /// Stable across explicitly approved attempts, distinct from the per-attempt call ID.
    pub key: String,
    pub contract: ToolEffectContract,
    pub retry: Option<ToolRetryAudit>,
}

pub struct ToolOperationView {
    pub task_id: Seq<char>,
    pub key: Seq<char>,
    pub contract: ToolEffectContractView,
    pub retry: Option<ToolRetryAuditView>,
}

impl ToolOperation {
    pub open spec fn view(&self) -> ToolOperationView {
        ToolOperationView {
            task_id: self.task_id@,
            key: self.key@,
            contract: self.contract.deep_view(),
            retry: self.retry.deep_view(),
        }
    }
}

impl DeepView for ToolOperation {
    type V = ToolOperationView;

    open spec fn deep_view(&self) -> ToolOperationView {
        self@
    }
}

impl Record for ToolOperation {
    fn is_same(&self, other: &Self) -> (answer: bool) {
        self.task_id.is_same(&other.task_id)
            && self.key.is_same(&other.key)
            && self.contract.is_same(&other.contract)
            && self.retry.is_same(&other.retry)
    }

    fn duplicate(&self) -> (copy: Self) {
        ToolOperation {
            task_id: self.task_id.duplicate(),
            key: self.key.duplicate(),
            contract: self.contract.duplicate(),
            retry: self.retry.duplicate(),
        }
    }
}

/// One recorded tool invocation.
#[derive(Debug, PartialEq, Eq)]
pub struct ToolCall {
    pub action: Option<ActionContext>,
    pub id: String,
    pub name: String,
    pub arguments: Json,
    /// Absent in records of old calls.
    pub operation: Option<ToolOperation>,
}

pub struct ToolCallView {
    pub action: Option<ActionContextView>,
    pub id: Seq<char>,
    pub name: Seq<char>,
    pub arguments: Seq<char>,
    pub operation: Option<ToolOperationView>,
}

impl ToolCall {
    pub open spec fn view(&self) -> ToolCallView {
        ToolCallView {
            action: self.action.deep_view(),
            id: self.id@,
            name: self.name@,
            arguments: self.arguments@,
            operation: self.operation.deep_view(),
        }
    }
}

impl DeepView for ToolCall {
    type V = ToolCallView;

    open spec fn deep_view(&self) -> ToolCallView {
        self@
    }
}

impl Record for ToolCall {
    fn is_same(&self, other: &Self) -> (answer: bool) {
        self.action.is_same(&other.action)
            && self.id.is_same(&other.id)
            && self.name.is_same(&other.name)
            && self.arguments.is_same(&other.arguments)
            && self.operation.is_same(&other.operation)
    }

    fn duplicate(&self) -> (copy: Self) {
        ToolCall {
            action: self.action.duplicate(),
            id: self.id.duplicate(),
            name: self.name.duplicate(),
            arguments: self.arguments.duplicate(),
            operation: self.operation.duplicate(),
        }
    }
}

/// Stable semantic category for a failed tool invocation.
#[derive(Clone, Copy, Debug, PartialEq, Eq, Structural)]
pub enum ToolFailureCategory {
    Unavailable,
    InvalidArguments,
    Denied,
    GuardFault,
    ApprovalUnavailable,
    ApprovalDenied,
    ApprovalFault,
    Timeout,
    Cancelled,
    BodyFailure,
    BodyPanic,
    OutputLimit,
    /// The budget stopped the operation.
    Budget,
}

impl DeepView for ToolFailureCategory {
    type V = ToolFailureCategory;

    open spec fn deep_view(&self) -> ToolFailureCategory {
        *self
    }
}

impl Record for ToolFailureCategory {
    fn is_same(&self, other: &Self) -> (answer: bool) {
        *self == *other
    }

    fn duplicate(&self) -> (copy: Self) {
        *self
    }
}

/// Replayable result of one canonical tool invocation.
#[allow(inconsistent_fields)]
#[derive(Debug, PartialEq, Eq)]
pub enum ToolRecordedOutcome {
    Succeeded { output: String },
    Failed { category: ToolFailureCategory, code: String, message: String, retryable: bool },
}

#[allow(inconsistent_fields)]
pub enum ToolRecordedOutcomeView {
    Succeeded { output: Seq<char> },
    Failed { category: ToolFailureCategory, code: Seq<char>, message: Seq<char>, retryable: bool },
}

impl ToolRecordedOutcome {
    pub open spec fn view(&self) -> ToolRecordedOutcomeView {
        match self {
            ToolRecordedOutcome::Succeeded { output } => ToolRecordedOutcomeView::Succeeded {
                output: output@,
            },
            ToolRecordedOutcome::Failed { category, code, message, retryable } => ToolRecordedOutcomeView::Failed {
                category: *category,
                code: code@,
                message: message@,
                retryable: *retryable,
            },
        }
    }
}

impl DeepView for ToolRecordedOutcome {
    type V = ToolRecordedOutcomeView;

    open spec fn deep_view(&self) -> ToolRecordedOutcomeView {
        self@
    }
}

impl Record for ToolRecordedOutcome {
    fn is_same(&self, other: &Self) -> (answer: bool) {
        match (self, other) {
            (ToolRecordedOutcome::Succeeded { output }, ToolRecordedOutcome::Succeeded { output: other_output }) => output.is_same(other_output),
            (ToolRecordedOutcome::Failed { category, code, message, retryable }, ToolRecordedOutcome::Failed { category: other_category, code: other_code, message: other_message, retryable: other_retryable }) => *category == *other_category && code.is_same(other_code) && message.is_same(other_message) && *retryable == *other_retryable,
            _ => false,
        }
    }

    fn duplicate(&self) -> (copy: Self) {
        match self {
            ToolRecordedOutcome::Succeeded { output } => ToolRecordedOutcome::Succeeded {
                output: output.duplicate(),
            },
            ToolRecordedOutcome::Failed { category, code, message, retryable } => ToolRecordedOutcome::Failed {
                category: *category,
                code: code.duplicate(),
                message: message.duplicate(),
                retryable: *retryable,
            },
        }
    }
}

/// Result paired to one [`ToolCall`].
#[derive(Debug, PartialEq, Eq)]
pub struct ToolResult {
    pub call_id: String,
    pub outcome: ToolRecordedOutcome,
}

pub struct ToolResultView {
    pub call_id: Seq<char>,
    pub outcome: ToolRecordedOutcomeView,
}

impl ToolResult {
    pub open spec fn view(&self) -> ToolResultView {
        ToolResultView {
            call_id: self.call_id@,
            outcome: self.outcome.deep_view(),
        }
    }
}

impl DeepView for ToolResult {
    type V = ToolResultView;

    open spec fn deep_view(&self) -> ToolResultView {
        self@
    }
}

impl Record for ToolResult {
    fn is_same(&self, other: &Self) -> (answer: bool) {
        self.call_id.is_same(&other.call_id)
            && self.outcome.is_same(&other.outcome)
    }

    fn duplicate(&self) -> (copy: Self) {
        ToolResult {
            call_id: self.call_id.duplicate(),
            outcome: self.outcome.duplicate(),
        }
    }
}

} // verus!
