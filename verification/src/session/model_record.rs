//! Recorded model requests and their results.

use crate::generation::{
    DecisionContext, DecisionContextView, GenerationLimits, GenerationPartial,
    GenerationPartialView, GenerationRequest, GenerationRequestView, GenerationResponse,
    GenerationResponseView, ModelCallMode, ModelFailureCategory, ModelRecordVersion,
};
use crate::id::ModelCallId;
use crate::record::Record;
use crate::time::Duration;
use vstd::prelude::*;

verus! {

/// Why a stored timeout is no timeout.
#[derive(Clone, Copy, Debug, PartialEq, Eq, Structural)]
pub enum ModelTimeoutError {
    NanosecondsOutOfRange { nanos: u32 },
}

/// Exact timeout as it is recorded.
#[derive(Clone, Copy, Debug, PartialEq, Eq, Structural)]
pub struct ModelTimeout {
    secs: u64,
    nanos: u32,
}

impl ModelTimeout {
    pub closed spec fn spec_secs(self) -> u64 {
        self.secs
    }

    pub closed spec fn spec_nanos(self) -> u32 {
        self.nanos
    }

    #[verifier::type_invariant]
    pub closed spec fn normal(self) -> bool {
        self.nanos < 1_000_000_000
    }

    pub fn try_new(secs: u64, nanos: u32) -> (result: Result<Self, ModelTimeoutError>)
        ensures
            match result {
                Ok(timeout) => nanos < 1_000_000_000 && timeout.spec_secs() == secs
                    && timeout.spec_nanos() == nanos,
                Err(e) => nanos >= 1_000_000_000 && e
                    == (ModelTimeoutError::NanosecondsOutOfRange { nanos }),
            },
    {
        if nanos >= 1_000_000_000 {
            return Err(ModelTimeoutError::NanosecondsOutOfRange { nanos });
        }
        Ok(ModelTimeout { secs, nanos })
    }

    pub fn from_duration(duration: Duration) -> (timeout: Self)
        ensures
            timeout.spec_secs() == duration.spec_secs(),
            timeout.spec_nanos() == duration.spec_nanos(),
            timeout.spec_nanos() < 1_000_000_000,
    {
        ModelTimeout { secs: duration.secs(), nanos: duration.nanos() }
    }

    pub fn secs(&self) -> (secs: u64)
        ensures
            secs == self.spec_secs(),
    {
        self.secs
    }

    pub fn nanos(&self) -> (nanos: u32)
        ensures
            nanos == self.spec_nanos(),
            nanos < 1_000_000_000,
    {
        proof {
            use_type_invariant(self);
        }
        self.nanos
    }
}

impl DeepView for ModelTimeout {
    type V = ModelTimeout;

    open spec fn deep_view(&self) -> ModelTimeout {
        *self
    }
}

impl Record for ModelTimeout {
    fn is_same(&self, other: &Self) -> (answer: bool) {
        *self == *other
    }

    fn duplicate(&self) -> (copy: Self) {
        *self
    }
}

/// Effective controlled options supplied unchanged if execution reaches the raw adapter.
/// A request record alone does not prove that provider execution began.
#[derive(Debug, PartialEq, Eq)]
pub struct ModelRequestOptions {
    pub context: Option<DecisionContext>,
    pub max_tokens: Option<u32>,
    pub timeout: Option<ModelTimeout>,
    pub limits: GenerationLimits,
}

pub struct ModelRequestOptionsView {
    pub context: Option<DecisionContextView>,
    pub max_tokens: Option<u32>,
    pub timeout: Option<ModelTimeout>,
    pub limits: GenerationLimits,
}

impl ModelRequestOptions {
    pub open spec fn view(&self) -> ModelRequestOptionsView {
        ModelRequestOptionsView {
            context: self.context.deep_view(),
            max_tokens: self.max_tokens.deep_view(),
            timeout: self.timeout.deep_view(),
            limits: self.limits,
        }
    }
}

impl DeepView for ModelRequestOptions {
    type V = ModelRequestOptionsView;

    open spec fn deep_view(&self) -> ModelRequestOptionsView {
        self@
    }
}

impl Record for ModelRequestOptions {
    fn is_same(&self, other: &Self) -> (answer: bool) {
        self.context.is_same(&other.context)
            && self.max_tokens.is_same(&other.max_tokens)
            && self.timeout.is_same(&other.timeout)
            && self.limits == other.limits
    }

    fn duplicate(&self) -> (copy: Self) {
        ModelRequestOptions {
            context: self.context.duplicate(),
            max_tokens: self.max_tokens.duplicate(),
            timeout: self.timeout.duplicate(),
            limits: self.limits,
        }
    }
}

/// Canonical request recorded before the raw model adapter is invoked.
#[derive(Debug, PartialEq, Eq)]
pub struct ModelRequest {
    pub version: ModelRecordVersion,
    pub call_id: ModelCallId,
    pub mode: ModelCallMode,
    pub input: GenerationRequest,
    pub options: ModelRequestOptions,
}

pub struct ModelRequestView {
    pub version: ModelRecordVersion,
    pub call_id: Seq<char>,
    pub mode: ModelCallMode,
    pub input: GenerationRequestView,
    pub options: ModelRequestOptionsView,
}

impl ModelRequest {
    pub open spec fn view(&self) -> ModelRequestView {
        ModelRequestView {
            version: self.version,
            call_id: self.call_id@,
            mode: self.mode,
            input: self.input.deep_view(),
            options: self.options.deep_view(),
        }
    }
}

impl DeepView for ModelRequest {
    type V = ModelRequestView;

    open spec fn deep_view(&self) -> ModelRequestView {
        self@
    }
}

impl Record for ModelRequest {
    fn is_same(&self, other: &Self) -> (answer: bool) {
        self.version == other.version
            && self.call_id.is_same(&other.call_id)
            && self.mode == other.mode
            && self.input.is_same(&other.input)
            && self.options.is_same(&other.options)
    }

    fn duplicate(&self) -> (copy: Self) {
        ModelRequest {
            version: self.version,
            call_id: self.call_id.duplicate(),
            mode: self.mode,
            input: self.input.duplicate(),
            options: self.options.duplicate(),
        }
    }
}

/// Replayable terminal outcome of one canonical model call.
#[allow(inconsistent_fields)]
#[derive(Debug, PartialEq, Eq)]
pub enum ModelRecordedOutcome {
    Succeeded { response: GenerationResponse },
    Failed { category: ModelFailureCategory, code: String, message: String, retryable: bool, upstream_status: Option<u16>, partial: GenerationPartial },
}

#[allow(inconsistent_fields)]
pub enum ModelRecordedOutcomeView {
    Succeeded { response: GenerationResponseView },
    Failed { category: ModelFailureCategory, code: Seq<char>, message: Seq<char>, retryable: bool, upstream_status: Option<u16>, partial: GenerationPartialView },
}

impl ModelRecordedOutcome {
    pub open spec fn view(&self) -> ModelRecordedOutcomeView {
        match self {
            ModelRecordedOutcome::Succeeded { response } => ModelRecordedOutcomeView::Succeeded {
                response: response.deep_view(),
            },
            ModelRecordedOutcome::Failed { category, code, message, retryable, upstream_status, partial } => ModelRecordedOutcomeView::Failed {
                category: *category,
                code: code@,
                message: message@,
                retryable: *retryable,
                upstream_status: upstream_status.deep_view(),
                partial: partial.deep_view(),
            },
        }
    }
}

impl DeepView for ModelRecordedOutcome {
    type V = ModelRecordedOutcomeView;

    open spec fn deep_view(&self) -> ModelRecordedOutcomeView {
        self@
    }
}

impl Record for ModelRecordedOutcome {
    fn is_same(&self, other: &Self) -> (answer: bool) {
        match (self, other) {
            (ModelRecordedOutcome::Succeeded { response }, ModelRecordedOutcome::Succeeded { response: other_response }) => response.is_same(other_response),
            (ModelRecordedOutcome::Failed { category, code, message, retryable, upstream_status, partial }, ModelRecordedOutcome::Failed { category: other_category, code: other_code, message: other_message, retryable: other_retryable, upstream_status: other_upstream_status, partial: other_partial }) => *category == *other_category && code.is_same(other_code) && message.is_same(other_message) && *retryable == *other_retryable && upstream_status.is_same(other_upstream_status) && partial.is_same(other_partial),
            _ => false,
        }
    }

    fn duplicate(&self) -> (copy: Self) {
        match self {
            ModelRecordedOutcome::Succeeded { response } => ModelRecordedOutcome::Succeeded {
                response: response.duplicate(),
            },
            ModelRecordedOutcome::Failed { category, code, message, retryable, upstream_status, partial } => ModelRecordedOutcome::Failed {
                category: *category,
                code: code.duplicate(),
                message: message.duplicate(),
                retryable: *retryable,
                upstream_status: upstream_status.duplicate(),
                partial: partial.duplicate(),
            },
        }
    }
}

/// Canonical result paired to one [`ModelRequest`].
#[derive(Debug, PartialEq, Eq)]
pub struct ModelResult {
    pub version: ModelRecordVersion,
    pub call_id: ModelCallId,
    pub outcome: ModelRecordedOutcome,
}

pub struct ModelResultView {
    pub version: ModelRecordVersion,
    pub call_id: Seq<char>,
    pub outcome: ModelRecordedOutcomeView,
}

impl ModelResult {
    pub open spec fn view(&self) -> ModelResultView {
        ModelResultView {
            version: self.version,
            call_id: self.call_id@,
            outcome: self.outcome.deep_view(),
        }
    }
}

impl DeepView for ModelResult {
    type V = ModelResultView;

    open spec fn deep_view(&self) -> ModelResultView {
        self@
    }
}

impl Record for ModelResult {
    fn is_same(&self, other: &Self) -> (answer: bool) {
        self.version == other.version
            && self.call_id.is_same(&other.call_id)
            && self.outcome.is_same(&other.outcome)
    }

    fn duplicate(&self) -> (copy: Self) {
        ModelResult {
            version: self.version,
            call_id: self.call_id.duplicate(),
            outcome: self.outcome.duplicate(),
        }
    }
}

} // verus!
