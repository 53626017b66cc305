//! Failures of model runtimes and their bounded aggregates.

use crate::budget::model::BudgetError;
use crate::generation::{GenerationResponse, ModelProtocolError};
use crate::json::{decimal, decimal_text};
use crate::session::error::SessionRuntimeError;
use crate::session::event::SessionEventKind;
use crate::session::model_record::{ModelRequest, ModelResult};
use vstd::prelude::*;

verus! {

/// Errors of a model, classified without regard to transport.
#[derive(Debug, PartialEq, Eq)]
pub enum LlmError {
    Upstream { status: u16, body: String },
    Timeout,
    StreamParse(String),
    Protocol(ModelProtocolError),
    /// Cancellation is an error of its own, not a way around errors.
    Cancelled,
    Adapter(String),
}

/// The only canonical event families a controlled model runtime may request.
#[derive(Debug, PartialEq, Eq)]
pub enum ModelRecord {
    Request(ModelRequest),
    Result(ModelResult),
}

impl ModelRecord {
    pub fn into_session_event_kind(self) -> (kind: SessionEventKind)
        ensures
            kind == match self {
                ModelRecord::Request(request) => SessionEventKind::ModelRequest { request },
                ModelRecord::Result(result) => SessionEventKind::ModelResult { result },
            },
    {
        match self {
            ModelRecord::Request(request) => SessionEventKind::ModelRequest { request },
            ModelRecord::Result(result) => SessionEventKind::ModelResult { result },
        }
    }
}

/// Host-only settlement mode for accepted model work.
#[derive(Clone, Copy, Debug, PartialEq, Eq, Structural)]
pub enum ModelFinishMode {
    Graceful,
    Cancel,
}

/// Which canonical model event could not be recorded.
#[derive(Clone, Copy, Debug, PartialEq, Eq, Structural)]
pub enum ModelRecordStage {
    Request,
    Result,
}

/// Why a canonical model record attempt did not produce confirmed evidence.
#[derive(Debug, PartialEq, Eq)]
pub enum ModelRecordFailure {
    Session(SessionRuntimeError),
    RecorderPanicked,
    /// The event does not match its budget binding.
    Budget(BudgetError),
}

impl ModelRecordFailure {
    pub fn source_error(&self) -> (error: Option<&SessionRuntimeError>)
        ensures
            match (*self, error) {
                (ModelRecordFailure::Session(source), Some(e)) => *e == source,
                (ModelRecordFailure::Session(_), None) => false,
                (_, e) => e is None,
            },
    {
        match self {
            ModelRecordFailure::Session(source) => Some(source),
            _ => None,
        }
    }
}

/// Exact evidence retained when an accepted model operation cannot be canonically closed.
#[derive(Debug, PartialEq, Eq)]
pub struct ModelClosureFailure {
    pub request: ModelRequest,
    pub result: Option<ModelResult>,
    pub stage: ModelRecordStage,
    pub source: ModelRecordFailure,
}

impl ModelClosureFailure {
    pub fn request_evidence(&self) -> (value: &ModelRequest)
        ensures
            *value == self.request,
    {
        &self.request
    }

    pub fn result_evidence(&self) -> (value: Option<&ModelResult>)
        ensures
            match value {
                Some(value) => self.result == Some(*value),
                None => self.result is None,
            },
    {
        self.result.as_ref()
    }

    pub fn record_failure(&self) -> (value: &ModelRecordFailure)
        ensures
            *value == self.source,
    {
        &self.source
    }
}

impl ModelClosureFailure {
    pub fn request(request: ModelRequest, source: SessionRuntimeError) -> (failure: Self)
        ensures
            failure == (ModelClosureFailure {
                request,
                result: None,
                stage: ModelRecordStage::Request,
                source: ModelRecordFailure::Session(source),
            }),
    {
        ModelClosureFailure {
            request,
            result: None,
            stage: ModelRecordStage::Request,
            source: ModelRecordFailure::Session(source),
        }
    }

    pub fn result(request: ModelRequest, result: ModelResult, source: SessionRuntimeError) -> (failure: Self)
        ensures
            failure == (ModelClosureFailure {
                request,
                result: Some(result),
                stage: ModelRecordStage::Result,
                source: ModelRecordFailure::Session(source),
            }),
    {
        ModelClosureFailure {
            request,
            result: Some(result),
            stage: ModelRecordStage::Result,
            source: ModelRecordFailure::Session(source),
        }
    }

    pub fn request_recorder_panicked(request: ModelRequest) -> (failure: Self)
        ensures
            failure == (ModelClosureFailure {
                request,
                result: None,
                stage: ModelRecordStage::Request,
                source: ModelRecordFailure::RecorderPanicked,
            }),
    {
        ModelClosureFailure {
            request,
            result: None,
            stage: ModelRecordStage::Request,
            source: ModelRecordFailure::RecorderPanicked,
        }
    }

    pub fn result_recorder_panicked(request: ModelRequest, result: ModelResult) -> (failure: Self)
        ensures
            failure == (ModelClosureFailure {
                request,
                result: Some(result),
                stage: ModelRecordStage::Result,
                source: ModelRecordFailure::RecorderPanicked,
            }),
    {
        ModelClosureFailure {
            request,
            result: Some(result),
            stage: ModelRecordStage::Result,
            source: ModelRecordFailure::RecorderPanicked,
        }
    }

    pub fn request_budget_failure(request: ModelRequest, source: BudgetError) -> (failure: Self)
        ensures
            failure == (ModelClosureFailure {
                request,
                result: None,
                stage: ModelRecordStage::Request,
                source: ModelRecordFailure::Budget(source),
            }),
    {
        ModelClosureFailure {
            request,
            result: None,
            stage: ModelRecordStage::Request,
            source: ModelRecordFailure::Budget(source),
        }
    }

    pub fn result_budget_failure(request: ModelRequest, result: ModelResult, source: BudgetError) -> (failure: Self)
        ensures
            failure == (ModelClosureFailure {
                request,
                result: Some(result),
                stage: ModelRecordStage::Result,
                source: ModelRecordFailure::Budget(source),
            }),
    {
        ModelClosureFailure {
            request,
            result: Some(result),
            stage: ModelRecordStage::Result,
            source: ModelRecordFailure::Budget(source),
        }
    }

    pub fn stage(&self) -> (stage: ModelRecordStage)
        ensures
            stage == self.stage,
    {
        self.stage
    }

    pub fn source_error(&self) -> (error: Option<&SessionRuntimeError>)
        ensures
            match (self.source, error) {
                (ModelRecordFailure::Session(source), Some(e)) => *e == source,
                (ModelRecordFailure::Session(_), None) => false,
                (_, e) => e is None,
            },
    {
        self.source.source_error()
    }
}

#[derive(Clone, Copy, Debug, PartialEq, Eq, Structural)]
pub enum ModelOverloadKind {
    QueueFull,
    InflightFull,
}

/// Turn binding or admission failure from the selected model runtime.
#[derive(Debug, PartialEq, Eq)]
pub enum ModelRuntimeError {
    Budget(BudgetError),
    Stopped,
    TurnClosed,
    Overloaded { capacity: ModelOverloadKind },
    RequestTooLarge { limit_bytes: usize },
    QueueTimeout,
    /// The timeout exceeds the executor clock range.
    InvalidTimeout,
    Internal { code: String, message: String },
}

/// Controlled model call failure.
#[derive(Debug, PartialEq, Eq)]
pub enum ModelGatewayError {
    Model(LlmError),
    Runtime(ModelRuntimeError),
    /// The answer was complete but broke the schema it had to satisfy.
    SchemaRejected { response: GenerationResponse },
    Recording(Box<ModelClosureFailure>),
    Internal { code: String, message: String },
}

pub const MAX_MODEL_TURN_FAILURES: usize = 16;

/// Bounded aggregate returned only after model turn admission has closed and drained.
#[derive(Debug, PartialEq, Eq)]
pub struct ModelTurnFailure {
    failures: Vec<ModelGatewayError>,
    omitted: usize,
}

/// A semantic or admission error cannot be presented as host drain evidence.
#[derive(Clone, Copy, Debug, PartialEq, Eq, Structural)]
pub struct InvalidModelTurnFailure;

/// An error that shows that accepted work could not be closed.
pub open spec fn is_closure_error(error: ModelGatewayError) -> bool {
    error is Recording || error is Internal
}

/// Whether an error shows that accepted work could not be closed.
pub fn is_closure_failure(error: &ModelGatewayError) -> (answer: bool)
    ensures
        answer == is_closure_error(*error),
{
    match error {
        ModelGatewayError::Recording(_) | ModelGatewayError::Internal { .. } => true,
        _ => false,
    }
}

impl ModelTurnFailure {
    pub closed spec fn kept(&self) -> Seq<ModelGatewayError> {
        self.failures@
    }

    pub closed spec fn left_out(&self) -> usize {
        self.omitted
    }

    /// How many failures there were, as far as a count can tell.
    pub open spec fn total(&self) -> int {
        if self.kept().len() + self.left_out() > usize::MAX {
            usize::MAX as int
        } else {
            self.kept().len() + self.left_out()
        }
    }

    pub fn from_failures(failures: Vec<ModelGatewayError>) -> (result: Result<
        Option<Self>,
        InvalidModelTurnFailure,
    >)
        ensures
            aggregates(failures@, 0, result),
    {
        Self::from_bounded_failures(failures, 0)
    }

    /// Build an aggregate from retained closure failures plus a count whose details
    /// were omitted.
    pub fn from_bounded_failures(failures: Vec<ModelGatewayError>, omitted: usize) -> (result: Result<
        Option<Self>,
        InvalidModelTurnFailure,
    >)
        ensures
            aggregates(failures@, omitted, result),
    {
        let mut i: usize = 0;
        while i < failures.len()
            invariant
                i <= failures@.len(),
                forall|j: int| 0 <= j < i ==> is_closure_error(#[trigger] failures@[j]),
            decreases failures@.len() - i,
        {
            if !is_closure_failure(&failures[i]) {
                return Err(InvalidModelTurnFailure);
            }
            i = i + 1;
        }
        if failures.len() == 0 {
            return if omitted == 0 {
                Ok(None)
            } else {
                Err(InvalidModelTurnFailure)
            };
        }
        let over: usize = if failures.len() > MAX_MODEL_TURN_FAILURES {
            failures.len() - MAX_MODEL_TURN_FAILURES
        } else {
            0
        };
        let omitted: usize = omitted.saturating_add(over);
        let mut kept = failures;
        kept.truncate(MAX_MODEL_TURN_FAILURES);
        assert(kept@ =~= failures@.take(kept@.len() as int));
        Ok(Some(ModelTurnFailure { failures: kept, omitted }))
    }

    pub fn failures(&self) -> (failures: &Vec<ModelGatewayError>)
        ensures
            failures@ == self.kept(),
    {
        &self.failures
    }

    pub fn omitted(&self) -> (omitted: usize)
        ensures
            omitted == self.left_out(),
    {
        self.omitted
    }

    pub fn total_count(&self) -> (count: usize)
        ensures
            count == self.total(),
    {
        self.failures.len().saturating_add(self.omitted)
    }

    /// The failure as one line of text.
    pub fn text(&self) -> (text: String)
        ensures
            text@ == decimal(self.total() as nat)
                + " model operation(s) failed while closing the turn"@,
    {
        let mut text = decimal_text(self.total_count() as u64);
        text.push_str(" model operation(s) failed while closing the turn");
        text
    }
}

/// The first failures are kept and the rest counted. Without any failure there is no
/// aggregate, and a count without one is refused, as is any other kind of error.
pub open spec fn aggregates(
    failures: Seq<ModelGatewayError>,
    omitted: usize,
    result: Result<Option<ModelTurnFailure>, InvalidModelTurnFailure>,
) -> bool {
    let over = if failures.len() > MAX_MODEL_TURN_FAILURES {
        failures.len() - MAX_MODEL_TURN_FAILURES
    } else {
        0
    };
    if exists|i: int| 0 <= i < failures.len() && !is_closure_error(#[trigger] failures[i]) {
        result is Err
    } else if failures.len() == 0 {
        if omitted == 0 {
            result == Ok::<Option<ModelTurnFailure>, InvalidModelTurnFailure>(None)
        } else {
            result is Err
        }
    } else {
        &&& result is Ok
        &&& result->Ok_0 is Some
        &&& result->Ok_0->0.kept() == failures.take(
            if failures.len() > MAX_MODEL_TURN_FAILURES {
                MAX_MODEL_TURN_FAILURES as int
            } else {
                failures.len() as int
            },
        )
        &&& result->Ok_0->0.left_out() == if omitted + over > usize::MAX {
            usize::MAX as int
        } else {
            omitted + over
        }
    }
}

} // verus!
