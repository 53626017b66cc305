//! Failures of tool runtimes and their bounded aggregates.

use crate::budget::model::BudgetError;
use crate::json::{decimal, decimal_text};
use crate::session::error::SessionRuntimeError;
use crate::session::event::SessionEvent;
use crate::session::tool_record::{ToolCall, ToolResult};
use crate::tool::vocabulary::ToolExecution;
use vstd::prelude::*;

verus! {

/// Maximum number of closure failures retained by a turn finisher.
pub const MAX_TOOL_TURN_FAILURES: usize = 16;

/// Rejection which is guaranteed to occur before reservation or event recording.
#[derive(Clone, Copy, Debug, PartialEq, Eq, Structural)]
pub enum ToolPreflightError {
    EmptyName,
    NameTooLong { actual: usize, max: usize },
    ArgumentsTooLarge { actual: usize, max: usize },
}

/// Which canonical tool event could not be recorded.
#[derive(Clone, Copy, Debug, PartialEq, Eq, Structural)]
pub enum ToolRecordStage {
    Call,
    Result,
}

/// Evidence retained when an append does not confirm the bound canonical event.
#[derive(Debug, PartialEq, Eq)]
pub enum ToolRecordError {
    Session(SessionRuntimeError),
    RecorderPanicked,
    /// The recorder returned an event outside its budget binding.
    IdentityMismatch { event: SessionEvent },
}

/// Exact evidence retained when an accepted tool operation cannot be canonically closed.
#[derive(Debug, PartialEq, Eq)]
pub struct ToolClosureFailure {
    pub call: ToolCall,
    pub result: Option<ToolResult>,
    pub stage: ToolRecordStage,
    pub source: ToolRecordError,
}

impl ToolClosureFailure {
    pub fn call_evidence(&self) -> (value: &ToolCall)
        ensures
            *value == self.call,
    {
        &self.call
    }

    pub fn result_evidence(&self) -> (value: Option<&ToolResult>)
        ensures
            match value {
                Some(value) => self.result == Some(*value),
                None => self.result is None,
            },
    {
        self.result.as_ref()
    }

    pub fn record_error(&self) -> (value: &ToolRecordError)
        ensures
            *value == self.source,
    {
        &self.source
    }
}

impl ToolClosureFailure {
    pub fn call(call: ToolCall, source: SessionRuntimeError) -> (failure: Self)
        ensures
            failure == (ToolClosureFailure {
                call,
                result: None,
                stage: ToolRecordStage::Call,
                source: ToolRecordError::Session(source),
            }),
    {
        Self::call_error(call, ToolRecordError::Session(source))
    }

    pub fn call_error(call: ToolCall, source: ToolRecordError) -> (failure: Self)
        ensures
            failure == (ToolClosureFailure {
                call,
                result: None,
                stage: ToolRecordStage::Call,
                source,
            }),
    {
        ToolClosureFailure { call, result: None, stage: ToolRecordStage::Call, source }
    }

    pub fn result(call: ToolCall, result: ToolResult, source: SessionRuntimeError) -> (failure: Self)
        ensures
            failure == (ToolClosureFailure {
                call,
                result: Some(result),
                stage: ToolRecordStage::Result,
                source: ToolRecordError::Session(source),
            }),
    {
        Self::result_error(call, result, ToolRecordError::Session(source))
    }

    pub fn result_error(call: ToolCall, result: ToolResult, source: ToolRecordError) -> (failure: Self)
        ensures
            failure == (ToolClosureFailure {
                call,
                result: Some(result),
                stage: ToolRecordStage::Result,
                source,
            }),
    {
        ToolClosureFailure { call, result: Some(result), stage: ToolRecordStage::Result, source }
    }

    pub fn stage(&self) -> (stage: ToolRecordStage)
        ensures
            stage == self.stage,
    {
        self.stage
    }

    /// The session's own error, where that is what stopped the record.
    pub fn source_error(&self) -> (error: Option<&SessionRuntimeError>)
        ensures
            match (self.source, error) {
                (ToolRecordError::Session(source), Some(e)) => *e == source,
                (ToolRecordError::Session(_), None) => false,
                (_, e) => e is None,
            },
    {
        match &self.source {
            ToolRecordError::Session(error) => Some(error),
            _ => None,
        }
    }
}

/// Infrastructure failure from a tool runtime. Semantic tool failures live in
/// [`ToolExecution`].
#[derive(Debug, PartialEq, Eq)]
pub enum ToolRuntimeError {
    Budget(BudgetError),
    Stopped,
    TurnClosed,
    Overloaded,
    Preflight(ToolPreflightError),
    Cancelled { execution: Box<ToolExecution> },
    Recording(Box<ToolClosureFailure>),
    Internal { code: String, message: String },
}

impl ToolRuntimeError {
    pub fn cancelled(execution: ToolExecution) -> (error: Self)
        ensures
            error == (ToolRuntimeError::Cancelled { execution: Box::new(execution) }),
    {
        ToolRuntimeError::Cancelled { execution: Box::new(execution) }
    }

    pub fn cancelled_execution(&self) -> (execution: Option<&ToolExecution>)
        ensures
            match (*self, execution) {
                (ToolRuntimeError::Cancelled { execution: held }, Some(e)) => *e == *held,
                (ToolRuntimeError::Cancelled { .. }, None) => false,
                (_, e) => e is None,
            },
    {
        match self {
            ToolRuntimeError::Cancelled { execution } => Some(execution),
            _ => None,
        }
    }
}

/// Host-only settlement mode for accepted tool work.
#[derive(Clone, Copy, Debug, PartialEq, Eq, Structural)]
pub enum ToolFinishMode {
    Graceful,
    Cancel,
}

/// Bounded aggregate returned only after tool turn admission has closed and drained.
#[derive(Debug, PartialEq, Eq)]
pub struct ToolTurnFailure {
    failures: Vec<ToolRuntimeError>,
    omitted: usize,
}

/// A semantic or admission error cannot be presented as host drain evidence.
#[derive(Clone, Copy, Debug, PartialEq, Eq, Structural)]
pub struct InvalidToolTurnFailure;

/// An error that shows that accepted work could not be closed.
pub open spec fn is_closure_error(error: ToolRuntimeError) -> bool {
    error is Recording || error is Internal
}

/// Whether an error shows that accepted work could not be closed.
pub fn is_closure_failure(error: &ToolRuntimeError) -> (answer: bool)
    ensures
        answer == is_closure_error(*error),
{
    match error {
        ToolRuntimeError::Recording(_) | ToolRuntimeError::Internal { .. } => true,
        _ => false,
    }
}

impl ToolTurnFailure {
    pub closed spec fn kept(&self) -> Seq<ToolRuntimeError> {
        self.failures@
    }

    pub closed spec fn left_out(&self) -> usize {
        self.omitted
    }

    /// How many failures there were, as far as a count can tell.
    pub open spec fn total(&self) -> int {
        if self.kept().len() + self.left_out() > usize::MAX {
            usize::MAX as int
        } else {
            self.kept().len() + self.left_out()
        }
    }

    pub fn from_failures(failures: Vec<ToolRuntimeError>) -> (result: Result<
        Option<Self>,
        InvalidToolTurnFailure,
    >)
        ensures
            aggregates(failures@, 0, result),
    {
        Self::from_bounded_failures(failures, 0)
    }

    /// Build an aggregate from retained closure failures plus a count whose details
    /// were omitted.
    pub fn from_bounded_failures(failures: Vec<ToolRuntimeError>, omitted: usize) -> (result: Result<
        Option<Self>,
        InvalidToolTurnFailure,
    >)
        ensures
            aggregates(failures@, omitted, result),
    {
        let mut i: usize = 0;
        while i < failures.len()
            invariant
                i <= failures@.len(),
                forall|j: int| 0 <= j < i ==> is_closure_error(#[trigger] failures@[j]),
            decreases failures@.len() - i,
        {
            if !is_closure_failure(&failures[i]) {
                return Err(InvalidToolTurnFailure);
            }
            i = i + 1;
        }
        if failures.len() == 0 {
            return if omitted == 0 {
                Ok(None)
            } else {
                Err(InvalidToolTurnFailure)
            };
        }
        let over: usize = if failures.len() > MAX_TOOL_TURN_FAILURES {
            failures.len() - MAX_TOOL_TURN_FAILURES
        } else {
            0
        };
        let omitted: usize = omitted.saturating_add(over);
        let mut kept = failures;
        kept.truncate(MAX_TOOL_TURN_FAILURES);
        assert(kept@ =~= failures@.take(kept@.len() as int));
        Ok(Some(ToolTurnFailure { failures: kept, omitted }))
    }

    pub fn failures(&self) -> (failures: &Vec<ToolRuntimeError>)
        ensures
            failures@ == self.kept(),
    {
        &self.failures
    }

    pub fn omitted(&self) -> (omitted: usize)
        ensures
            omitted == self.left_out(),
    {
        self.omitted
    }

    pub fn total_count(&self) -> (count: usize)
        ensures
            count == self.total(),
    {
        self.failures.len().saturating_add(self.omitted)
    }

    /// The failure as one line of text.
    pub fn text(&self) -> (text: String)
        ensures
            text@ == decimal(self.total() as nat)
                + " Tool operation(s) failed while closing the turn"@,
    {
        let mut text = decimal_text(self.total_count() as u64);
        text.push_str(" Tool operation(s) failed while closing the turn");
        text
    }
}

/// The first failures are kept and the rest counted. Without any failure there is no
/// aggregate, and a count without one is refused, as is any other kind of error.
pub open spec fn aggregates(
    failures: Seq<ToolRuntimeError>,
    omitted: usize,
    result: Result<Option<ToolTurnFailure>, InvalidToolTurnFailure>,
) -> bool {
    let over = if failures.len() > MAX_TOOL_TURN_FAILURES {
        failures.len() - MAX_TOOL_TURN_FAILURES
    } else {
        0
    };
    if exists|i: int| 0 <= i < failures.len() && !is_closure_error(#[trigger] failures[i]) {
        result is Err
    } else if failures.len() == 0 {
        if omitted == 0 {
            result == Ok::<Option<ToolTurnFailure>, InvalidToolTurnFailure>(None)
        } else {
            result is Err
        }
    } else {
        &&& result is Ok
        &&& result->Ok_0 is Some
        &&& result->Ok_0->0.kept() == failures.take(
            if failures.len() > MAX_TOOL_TURN_FAILURES {
                MAX_TOOL_TURN_FAILURES as int
            } else {
                failures.len() as int
            },
        )
        &&& result->Ok_0->0.left_out() == if omitted + over > usize::MAX {
            usize::MAX as int
        } else {
            omitted + over
        }
    }
}

} // verus!
