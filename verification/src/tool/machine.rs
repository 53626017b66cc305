//! The steps of a tool call in their order. Nothing of a call happens before the call is
//! on record, and its result is recorded whatever came of it.

use crate::budget::model::BudgetError;
use crate::record::Record;
use crate::session::event::SessionEvent;
use crate::session::tool_record::{ToolCall, ToolResult, ToolResultView};
use crate::tool::failure::{ToolRecordError, ToolRecordStage, ToolRuntimeError};
use crate::tool::semantic::{
    after_settlement, call_not_recorded, clipped, conclude_operation, execution_words, operation_result,
    Interruption, ResolutionView, SemanticResolution, MAX_TOOL_DIAGNOSTIC_BYTES,
};
use crate::tool::vocabulary::{execution_fault, ToolExecution};
use vstd::prelude::*;

verus! {

/// How far a call has come, and what it carries.
pub enum OperationStage {
    /// The call is to be recorded.
    Recording,
    /// The call is on record; it is decided and done.
    Deciding { call_event: SessionEvent },
    /// What the call came to is to be recorded.
    Concluding {
        call_event: SessionEvent,
        result: ToolResult,
        budget_error: Option<BudgetError>,
        cancelled: bool,
    },
    Over(Result<ToolExecution, ToolRuntimeError>),
}

/// What the host does next. A call that could not be recorded gives its reservation back
/// before it is over.
#[derive(Clone, Copy, Debug, PartialEq, Eq, Structural)]
pub enum OperationAction {
    RecordCall,
    Decide,
    RecordResult,
    Done,
}

/// What came of it.
pub enum OperationEvent {
    CallRecorded(Result<SessionEvent, ToolRecordError>),
    /// The budget is settled before anything else is told of the decision.
    Decided { semantic: SemanticResolution, settled: Result<(), BudgetError> },
    ResultRecorded(Result<SessionEvent, ToolRecordError>),
}

/// A call on its way.
pub struct OperationMachine {
    pub call: ToolCall,
    pub stage: OperationStage,
}

impl OperationMachine {
    /// What is done next.
    pub open spec fn next_action(self) -> OperationAction {
        match self.stage {
            OperationStage::Recording => OperationAction::RecordCall,
            OperationStage::Deciding { .. } => OperationAction::Decide,
            OperationStage::Concluding { .. } => OperationAction::RecordResult,
            OperationStage::Over(_) => OperationAction::Done,
        }
    }

    /// How far the call has come.
    pub open spec fn place(self) -> nat {
        match self.stage {
            OperationStage::Recording => 0,
            OperationStage::Deciding { .. } => 1,
            OperationStage::Concluding { .. } => 2,
            OperationStage::Over(_) => 3,
        }
    }
}

/// What a decision comes to once the budget is settled.
pub open spec fn settled_as(semantic: SemanticResolution, settled: Result<(), BudgetError>) -> ResolutionView {
    match settled {
        Ok(_) => semantic@,
        Err(e) => ResolutionView::interrupted(Interruption::Budget(e)),
    }
}

/// What the caller hears once the result is recorded, or is not.
pub open spec fn is_heard(
    call: ToolCall,
    result: ToolResult,
    call_event: SessionEvent,
    recorded: Result<SessionEvent, ToolRecordError>,
    budget_error: Option<BudgetError>,
    cancelled: bool,
    heard: Result<ToolExecution, ToolRuntimeError>,
) -> bool {
    match recorded {
        Err(source) => heard matches Err(ToolRuntimeError::Recording(failure)) && failure.call@
            == call@ && failure.result == Some(result) && failure.stage == ToolRecordStage::Result
            && failure.source == source,
        Ok(result_event) => match execution_fault(call@, result@, call_event@, result_event@) {
            Some(fault) => heard matches Err(ToolRuntimeError::Internal { code, message }) && code@
                == "tool_record_evidence_invalid"@ && message@ == clipped(
                execution_words(fault),
                MAX_TOOL_DIAGNOSTIC_BYTES as nat,
            ),
            None => match budget_error {
                Some(e) => heard == Err::<ToolExecution, ToolRuntimeError>(
                    ToolRuntimeError::Budget(e),
                ),
                None => if cancelled {
                    heard matches Err(ToolRuntimeError::Cancelled { execution }) && is_execution(
                        *execution,
                        call,
                        result,
                        call_event,
                        result_event,
                    )
                } else {
                    heard matches Ok(execution) && is_execution(
                        execution,
                        call,
                        result,
                        call_event,
                        result_event,
                    )
                },
            },
        },
    }
}

/// The execution shows the call and its result, each with the event that records it.
pub open spec fn is_execution(
    execution: ToolExecution,
    call: ToolCall,
    result: ToolResult,
    call_event: SessionEvent,
    result_event: SessionEvent,
) -> bool {
    &&& execution.call@ == call@
    &&& execution.result == result
    &&& execution.call_event == call_event
    &&& execution.result_event == result_event
}

/// The event is what the call waits for.
pub open spec fn is_expected(stage: OperationStage, event: OperationEvent) -> bool {
    match (stage, event) {
        (OperationStage::Recording, OperationEvent::CallRecorded(_)) => true,
        (OperationStage::Deciding { .. }, OperationEvent::Decided { .. }) => true,
        (OperationStage::Concluding { .. }, OperationEvent::ResultRecorded(_)) => true,
        _ => false,
    }
}

/// What a call becomes by an event. One that nobody waits for changes nothing.
pub open spec fn follows(m: OperationMachine, event: OperationEvent, n: OperationMachine) -> bool {
    &&& n.call == m.call
    &&& match (m.stage, event) {
        (OperationStage::Recording, OperationEvent::CallRecorded(recorded)) => match recorded {
            Ok(call_event) => n.stage == (OperationStage::Deciding { call_event }),
            Err(source) => {
                &&& n.stage matches OperationStage::Over(Err(ToolRuntimeError::Recording(failure)))
                &&& failure.call@ == m.call@
                &&& failure.result is None
                &&& failure.stage == ToolRecordStage::Call
                &&& failure.source == source
            },
        },
        (
            OperationStage::Deciding { call_event: known },
            OperationEvent::Decided { semantic, settled },
        ) => {
            let end = settled_as(semantic, settled);
            &&& n.stage matches OperationStage::Concluding {
                call_event,
                result,
                budget_error,
                cancelled,
            }
            &&& call_event == known
            &&& result@ == (ToolResultView { call_id: m.call@.id, outcome: end.outcome })
            &&& budget_error == end.budget_error
            &&& cancelled == end.cancelled
        },
        (
            OperationStage::Concluding { call_event, result, budget_error, cancelled },
            OperationEvent::ResultRecorded(recorded),
        ) => {
            &&& n.stage matches OperationStage::Over(heard)
            &&& is_heard(m.call, result, call_event, recorded, budget_error, cancelled, heard)
        },
        _ => n == m,
    }
}

impl OperationMachine {
    /// A call that was let in.
    pub fn new(call: ToolCall) -> (machine: Self)
        ensures
            machine == (OperationMachine { call, stage: OperationStage::Recording }),
    {
        OperationMachine { call, stage: OperationStage::Recording }
    }

    /// What is done next.
    pub fn action(&self) -> (action: OperationAction)
        ensures
            action == self.next_action(),
    {
        match &self.stage {
            OperationStage::Recording => OperationAction::RecordCall,
            OperationStage::Deciding { .. } => OperationAction::Decide,
            OperationStage::Concluding { .. } => OperationAction::RecordResult,
            OperationStage::Over(_) => OperationAction::Done,
        }
    }

    /// Takes in what came of an action.
    pub fn advance(self, event: OperationEvent) -> (next: Self)
        ensures
            follows(self, event, next),
    {
        let OperationMachine { call, stage } = self;
        let stage = match (stage, event) {
            (OperationStage::Recording, OperationEvent::CallRecorded(recorded)) => match recorded {
                Ok(call_event) => OperationStage::Deciding { call_event },
                Err(source) => OperationStage::Over(
                    Err(call_not_recorded(call.duplicate(), source)),
                ),
            },
            (
                OperationStage::Deciding { call_event },
                OperationEvent::Decided { semantic, settled },
            ) => {
                let SemanticResolution { outcome, cancelled, budget_error } = after_settlement(
                    semantic,
                    settled,
                );
                let result = operation_result(&call, outcome);
                OperationStage::Concluding { call_event, result, budget_error, cancelled }
            },
            (
                OperationStage::Concluding { call_event, result, budget_error, cancelled },
                OperationEvent::ResultRecorded(recorded),
            ) => OperationStage::Over(
                conclude_operation(
                    call.duplicate(),
                    result,
                    call_event,
                    recorded,
                    budget_error,
                    cancelled,
                ),
            ),
            (stage, _) => stage,
        };
        OperationMachine { call, stage }
    }
}

/// Nothing is decided of a call, and so no tool runs, unless the session has confirmed
/// the call's own record.
pub proof fn decisions_wait_for_the_record(m: OperationMachine, event: OperationEvent, n: OperationMachine)
    requires
        follows(m, event, n),
        m.next_action() != OperationAction::Decide,
        n.next_action() == OperationAction::Decide,
    ensures
        event matches OperationEvent::CallRecorded(Ok(call_event)) && n.stage == (
        OperationStage::Deciding { call_event }),
{
}

/// Whoever called hears of an execution only when its result is on record, and the record
/// says what was decided.
pub proof fn executions_are_on_record(m: OperationMachine, event: OperationEvent, n: OperationMachine)
    requires
        follows(m, event, n),
        !(m.stage is Over),
        n.stage matches OperationStage::Over(Ok(_)),
    ensures
        m.stage is Concluding,
        event matches OperationEvent::ResultRecorded(Ok(_)),
        n.stage->Over_0->Ok_0.result == m.stage->result,
        n.stage->Over_0->Ok_0.call_event == m.stage->Concluding_call_event,
        execution_fault(
            m.call@,
            m.stage->result@,
            m.stage->Concluding_call_event@,
            n.stage->Over_0->Ok_0.result_event@,
        ) is None,
{
}

/// A call that takes in what it waits for comes further, so that at most three events
/// bring any call to its end.
pub proof fn calls_come_to_an_end(m: OperationMachine, event: OperationEvent, n: OperationMachine)
    requires
        follows(m, event, n),
        is_expected(m.stage, event),
    ensures
        m.place() < n.place() <= 3,
{
}

} // verus!
