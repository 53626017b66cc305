//! The steps of a model call in their order. No provider is asked before the request is
//! on record, and whoever asked hears the answer only when the result is on record too.

use crate::generation::GenerationResponse;
use crate::llm::failure::ModelGatewayError;
use crate::llm::results::{
    append_request, append_result, callers_hear_what_is_recorded, conclude, is_heard, recorded,
    shows_failure, success, Appended, ModelJobStopReason, Resolution,
};
use crate::session::model_record::{ModelRecordedOutcomeView, ModelRequest, ModelResult};
use vstd::prelude::*;

verus! {

/// How far a call has come, and what it carries.
pub enum CallStage {
    /// The request is to be recorded.
    Recording,
    /// The request is on record; the call waits for a slot.
    Waiting,
    /// The provider is asked.
    Asking,
    /// The call is over but for the record of its result.
    Concluding { result: ModelResult, heard: Result<GenerationResponse, ModelGatewayError> },
    Over(Result<GenerationResponse, ModelGatewayError>),
}

/// What the host does next.
#[derive(Clone, Copy, Debug, PartialEq, Eq, Structural)]
pub enum CallAction {
    RecordRequest,
    WaitForSlot,
    AskProvider,
    RecordResult,
    Done,
}

/// What came of it.
pub enum CallEvent {
    /// The call may have been stopped while its request was recorded.
    RequestRecorded { appended: Appended, stopped: Option<ModelJobStopReason> },
    SlotTaken(Result<(), ModelJobStopReason>),
    Answered(Resolution),
    ResultRecorded(Appended),
}

/// A call on its way.
pub struct CallMachine {
    pub request: ModelRequest,
    /// The request is confirmed to be on record.
    pub on_record: bool,
    pub stage: CallStage,
}

impl CallMachine {
    /// Nothing but the recording itself goes on without the record, and what the caller
    /// will hear is what the result says.
    pub open spec fn wf(self) -> bool {
        &&& self.stage is Recording ==> !self.on_record
        &&& self.stage is Waiting || self.stage is Asking || self.stage is Concluding
            ==> self.on_record
        &&& self.stage matches CallStage::Concluding { result, heard } ==> exists|
            resolution: Resolution,
        | #[trigger] concludes(self.request, resolution, result, heard)
    }

    /// What is done next.
    pub open spec fn next_action(self) -> CallAction {
        match self.stage {
            CallStage::Recording => CallAction::RecordRequest,
            CallStage::Waiting => CallAction::WaitForSlot,
            CallStage::Asking => CallAction::AskProvider,
            CallStage::Concluding { .. } => CallAction::RecordResult,
            CallStage::Over(_) => CallAction::Done,
        }
    }

    /// How far the call has come.
    pub open spec fn place(self) -> nat {
        match self.stage {
            CallStage::Recording => 0,
            CallStage::Waiting => 1,
            CallStage::Asking => 2,
            CallStage::Concluding { .. } => 3,
            CallStage::Over(_) => 4,
        }
    }
}

/// The result and the caller's answer are those of a resolution.
pub open spec fn concludes(
    request: ModelRequest,
    resolution: Resolution,
    result: ModelResult,
    heard: Result<GenerationResponse, ModelGatewayError>,
) -> bool {
    &&& result@ == recorded(request@.call_id, resolution)
    &&& is_heard(heard, resolution)
}

/// The call is over but for its record, with that resolution.
pub open spec fn ends_with(m: CallMachine, resolution: Resolution, n: CallMachine) -> bool {
    &&& n.on_record
    &&& n.stage matches CallStage::Concluding { result, heard }
    &&& concludes(m.request, resolution, result, heard)
}

/// The event is what the call waits for.
pub open spec fn is_expected(stage: CallStage, event: CallEvent) -> bool {
    match (stage, event) {
        (CallStage::Recording, CallEvent::RequestRecorded { .. }) => true,
        (CallStage::Waiting, CallEvent::SlotTaken(_)) => true,
        (CallStage::Asking, CallEvent::Answered(_)) => true,
        (CallStage::Concluding { .. }, CallEvent::ResultRecorded(_)) => true,
        _ => false,
    }
}

/// What a call becomes by an event. One that nobody waits for changes nothing.
pub open spec fn follows(m: CallMachine, event: CallEvent, n: CallMachine) -> bool {
    &&& n.request == m.request
    &&& match (m.stage, event) {
        (CallStage::Recording, CallEvent::RequestRecorded { appended, stopped }) => if appended
            is Done {
            match stopped {
                Some(stop) => ends_with(m, Resolution::Stopped(stop), n),
                None => n.on_record && n.stage is Waiting,
            }
        } else {
            &&& !n.on_record
            &&& n.stage matches CallStage::Over(Err(ModelGatewayError::Recording(failure)))
            &&& shows_failure(*failure, m.request@, None, appended)
        },
        (CallStage::Waiting, CallEvent::SlotTaken(taken)) => match taken {
            Ok(_) => n.on_record == m.on_record && n.stage is Asking,
            Err(stop) => ends_with(m, Resolution::Stopped(stop), n),
        },
        (CallStage::Asking, CallEvent::Answered(resolution)) => ends_with(m, resolution, n),
        (CallStage::Concluding { result, heard }, CallEvent::ResultRecorded(appended)) => {
            &&& n.on_record == m.on_record
            &&& if appended is Done {
                n.stage == CallStage::Over(heard)
            } else {
                &&& n.stage matches CallStage::Over(Err(ModelGatewayError::Recording(failure)))
                &&& shows_failure(*failure, m.request@, Some(result@), appended)
            }
        },
        _ => n == m,
    }
}

fn concluding(request: &ModelRequest, resolution: Resolution) -> (stage: CallStage)
    ensures
        stage matches CallStage::Concluding { result, heard } && concludes(
            *request,
            resolution,
            result,
            heard,
        ),
{
    let (result, heard) = conclude(request, resolution);
    CallStage::Concluding { result, heard }
}

impl CallMachine {
    /// A call that was let in.
    pub fn new(request: ModelRequest) -> (machine: Self)
        ensures
            machine == (CallMachine { request, on_record: false, stage: CallStage::Recording }),
            machine.wf(),
    {
        CallMachine { request, on_record: false, stage: CallStage::Recording }
    }

    /// What is done next.
    pub fn action(&self) -> (action: CallAction)
        ensures
            action == self.next_action(),
    {
        match &self.stage {
            CallStage::Recording => CallAction::RecordRequest,
            CallStage::Waiting => CallAction::WaitForSlot,
            CallStage::Asking => CallAction::AskProvider,
            CallStage::Concluding { .. } => CallAction::RecordResult,
            CallStage::Over(_) => CallAction::Done,
        }
    }

    /// Takes in what came of an action.
    pub fn advance(self, event: CallEvent) -> (next: Self)
        requires
            self.wf(),
        ensures
            next.wf(),
            follows(self, event, next),
    {
        let CallMachine { request, on_record, stage } = self;
        let mut on_record: bool = on_record;
        let stage = match (stage, event) {
            (CallStage::Recording, CallEvent::RequestRecorded { appended, stopped }) => {
                match append_request(&request, appended) {
                    Err(error) => CallStage::Over(Err(error)),
                    Ok(_) => {
                        on_record = true;
                        match stopped {
                            Some(stop) => concluding(&request, Resolution::Stopped(stop)),
                            None => CallStage::Waiting,
                        }
                    },
                }
            },
            (CallStage::Waiting, CallEvent::SlotTaken(taken)) => match taken {
                Ok(_) => CallStage::Asking,
                Err(stop) => concluding(&request, Resolution::Stopped(stop)),
            },
            (CallStage::Asking, CallEvent::Answered(resolution)) => concluding(
                &request,
                resolution,
            ),
            (CallStage::Concluding { result, heard }, CallEvent::ResultRecorded(appended)) => {
                match append_result(&request, &result, appended) {
                    Err(error) => CallStage::Over(Err(error)),
                    Ok(_) => CallStage::Over(heard),
                }
            },
            (stage, _) => stage,
        };
        CallMachine { request, on_record, stage }
    }
}

/// A provider is asked only when the request is confirmed to be on record, and a slot is
/// taken only then.
pub proof fn providers_wait_for_the_record(m: CallMachine)
    requires
        m.wf(),
        m.next_action() == CallAction::AskProvider || m.next_action() == CallAction::WaitForSlot,
    ensures
        m.on_record,
{
}

/// Every request on record gets a result to be recorded: from the record on, a call ends
/// only through its result.
pub proof fn recorded_requests_get_a_result(m: CallMachine, event: CallEvent, n: CallMachine)
    requires
        m.wf(),
        follows(m, event, n),
        m.on_record,
        n.stage is Over,
    ensures
        m.stage is Concluding || m.stage is Over,
{
}

/// Whoever asked hears of success only when the very answer is on record as a success.
pub proof fn successes_are_on_record(m: CallMachine, event: CallEvent, n: CallMachine)
    requires
        m.wf(),
        follows(m, event, n),
        m.stage is Concluding,
        n.stage matches CallStage::Over(Ok(_)),
    ensures
        event matches CallEvent::ResultRecorded(Appended::Done),
        m.stage->result@ == success(m.request@.call_id, n.stage->Over_0->Ok_0@),
        m.stage->result@.outcome == (ModelRecordedOutcomeView::Succeeded {
            response: n.stage->Over_0->Ok_0@,
        }),
{
    let resolution = choose|resolution: Resolution| #[trigger]
        concludes(m.request, resolution, m.stage->result, m.stage->heard);
    callers_hear_what_is_recorded(m.request@.call_id, resolution, m.stage->heard);
}

/// A call that takes in what it waits for comes further, so that at most four events
/// bring any call to its end.
pub proof fn calls_come_to_an_end(m: CallMachine, event: CallEvent, n: CallMachine)
    requires
        follows(m, event, n),
        is_expected(m.stage, event),
    ensures
        m.place() < n.place() <= 4,
{
}

} // verus!
