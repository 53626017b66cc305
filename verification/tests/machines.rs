use jingwei::agent::driver::{BodyEnd, CancelReason, ClosedTurn, TurnCommitSummary};
use jingwei::agent::machine::{Stage, TurnAction, TurnEvent, TurnMachine};
use jingwei::agent::turn::{AgentTurnOutput, TurnOutcome};
use jingwei::budget::binding::own_budget;
use jingwei::budget::model::BudgetError;
use jingwei::budget::vocabulary::BudgetReport;
use jingwei::generation::{
    FinishReason, GenerationLimits, GenerationRequest, GenerationResponse, ModelCallMode, ModelMessage, TokenUsage,
};
use jingwei::id::{EventId, ModelCallId, SessionId, TaskId, TurnId};
use jingwei::json::Json;
use jingwei::llm::failure::{ModelFinishMode, ModelGatewayError, ModelRecordStage, ModelRuntimeError};
use jingwei::llm::machine::{CallAction, CallEvent, CallMachine, CallStage};
use jingwei::llm::results::{model_request, Appended, GenerationOptions, ModelJobStopReason, Resolution};
use jingwei::session::commit::{CommitEvent, CommitMachine, CommitStage};
use jingwei::session::error::SessionRuntimeError;
use jingwei::session::event::{DoneStatus, SessionEvent, SessionEventKind};
use jingwei::session::jsonl::{CommitCertainty, PersistAppendOutcome, SessionPersistenceError, SessionState};
use jingwei::session::tool_record::{ToolCall, ToolRecordedOutcome, ToolResult};
use jingwei::time::Duration;
use jingwei::tool::failure::{ToolFinishMode, ToolRecordError, ToolRuntimeError};
use jingwei::tool::machine::{OperationAction, OperationEvent, OperationMachine, OperationStage};
use jingwei::tool::semantic::SemanticResolution;

fn session() -> SessionId {
    SessionId::new("s".to_string())
}

fn turn() -> TurnId {
    TurnId::new("t".to_string())
}

fn event(seq: u64, kind: SessionEventKind) -> SessionEvent {
    SessionEvent {
        event_id: EventId::new(format!("e{}", seq)),
        session_id: session(),
        turn_id: turn(),
        generation_id: None,
        message_id: None,
        seq,
        kind,
    }
}

fn ledger_report() -> BudgetReport {
    let (mut budget, mut run) = own_budget(
        "agent".to_string(),
        TaskId::new("task".to_string()),
        session(),
        turn(),
        Duration::zero(),
    )
    .unwrap();
    run.prepare_report(&mut budget, Duration::zero()).unwrap()
}

fn started(machine: TurnMachine) -> TurnMachine {
    machine.advance(TurnEvent::Started { appended: Ok(()), budget: Ok(()), cancelled: false })
}

fn worked(machine: TurnMachine) -> TurnMachine {
    machine.advance(TurnEvent::AgentEnded {
        end: BodyEnd::Finished(Ok(AgentTurnOutput {
            final_text: "done".to_string(),
            outcome: TurnOutcome::Completed,
            artifact: None,
        })),
        partial: String::new(),
    })
}

fn looked(machine: TurnMachine) -> TurnMachine {
    machine.advance(TurnEvent::Looked { partial: String::new(), cancelled: false, budget: Ok(()) })
}

fn finished(machine: TurnMachine, cancelled: bool) -> TurnMachine {
    machine
        .advance(TurnEvent::ModelFinished { failure: None, cancelled })
        .advance(TurnEvent::ToolsFinished { failure: None, cancelled })
}

fn reported(machine: TurnMachine) -> TurnMachine {
    let machine = machine.advance(TurnEvent::ReportPrepared {
        budget: Ok(()),
        prepared: Ok(()),
        report: ledger_report(),
        reason: CancelReason::NotRequested,
    });
    let report = match &machine.stage {
        Stage::Reporting { receipt, .. } => jingwei::record::Record::duplicate(receipt),
        _ => panic!("not reporting"),
    };
    machine.advance(TurnEvent::Reported(Some(Ok(event(1, SessionEventKind::TaskRunReport { report })))))
}

fn closed(machine: TurnMachine, status: DoneStatus) -> Stage {
    let terminal = || event(2, SessionEventKind::Done { status, artifact: None });
    let machine = machine.advance(TurnEvent::Ended(Ok(terminal())));
    assert_eq!(machine.action(), TurnAction::Settle);
    machine
        .advance(TurnEvent::Settled(Ok(TurnCommitSummary { turn_id: turn(), events: vec![terminal()] })))
        .stage
}

#[test]
fn a_turn_takes_its_steps_in_order() {
    let machine = TurnMachine::new(session(), turn(), true, true);
    assert_eq!(machine.action(), TurnAction::AppendStart);
    let machine = machine.advance(TurnEvent::Settled(Err(SessionRuntimeError::Stopped)));
    assert_eq!(machine.action(), TurnAction::AppendStart);
    let machine = started(machine);
    assert_eq!(machine.action(), TurnAction::BindModel);
    let machine = machine.advance(TurnEvent::ModelBound(jingwei::agent::driver::Binding::Bound));
    assert_eq!(machine.action(), TurnAction::BindTools);
    assert!(machine.model_open);
    let machine = machine.advance(TurnEvent::ToolsBound(jingwei::agent::driver::Binding::Bound));
    assert_eq!(machine.action(), TurnAction::RunAgent);
    let machine = looked(worked(machine));
    assert_eq!(
        machine.action(),
        TurnAction::FinishModel { bound: true, mode: ModelFinishMode::Graceful }
    );
    let machine = finished(machine, false);
    assert!(!machine.model_open && !machine.tools_open);
    assert_eq!(machine.action(), TurnAction::PrepareReport);
    let machine = reported(machine);
    assert_eq!(machine.action(), TurnAction::AppendTerminal);
    match closed(machine, DoneStatus::Completed) {
        Stage::Closed(Ok(ClosedTurn::Reported(report))) => assert_eq!(report.final_text(), "done"),
        _ => panic!("not reported"),
    }
}

#[test]
fn a_cancelled_turn_still_comes_to_its_end() {
    let machine = started(TurnMachine::new(session(), turn(), false, false));
    assert_eq!(machine.action(), TurnAction::RunAgent);
    let machine = finished(looked(worked(machine)), true);
    match closed(reported(machine), DoneStatus::Cancelled) {
        Stage::Closed(Ok(ClosedTurn::Reported(report))) => assert_eq!(report.final_text(), ""),
        _ => panic!("not reported"),
    }
}

#[test]
fn a_turn_without_its_model_does_not_bind_tools() {
    let machine = started(TurnMachine::new(session(), turn(), true, true));
    let machine =
        machine.advance(TurnEvent::ModelBound(jingwei::agent::driver::Binding::Refused(ModelRuntimeError::Stopped)));
    assert_eq!(machine.action(), TurnAction::Look);
    let machine = looked(machine);
    assert_eq!(
        machine.action(),
        TurnAction::FinishModel { bound: false, mode: ModelFinishMode::Cancel }
    );
    let machine = machine.advance(TurnEvent::ModelFinished { failure: None, cancelled: false });
    assert_eq!(
        machine.action(),
        TurnAction::FinishTools { bound: false, mode: ToolFinishMode::Cancel }
    );
}

fn call_machine() -> CallMachine {
    CallMachine::new(model_request(
        ModelCallId::new("m".to_string()),
        ModelCallMode::Complete,
        GenerationRequest::text(vec![ModelMessage::User { content: "hi".to_string() }]),
        &GenerationOptions {
            context: None,
            max_tokens: None,
            timeout: None,
            limits: GenerationLimits { max_output_bytes: 10, max_tool_calls: 1 },
        },
    ))
}

fn answer() -> GenerationResponse {
    GenerationResponse {
        content: Some("hello".to_string()),
        tool_calls: vec![],
        finish_reason: FinishReason::Stop,
        usage: TokenUsage { input_tokens: None, output_tokens: None, total_tokens: None },
    }
}

fn recorded_call() -> CallMachine {
    call_machine().advance(CallEvent::RequestRecorded { appended: Appended::Done, stopped: None })
}

#[test]
fn providers_are_asked_after_the_record() {
    let machine = call_machine().advance(CallEvent::Answered(Resolution::Succeeded(answer())));
    assert_eq!(machine.action(), CallAction::RecordRequest);
    let machine = recorded_call();
    assert_eq!(machine.action(), CallAction::WaitForSlot);
    let machine = machine.advance(CallEvent::SlotTaken(Ok(())));
    assert_eq!(machine.action(), CallAction::AskProvider);
    let machine = machine.advance(CallEvent::Answered(Resolution::Succeeded(answer())));
    assert_eq!(machine.action(), CallAction::RecordResult);
    match machine.advance(CallEvent::ResultRecorded(Appended::Done)).stage {
        CallStage::Over(heard) => assert_eq!(heard.unwrap(), answer()),
        _ => panic!("not over"),
    }
}

#[test]
fn answers_without_a_record_are_not_heard() {
    let machine = recorded_call()
        .advance(CallEvent::SlotTaken(Ok(())))
        .advance(CallEvent::Answered(Resolution::Succeeded(answer())));
    match machine.advance(CallEvent::ResultRecorded(Appended::Panicked)).stage {
        CallStage::Over(Err(ModelGatewayError::Recording(failure))) => {
            assert_eq!(failure.stage(), ModelRecordStage::Result)
        }
        _ => panic!("heard"),
    }
    let stopped = call_machine().advance(CallEvent::RequestRecorded {
        appended: Appended::Done,
        stopped: Some(ModelJobStopReason::QueueTimeout),
    });
    assert_eq!(stopped.action(), CallAction::RecordResult);
    let lost = call_machine()
        .advance(CallEvent::RequestRecorded { appended: Appended::Refused(SessionRuntimeError::Stopped), stopped: None });
    assert_eq!(lost.action(), CallAction::Done);
    assert!(!lost.on_record);
}

fn call() -> ToolCall {
    ToolCall {
        action: None,
        id: "c".to_string(),
        name: "look".to_string(),
        arguments: Json::from_compact("{}".to_string()),
        operation: None,
    }
}

#[test]
fn tools_are_decided_after_the_record() {
    let machine = OperationMachine::new(call());
    assert_eq!(machine.action(), OperationAction::RecordCall);
    let machine = machine
        .advance(OperationEvent::CallRecorded(Ok(event(0, SessionEventKind::ToolCall { call: call() }))));
    assert_eq!(machine.action(), OperationAction::Decide);
    let machine = machine.advance(OperationEvent::Decided {
        semantic: SemanticResolution::success("seen".to_string()),
        settled: Ok(()),
    });
    assert_eq!(machine.action(), OperationAction::RecordResult);
    let result = ToolResult {
        call_id: "c".to_string(),
        outcome: ToolRecordedOutcome::Succeeded { output: "seen".to_string() },
    };
    let recorded = event(1, SessionEventKind::ToolResult { result });
    match machine.advance(OperationEvent::ResultRecorded(Ok(recorded))).stage {
        OperationStage::Over(Ok(execution)) => assert_eq!(execution.result_event().seq, 1),
        _ => panic!("no execution"),
    }
}

#[test]
fn unsettled_tools_end_as_budget_failures() {
    let machine = OperationMachine::new(call())
        .advance(OperationEvent::CallRecorded(Ok(event(0, SessionEventKind::ToolCall { call: call() }))))
        .advance(OperationEvent::Decided {
            semantic: SemanticResolution::success("seen".to_string()),
            settled: Err(BudgetError::RunClosed),
        });
    match &machine.stage {
        OperationStage::Concluding { budget_error, .. } => {
            assert_eq!(*budget_error, Some(BudgetError::RunClosed))
        }
        _ => panic!("not concluding"),
    }
    let lost = OperationMachine::new(call()).advance(OperationEvent::CallRecorded(Err(ToolRecordError::RecorderPanicked)));
    assert!(matches!(lost.stage, OperationStage::Over(Err(ToolRuntimeError::Recording(_)))));
}

fn said() -> SessionEvent {
    event(0, SessionEventKind::UserMessage { text: "hi".to_string() })
}

fn opened(state: &mut SessionState) -> CommitMachine {
    CommitMachine::new(said())
        .advance(state, CommitEvent::Encoded(Ok(())))
        .advance(state, CommitEvent::Read(Ok(vec![])))
        .advance(state, CommitEvent::DirectoryMade(Ok(())))
        .advance(state, CommitEvent::Opened(Ok(())))
}

#[test]
fn appends_block_their_session_until_they_are_durable() {
    let mut state = SessionState::new();
    let machine = opened(&mut state);
    assert!(state.check().is_err());
    let machine = machine
        .advance(&mut state, CommitEvent::Written(Ok(())))
        .advance(&mut state, CommitEvent::Flushed(Ok(())));
    assert!(state.check().is_err());
    let machine = machine.advance(&mut state, CommitEvent::Synced(Ok(())));
    assert!(state.check().is_ok());
    assert_eq!(machine.stage, CommitStage::Over(Ok(PersistAppendOutcome::Appended)));
    let again = CommitMachine::new(said())
        .advance(&mut state, CommitEvent::Encoded(Ok(())))
        .advance(&mut state, CommitEvent::Read(Ok(vec![said()])));
    assert_eq!(again.stage, CommitStage::Over(Ok(PersistAppendOutcome::ReplayedExact)));
}

#[test]
fn failed_appends_say_whether_anything_was_written() {
    let mut state = SessionState::new();
    let failed = opened(&mut state).advance(&mut state, CommitEvent::Written(Err("full".to_string())));
    match failed.stage {
        CommitStage::Over(Err(SessionPersistenceError::Io { operation, message, certainty })) => {
            assert_eq!((operation, message.as_str()), ("write_all", "full"));
            assert_eq!(certainty, CommitCertainty::Indeterminate);
        }
        _ => panic!("no failure"),
    }
    let blocked = CommitMachine::new(said()).advance(&mut state, CommitEvent::Encoded(Ok(())));
    assert!(matches!(blocked.stage, CommitStage::Over(Err(_))));
    let mut state = SessionState::new();
    let early = CommitMachine::new(said())
        .advance(&mut state, CommitEvent::Encoded(Ok(())))
        .advance(&mut state, CommitEvent::Read(Ok(vec![])))
        .advance(&mut state, CommitEvent::DirectoryMade(Err("denied".to_string())));
    match early.stage {
        CommitStage::Over(Err(SessionPersistenceError::Io { certainty, .. })) => {
            assert_eq!(certainty, CommitCertainty::DefinitelyNotCommitted)
        }
        _ => panic!("no failure"),
    }
    assert!(state.check().is_ok());
    let unwritable = CommitMachine::new(said()).advance(&mut state, CommitEvent::Encoded(Err("odd".to_string())));
    assert_eq!(
        unwritable.stage,
        CommitStage::Over(Err(SessionPersistenceError::Serialization { message: "odd".to_string() }))
    );
}
