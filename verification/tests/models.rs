use jingwei::budget::binding::own_budget;
use jingwei::budget::model::BudgetError;
use jingwei::budget::vocabulary::{BudgetStopReason, TokenBoundEvidence};
use jingwei::generation::{
    FinishReason, GenerationConstraint, GenerationDelta, GenerationLimits, GenerationPartial, GenerationRequest,
    GenerationResponse, ModelCallMode, ModelMessage, ModelProtocolError, ModelToolCall, ModelToolDefinition,
    TokenUsage, ToolChoice,
};
use jingwei::id::{ModelCallId, ProviderToolCallId, SessionId, TaskId, TurnId};
use jingwei::json::Json;
use jingwei::llm::accounting::{
    request_estimate, EstimateAnswer, JobBudget, SoftModelBudgetEstimator, TurnBudget,
};
use jingwei::llm::failure::{
    LlmError, ModelClosureFailure, ModelFinishMode, ModelGatewayError, ModelOverloadKind, ModelRecordStage,
    ModelRuntimeError, ModelTurnFailure, MAX_MODEL_TURN_FAILURES,
};
use jingwei::llm::gateway::{begin_call, driver_lost, driver_unwound, stream_driver_lost, CanonicalLlmRuntimePlugin};
use jingwei::llm::results::{
    append_request, append_result, conclude, effective_timeout, model_request, resolve_complete, resolve_passing,
    resolve_preflight, resolve_stream, result_stop_reason, stopped_result, validate_request_size, Answer, Appended,
    GenerationOptions, ModelJobStopReason, Passing, Preflight, Resolution, StreamItem,
};
use jingwei::llm::scheduler::{
    ModelJobPhase, ModelSchedulerConfig, RuntimeControl, SlotState, TurnControl, MAX_LIFECYCLE_FAILURES,
};
use jingwei::llm::wire::{decode, fault_text, reason, request, usage, CompletionFault, WireCall, WireChoice};
use jingwei::session::error::SessionRuntimeError;
use jingwei::session::model_record::{ModelRecordedOutcome, ModelRequest};
use jingwei::time::Duration;

fn seconds(n: u64) -> Duration {
    Duration::from_secs(n)
}

fn input() -> GenerationRequest {
    GenerationRequest::text(vec![
        ModelMessage::System { content: "be \"brief\"".to_string() },
        ModelMessage::User { content: "hello".to_string() },
    ])
}

fn options() -> GenerationOptions {
    GenerationOptions {
        context: None,
        max_tokens: Some(16),
        timeout: Some(seconds(9)),
        limits: GenerationLimits { max_output_bytes: 1024, max_tool_calls: 4 },
    }
}

fn call(name: &str) -> ModelCallId {
    ModelCallId::new(name.to_string())
}

fn recorded() -> ModelRequest {
    model_request(call("m"), ModelCallMode::Complete, input(), &options())
}

fn nothing() -> GenerationPartial {
    GenerationPartial { text: String::new(), tool_calls: vec![] }
}

fn answer() -> GenerationResponse {
    GenerationResponse {
        content: Some("hi".to_string()),
        tool_calls: vec![],
        finish_reason: FinishReason::Stop,
        usage: TokenUsage { input_tokens: Some(3), output_tokens: Some(1), total_tokens: Some(4) },
    }
}

fn runtime(concurrency: usize, queued: usize, inflight: usize) -> RuntimeControl {
    let mut control = CanonicalLlmRuntimePlugin::new()
        .with_scheduler_config(ModelSchedulerConfig {
            max_concurrency: concurrency,
            max_queued: queued,
            max_inflight: inflight,
            max_request_bytes: 1000,
        })
        .construct(true)
        .unwrap();
    assert!(control.start());
    control
}

#[test]
fn settings_are_checked_before_a_runtime_is_made() {
    let plugin = CanonicalLlmRuntimePlugin::new();
    assert_eq!(plugin.default_timeout, seconds(600));
    assert_eq!(
        plugin.construct(false).unwrap_err(),
        "canonical LlmRuntime default timeout exceeds the executor clock range"
    );
    let none = ModelSchedulerConfig { max_concurrency: 0, ..ModelSchedulerConfig::default() };
    assert!(!none.validate());
    assert!(plugin.with_scheduler_config(none).construct(true).is_err());
    let narrow = ModelSchedulerConfig { max_concurrency: 5, max_inflight: 4, ..ModelSchedulerConfig::new() };
    assert!(!narrow.validate());
    assert!(ModelSchedulerConfig::new().validate());
    assert_eq!(plugin.with_default_timeout(seconds(1)).default_timeout, seconds(1));
}

#[test]
fn slots_go_to_those_who_waited_longest() {
    let mut control = runtime(1, 4, 8);
    let mut turn = TurnControl::new();
    let mut ids = vec![];
    for name in ["a", "b", "c"] {
        let admitted = control.accept(&mut turn, call(name), seconds(99), seconds(1), true).unwrap();
        assert_eq!(admitted.deadline, seconds(100));
        ids.push(admitted.job_id);
    }
    assert_eq!(turn.jobs, ids);
    let ready = |control: &mut RuntimeControl, id: u64| {
        control.poll_slot(id, false, seconds(2), seconds(100), false).0
    };
    assert_eq!(ready(&mut control, ids[0]), SlotState::Ready);
    assert_eq!(ready(&mut control, ids[1]), SlotState::Wait);
    assert_eq!(ready(&mut control, ids[2]), SlotState::Wait);
    control.start_provider(ids[0], false, seconds(3), seconds(100), false).unwrap();
    let snapshot = control.scheduler_snapshot(seconds(5));
    assert_eq!((snapshot.inflight, snapshot.queued, snapshot.executing), (3, 2, 1));
    assert_eq!(snapshot.jobs[0].phase, ModelJobPhase::Executing);
    assert_eq!(snapshot.jobs[0].execution_time, seconds(2));
    assert_eq!(snapshot.jobs[0].remaining_time, seconds(95));
    assert_eq!(snapshot.jobs[1].queue_time, seconds(4));
    assert!(snapshot.accepting);
    assert_eq!(control.release_execution(ids[0], None, seconds(6)), vec![ids[0], ids[1]]);
    assert_eq!(control.release_execution(ids[0], None, seconds(6)), Vec::<u64>::new());
    assert_eq!(ready(&mut control, ids[1]), SlotState::Ready);
    assert_eq!(ready(&mut control, ids[2]), SlotState::Wait);
    let (woken, _, _) = control.complete_job(&mut turn, 0, ids[1], None, seconds(7));
    assert_eq!(woken, vec![ids[1], ids[2]]);
    assert_eq!(ready(&mut control, ids[2]), SlotState::Ready);
}

#[test]
fn full_schedulers_refuse_by_what_is_full() {
    let mut control = runtime(1, 1, 3);
    let mut turn = TurnControl::new();
    let accept = |control: &mut RuntimeControl, turn: &mut TurnControl| {
        control.accept(turn, call("x"), seconds(9), seconds(0), true)
    };
    accept(&mut control, &mut turn).unwrap();
    accept(&mut control, &mut turn).unwrap();
    assert_eq!(
        accept(&mut control, &mut turn).unwrap_err(),
        ModelRuntimeError::Overloaded { capacity: ModelOverloadKind::QueueFull }
    );
    let mut tight = runtime(1, 5, 1);
    accept(&mut tight, &mut turn).unwrap();
    assert_eq!(
        accept(&mut tight, &mut turn).unwrap_err(),
        ModelRuntimeError::Overloaded { capacity: ModelOverloadKind::InflightFull }
    );
    assert_eq!(
        tight.accept(&mut turn, call("y"), seconds(9), seconds(0), false).unwrap_err(),
        ModelRuntimeError::InvalidTimeout
    );
    assert_eq!(
        tight.accept(&mut turn, call("y"), seconds(u64::MAX), seconds(1), true).unwrap_err(),
        ModelRuntimeError::InvalidTimeout
    );
    let cancelled = turn.begin_finish(ModelFinishMode::Cancel);
    assert_eq!(cancelled.len(), 3);
    let mut wide = runtime(2, 2, 4);
    assert_eq!(accept(&mut wide, &mut turn).unwrap_err(), ModelRuntimeError::TurnClosed);
    wide.begin_stop();
    assert_eq!(accept(&mut wide, &mut TurnControl::new()).unwrap_err(), ModelRuntimeError::Stopped);
}

#[test]
fn waiting_jobs_end_by_the_first_reason() {
    let mut control = runtime(1, 4, 8);
    let mut turn = TurnControl::new();
    let first = control.accept(&mut turn, call("a"), seconds(9), seconds(0), true).unwrap().job_id;
    let second = control.accept(&mut turn, call("b"), seconds(9), seconds(0), true).unwrap().job_id;
    assert_eq!(
        control.interruption_now(second, false, seconds(9), seconds(9), true),
        Some(ModelJobStopReason::QueueTimeout)
    );
    assert_eq!(
        control.interruption_now(first, false, seconds(9), seconds(9), true),
        Some(ModelJobStopReason::Timeout)
    );
    assert_eq!(
        control.interruption_now(first, true, seconds(9), seconds(9), true),
        Some(ModelJobStopReason::Cancelled)
    );
    assert_eq!(
        control.interruption_now(first, false, seconds(8), seconds(9), true),
        Some(ModelJobStopReason::ConsumerDropped)
    );
    assert_eq!(control.interruption_now(first, false, seconds(8), seconds(9), false), None);
    let (polled, _) = control.poll_slot(second, true, seconds(1), seconds(9), false);
    assert_eq!(polled, SlotState::Stopped(ModelJobStopReason::Cancelled));
    assert_eq!(
        control.interruption_now(second, false, seconds(9), seconds(9), false),
        Some(ModelJobStopReason::Cancelled)
    );
    control.recording(first, Some(ModelRecordStage::Request), false);
    assert_eq!(control.scheduler_snapshot(seconds(1)).jobs[0].recording, Some(ModelRecordStage::Request));
    control.recording(first, None, true);
    assert!(control.scheduler_snapshot(seconds(1)).jobs[0].request_recorded);
}

fn closure() -> ModelGatewayError {
    ModelGatewayError::Recording(Box::new(ModelClosureFailure::request(recorded(), SessionRuntimeError::Stopped)))
}

#[test]
fn a_turn_hears_of_every_failure_to_close() {
    let mut control = runtime(1, 4, 8);
    let turn_id = control.bind_turn(false).unwrap();
    let mut turn = TurnControl::new();
    for n in 0..MAX_LIFECYCLE_FAILURES + 1 {
        control.complete_job(&mut turn, turn_id, n as u64, Some(closure()), seconds(0));
    }
    let failure = turn.finish().unwrap_err();
    assert_eq!(failure.failures().len(), MAX_MODEL_TURN_FAILURES);
    assert_eq!(failure.total_count(), MAX_LIFECYCLE_FAILURES + 1);
    control.acknowledge_turn(turn_id);
    assert!(control.begin_stop());
    control.finish_stop().unwrap();
    let mut control = runtime(1, 4, 8);
    let mut turn = TurnControl::new();
    control.complete_job(&mut turn, 3, 0, Some(closure()), seconds(0));
    control.begin_stop();
    assert_eq!(
        control.finish_stop().unwrap_err(),
        "1 model operation(s) failed canonical closure before shutdown"
    );
    assert!(ModelTurnFailure::from_failures(vec![ModelGatewayError::Model(LlmError::Timeout)]).is_err());
    assert_eq!(ModelTurnFailure::from_failures(vec![]).unwrap(), None);
}

#[test]
fn accepted_calls_are_recorded_as_asked() {
    let mut control = runtime(1, 4, 8);
    let mut turn = TurnControl::new();
    let begin = |control: &mut RuntimeControl, turn: &mut TurnControl, bytes: u64| {
        begin_call(
            control, turn, call("m"), ModelCallMode::Stream, input(), options(), seconds(5), bytes, 1, seconds(0),
            true,
        )
    };
    assert_eq!(
        begin(&mut control, &mut turn, 1000).unwrap_err(),
        ModelGatewayError::Runtime(ModelRuntimeError::RequestTooLarge { limit_bytes: 1000 })
    );
    let (admission, request) = begin(&mut control, &mut turn, 999).unwrap();
    assert_eq!(admission.deadline, seconds(5));
    assert_eq!(request.mode, ModelCallMode::Stream);
    assert_eq!(request.input, input());
    assert_eq!(request.options.max_tokens, Some(16));
    assert_eq!(effective_timeout(Some(seconds(9)), seconds(5)), seconds(5));
    assert_eq!(effective_timeout(Some(seconds(3)), seconds(5)), seconds(3));
    assert_eq!(effective_timeout(None, seconds(5)), seconds(5));
    assert!(validate_request_size(1, 1, 2).is_ok());
    assert!(validate_request_size(2, 1, 2).is_err());
    assert!(validate_request_size(u64::MAX, u64::MAX, usize::MAX).is_err());
}

#[test]
fn lost_drivers_are_named() {
    let told = |error: ModelGatewayError| match error {
        ModelGatewayError::Internal { code, message } => (code, message),
        _ => panic!("not internal"),
    };
    assert_eq!(
        told(driver_lost(12)),
        ("model_driver_lost".to_string(), "Model operation 12 ended without a completion report".to_string())
    );
    assert_eq!(
        told(stream_driver_lost(0)).1,
        "Model stream operation 0 ended without a terminal report"
    );
    assert_eq!(told(driver_unwound()).1, "Model operation driver unwound before canonical closure");
}

fn category(outcome: &ModelRecordedOutcome) -> (String, bool, Option<u16>) {
    match outcome {
        ModelRecordedOutcome::Failed { code, retryable, upstream_status, .. } => {
            (code.clone(), *retryable, *upstream_status)
        }
        _ => panic!("a success"),
    }
}

#[test]
fn answers_become_records() {
    let request = recorded();
    let (result, told) = conclude(&request, resolve_complete(Answer::Complete { response: answer(), checked: Ok(()) }));
    assert_eq!(result.outcome, ModelRecordedOutcome::Succeeded { response: answer() });
    assert_eq!(told.unwrap(), answer());
    for (error, code, retryable, status) in [
        (LlmError::Upstream { status: 503, body: "x".to_string() }, "model_upstream", true, Some(503)),
        (LlmError::Upstream { status: 400, body: "x".to_string() }, "model_upstream", false, Some(400)),
        (LlmError::Timeout, "model_timeout", true, None),
        (LlmError::StreamParse("x".to_string()), "model_stream_parse", false, None),
        (LlmError::Protocol(ModelProtocolError::InvalidJsonOutput), "model_protocol", false, None),
        (LlmError::Cancelled, "model_cancelled", false, None),
        (LlmError::Adapter("x".to_string()), "model_adapter", true, None),
    ] {
        let (result, told) = conclude(&request, resolve_complete(Answer::Failed(error)));
        assert_eq!(category(&result.outcome), (code.to_string(), retryable, status));
        assert!(matches!(told, Err(ModelGatewayError::Model(_))));
    }
    let (result, _) = conclude(&request, resolve_complete(Answer::Panicked));
    assert_eq!(category(&result.outcome).0, "model_runtime_panicked");
    let (result, error) = stopped_result(&request, ModelJobStopReason::QueueTimeout);
    assert_eq!(category(&result.outcome).0, "model_queue_timeout");
    assert_eq!(error, ModelGatewayError::Runtime(ModelRuntimeError::QueueTimeout));
    assert_eq!(result_stop_reason(&result), Some(ModelJobStopReason::QueueTimeout));
}

#[test]
fn preflight_and_streams_stop_where_they_must() {
    assert!(resolve_preflight(Preflight::Passed, Ok(())).is_none());
    assert_eq!(
        resolve_preflight(Preflight::Passed, Err(ModelJobStopReason::Timeout)),
        Some(Resolution::Stopped(ModelJobStopReason::Timeout))
    );
    assert_eq!(
        resolve_preflight(Preflight::Refused(LlmError::Timeout), Ok(())),
        Some(Resolution::ModelFailed { error: LlmError::Timeout, partial: nothing() })
    );
    let partial = || GenerationPartial { text: "so far".to_string(), tool_calls: vec![] };
    assert!(resolve_stream(StreamItem::Delta { added: Ok(()) }, &partial()).is_none());
    assert_eq!(
        resolve_stream(StreamItem::Ended, &partial()),
        Some(Resolution::ModelFailed {
            error: LlmError::Protocol(ModelProtocolError::MissingStreamTerminal),
            partial: partial(),
        })
    );
    assert_eq!(
        resolve_stream(StreamItem::ConsumerClosed, &partial()),
        Some(Resolution::ConsumerDropped(partial()))
    );
    assert_eq!(
        resolve_stream(
            StreamItem::Finished { response: answer(), agrees: Ok(()), checked: Ok(()) },
            &partial()
        ),
        Some(Resolution::Succeeded(answer()))
    );
    assert!(resolve_passing(Passing::Passed, &partial()).is_none());
    assert_eq!(
        resolve_passing(Passing::TimedOut, &partial()),
        Some(Resolution::ModelFailed { error: LlmError::Timeout, partial: partial() })
    );
}

#[test]
fn records_that_do_not_land_are_closure_failures() {
    assert!(append_request(&recorded(), Appended::Done).is_ok());
    match append_request(&recorded(), Appended::Refused(SessionRuntimeError::Stopped)) {
        Err(ModelGatewayError::Recording(failure)) => {
            assert_eq!(failure.stage(), ModelRecordStage::Request);
            assert_eq!(failure.source_error(), Some(&SessionRuntimeError::Stopped));
        }
        _ => panic!("no failure"),
    }
    let (result, _) = stopped_result(&recorded(), ModelJobStopReason::Cancelled);
    match append_result(&recorded(), &result, Appended::Panicked) {
        Err(ModelGatewayError::Recording(failure)) => {
            assert_eq!(failure.stage(), ModelRecordStage::Result);
            assert_eq!(failure.source_error(), None);
            assert_eq!(failure.result_evidence(), Some(&result));
        }
        _ => panic!("no failure"),
    }
}

#[test]
fn soft_estimates_leave_room() {
    let made = SoftModelBudgetEstimator.estimate(10, None).unwrap();
    assert_eq!((made.input_tokens, made.output_tokens), (1034, 4096));
    assert_eq!(made.input_evidence, TokenBoundEvidence::Estimate);
    assert_eq!(SoftModelBudgetEstimator.estimate(0, Some(0)).unwrap().output_tokens, 1);
    assert_eq!(SoftModelBudgetEstimator.estimate(0, Some(7)).unwrap().output_tokens, 7);
    assert_eq!(
        SoftModelBudgetEstimator.estimate(u64::MAX, None),
        Err(BudgetError::Stopped(BudgetStopReason::AccountingOverflow))
    );
}

#[test]
fn model_work_is_charged_as_it_reports() {
    let (mut account, mut budget) = TurnBudget::owned(
        TaskId::new("task".to_string()),
        SessionId::new("s".to_string()),
        TurnId::new("t".to_string()),
        seconds(0),
    )
    .unwrap();
    let estimate = SoftModelBudgetEstimator.estimate(10, Some(20)).unwrap();
    let asked = request_estimate(&account, &mut budget, EstimateAnswer::Estimated(estimate), seconds(0)).unwrap();
    assert_eq!(asked.amounts.model_requests, 1);
    assert_eq!(asked.amounts.input_tokens, 1034);
    let held = account.scope.reserve(&mut budget, asked, seconds(0)).unwrap();
    let mut job = JobBudget::new(held);
    job.start(&mut budget, seconds(0)).unwrap();
    job.observe(&TokenUsage { input_tokens: Some(8), output_tokens: Some(2), total_tokens: None });
    job.settle(&mut budget, seconds(1)).unwrap();
    let report = budget.report(seconds(1)).unwrap();
    assert_eq!(report.charged.input_tokens, 8);
    assert_eq!(report.charged.output_tokens, 2);
    account.finish_owned(&mut budget, seconds(1)).unwrap();
    assert!(request_estimate(&account, &mut budget, EstimateAnswer::Panicked, seconds(1)).is_err());
}

#[test]
fn foreign_tasks_and_turns_are_refused() {
    let (mut budget, run) = own_budget(
        "agent".to_string(),
        TaskId::new("task".to_string()),
        SessionId::new("s".to_string()),
        TurnId::new("t".to_string()),
        seconds(0),
    )
    .unwrap();
    let account = TurnBudget::bound(run.scope(), &mut budget, seconds(0)).unwrap();
    let same = TaskId::new("task".to_string());
    let other = TaskId::new("other".to_string());
    assert!(account.check_context(&mut budget, Some(&same), seconds(0)).is_ok());
    assert_eq!(
        account.check_context(&mut budget, Some(&other), seconds(0)),
        Err(BudgetError::IdentityMismatch)
    );
}

#[test]
fn requests_are_written_with_sorted_keys() {
    let text = request("gpt", &input(), Some(16), true, true);
    assert_eq!(
        text.as_str(),
        r#"{"max_tokens":16,"messages":[{"content":"be \"brief\"","role":"system"},{"content":"hello","role":"user"}],"model":"gpt","stream":true,"stream_options":{"include_usage":true}}"#
    );
    let tools = GenerationRequest {
        messages: vec![ModelMessage::Assistant {
            content: None,
            tool_calls: vec![ModelToolCall {
                id: ProviderToolCallId::new("p".to_string()),
                name: "look".to_string(),
                arguments: Json::from_compact("{\"x\":1}".to_string()),
            }],
        }],
        constraint: GenerationConstraint::NativeTools {
            tools: vec![ModelToolDefinition {
                name: "look".to_string(),
                description: "looks".to_string(),
                parameters: Json::from_compact("{\"type\":\"object\"}".to_string()),
            }],
            choice: ToolChoice::Named { name: "look".to_string() },
        },
    };
    let text = request("gpt", &tools, None, false, true);
    let value: serde_json::Value = serde_json::from_str(text.as_str()).unwrap();
    assert_eq!(serde_json::to_string(&value).unwrap(), text.as_str());
    assert_eq!(value["messages"][0]["tool_calls"][0]["function"]["arguments"], "{\"x\":1}");
    assert_eq!(value["tools"][0]["function"]["parameters"]["type"], "object");
    assert_eq!(value["tool_choice"]["function"]["name"], "look");
}

fn choice() -> WireChoice {
    WireChoice {
        index: 0,
        role: Some("assistant".to_string()),
        content: Some("hi".to_string()),
        tool_calls: vec![],
        function_call: false,
        finish_reason: Some("stop".to_string()),
    }
}

#[test]
fn completions_are_read_choice_by_choice() {
    let plan = decode(&vec![choice()]);
    assert_eq!(plan.deltas, vec![GenerationDelta::Text { text: "hi".to_string() }]);
    assert_eq!(plan.end, Ok(FinishReason::Stop));
    assert_eq!(decode(&vec![]).end, Err(CompletionFault::ChoiceCount));
    assert_eq!(decode(&vec![choice(), choice()]).end, Err(CompletionFault::ChoiceCount));
    let mut odd = choice();
    odd.role = Some("user".to_string());
    assert_eq!(decode(&vec![odd]).end, Err(CompletionFault::UnsupportedChoice));
    let mut calling = choice();
    calling.content = None;
    calling.finish_reason = Some("tool_calls".to_string());
    calling.tool_calls = vec![WireCall {
        id: "p".to_string(),
        kind: "function".to_string(),
        name: "look".to_string(),
        arguments: "{}".to_string(),
    }];
    let plan = decode(&vec![calling]);
    assert_eq!(
        plan.deltas,
        vec![GenerationDelta::ToolCall {
            index: 0,
            id: Some("p".to_string()),
            name: Some("look".to_string()),
            arguments: "{}".to_string(),
        }]
    );
    let mut foreign = choice();
    foreign.tool_calls = vec![WireCall {
        id: "p".to_string(),
        kind: "custom".to_string(),
        name: "look".to_string(),
        arguments: "{}".to_string(),
    }];
    assert_eq!(decode(&vec![foreign]).end, Err(CompletionFault::UnsupportedCall));
    assert_eq!(fault_text(CompletionFault::UnsupportedCall), "unsupported tool-call kind");
    assert_eq!(reason(None), FinishReason::Unknown);
    assert_eq!(reason(Some("length".to_string())), FinishReason::Length);
    assert_eq!(reason(Some("content_filter".to_string())), FinishReason::ContentFiltered);
    assert_eq!(reason(Some("odd".to_string())), FinishReason::Other { code: "odd".to_string() });
    assert_eq!(
        usage(Some(1), None, Some(2)),
        TokenUsage { input_tokens: Some(1), output_tokens: None, total_tokens: Some(2) }
    );
}

#[test]
fn conversations_must_answer_their_calls() {
    assert!(input().validate_shape().is_ok());
    assert_eq!(
        GenerationRequest::text(vec![]).validate_shape(),
        Err(ModelProtocolError::EmptyRequest)
    );
    let stray = GenerationRequest::text(vec![ModelMessage::Tool {
        call_id: ProviderToolCallId::new("p".to_string()),
        content: "x".to_string(),
    }]);
    assert_eq!(stray.validate_shape(), Err(ModelProtocolError::UnexpectedToolResult));
    let open = GenerationRequest::text(vec![ModelMessage::Assistant {
        content: None,
        tool_calls: vec![ModelToolCall {
            id: ProviderToolCallId::new("p".to_string()),
            name: "look".to_string(),
            arguments: Json::from_compact("{}".to_string()),
        }],
    }]);
    assert_eq!(open.validate_shape(), Err(ModelProtocolError::UnansweredToolCall));
}
