use jingwei::budget::ledger::{BudgetRun, TaskBudget};
use jingwei::budget::model::BudgetError;
use jingwei::budget::vocabulary::{BudgetIdentity, BudgetLimits, BudgetStopReason, TokenBudgetMode};
use jingwei::id::{EventId, SessionId, TaskId, TurnId};
use jingwei::json::Json;
use jingwei::session::error::SessionRuntimeError;
use jingwei::session::event::{SessionEvent, SessionEventKind};
use jingwei::session::tool_record::{
    ToolCall, ToolEffect, ToolEffectContract, ToolFailureCategory, ToolOperation, ToolRecordedOutcome, ToolResult,
    ToolRetryReview, ToolReviewOutcome,
};
use jingwei::time::Duration;
use jingwei::tool::binding::{bind_own_turn, bind_turn};
use jingwei::tool::control::{
    begin_call, effective_output_limit, effective_timeout, RuntimeControl, TurnControl, MAX_LIFECYCLE_FAILURES,
};
use jingwei::tool::failure::{
    ToolClosureFailure, ToolFinishMode, ToolPreflightError, ToolRecordError, ToolRecordStage, ToolRuntimeError,
    ToolTurnFailure, MAX_TOOL_TURN_FAILURES,
};
use jingwei::tool::recovery::{
    inspect_tool_recovery, prepare_tool_retry, text_valid, validate_tool_contract, ToolRecoveryStatus, ToolRetryError,
};
use jingwei::tool::registry::{
    expand_grants, freeze_guards, freeze_tools, granted_tools, is_available, refusal_text, turn_schemas, CanonicalToolRuntimePlugin,
    GrantSpec, RegistrationFault, ToolRegistration,
};
use jingwei::tool::schema::{check_arguments, compile_schema, validate_local_schema, SchemaFault, Validation};
use jingwei::tool::semantic::{
    bounded_text, conclude_operation, driver_unwound, operation_result, resolve_semantic, Approval, AuthorizerAnswer,
    BodyAnswer, Controlled, GuardAnswer, Interruption, JobBudget, Observed, SemanticAction,
};
use jingwei::tool::vocabulary::{
    ApprovalRequirement, ToolAuthorizationDecision, ToolBodyError, ToolCallOptions, ToolCaller, ToolDenial, ToolGuardError,
    ToolMetadata,
};

fn json(text: &str) -> Json {
    Json::from_compact(text.to_string())
}

fn call(id: &str, name: &str) -> ToolCall {
    ToolCall { action: None, id: id.to_string(), name: name.to_string(), arguments: json("{}"), operation: None }
}

fn closure(n: usize) -> ToolRuntimeError {
    let id = format!("call_{}", n);
    let result = ToolResult {
        call_id: id.clone(),
        outcome: ToolRecordedOutcome::Succeeded { output: "ok".to_string() },
    };
    ToolRuntimeError::Recording(Box::new(ToolClosureFailure::result(
        call(&id, "tool.ok"),
        result,
        SessionRuntimeError::Stopped,
    )))
}

#[test]
fn result_recording_failure_reaches_waiter_and_host_drain_once() {
    const ATTEMPTS: usize = MAX_LIFECYCLE_FAILURES + 1;
    assert!(
        ToolTurnFailure::from_failures(vec![ToolRuntimeError::Stopped]).is_err(),
        "semantic/admission errors cannot masquerade as closure evidence"
    );
    let mut runtime = RuntimeControl::new(4);
    runtime.start().unwrap();
    let turn_id = runtime.bind_turn().unwrap();
    let mut turn = TurnControl::new();
    for n in 0..ATTEMPTS {
        let waiter_error = closure(n);
        let ToolRuntimeError::Recording(waiter_failure) = &waiter_error else {
            panic!("expected result recording failure");
        };
        assert_eq!(waiter_failure.stage(), ToolRecordStage::Result);
        runtime.complete_job(&mut turn, turn_id, n as u64, Some(waiter_error));
    }
    assert_eq!(turn.begin_finish(ToolFinishMode::Graceful), Vec::<u64>::new());
    let drain = turn.finish(None).unwrap_err();
    runtime.acknowledge_turn(turn_id);
    assert_eq!(drain.failures().len(), MAX_TOOL_TURN_FAILURES);
    assert_eq!(drain.omitted(), ATTEMPTS - MAX_TOOL_TURN_FAILURES);
    assert_eq!(drain.total_count(), ATTEMPTS);
    let ToolRuntimeError::Recording(drain_failure) = &drain.failures()[0] else {
        panic!("expected the same typed result recording failure at drain");
    };
    assert_eq!(drain_failure.stage(), ToolRecordStage::Result);
    assert!(runtime.begin_stop());
    runtime.finish_stop().unwrap();
}

#[test]
fn failures_that_nobody_heard_are_told_at_the_end() {
    let mut runtime = RuntimeControl::new(4);
    runtime.start().unwrap();
    assert_eq!(runtime.start(), Err("ToolRuntime lifecycle start was repeated"));
    let mut turn = TurnControl::new();
    runtime.complete_job(&mut turn, 7, 0, Some(driver_unwound(3)));
    runtime.complete_job(&mut turn, 7, 1, Some(driver_unwound(4)));
    assert_eq!(turn.failures.len(), 2);
    match &turn.failures[0] {
        ToolRuntimeError::Internal { code, message } => {
            assert_eq!(code, "tool_driver_unwound");
            assert_eq!(message, "Tool operation 3 unwound before canonical closure");
        }
        _ => panic!("not an internal failure"),
    }
    assert!(runtime.begin_stop());
    assert_eq!(
        runtime.finish_stop(),
        Err("2 Tool operation(s) failed canonical closure before shutdown".to_string())
    );
    assert!(!runtime.begin_stop());
}

#[test]
fn an_own_run_that_does_not_finish_is_a_failure_to_close() {
    let mut turn = TurnControl::new();
    let failure = turn.finish(Some(BudgetError::PendingReservations)).unwrap_err();
    match &failure.failures()[0] {
        ToolRuntimeError::Internal { code, message } => {
            assert_eq!(code, "tool_budget_finish_failed");
            assert_eq!(message, "pending reservations must be settled before finishing");
        }
        _ => panic!("not an internal failure"),
    }
}

#[test]
fn schemas_are_checked_by_the_outside_validator() {
    let object = json(r#"{"type":"object","properties":{"n":{"type":"integer"}},"required":["n"]}"#);
    assert!(validate_local_schema(&object).is_ok());
    assert!(compile_schema(&object).is_ok());
    assert_eq!(check_arguments(&object, &json(r#"{"n":3}"#)), Validation::Valid);
    assert!(matches!(check_arguments(&object, &json(r#"{"n":"x"}"#)), Validation::Invalid(_)));
    assert!(matches!(check_arguments(&object, &json("{}")), Validation::Invalid(_)));
    let wrong = json(r#"{"type":"no such type"}"#);
    assert!(matches!(validate_local_schema(&wrong), Err(SchemaFault::NotDraft202012(_))));
    assert!(matches!(compile_schema(&wrong), Err(SchemaFault::NotCompiled(_))));
    assert_eq!(check_arguments(&wrong, &json("{}")), Validation::Fault);
    assert!(matches!(validate_local_schema(&json("{")), Err(SchemaFault::NotDraft202012(_))));
    let dangling = json(r##"{"$ref":"#/$defs/missing"}"##);
    assert!(validate_local_schema(&dangling).is_ok());
    assert!(matches!(compile_schema(&dangling), Err(SchemaFault::NotCompiled(_))));
}

fn registration(key: &str, schema: &str) -> ToolRegistration {
    ToolRegistration {
        key: key.to_string(),
        owner: "plugin".to_string(),
        metadata: Some(ToolMetadata::new("does things".to_string(), json(schema))),
    }
}

#[test]
fn tools_are_frozen_once_per_name() {
    let authorizers = vec!["desk".to_string()];
    let mut second = registration("a", r#"{"type":"object"}"#);
    second.metadata = Some(
        ToolMetadata::new("newer".to_string(), json("true"))
            .with_approval(ApprovalRequirement::required("desk".to_string())),
    );
    let tools = freeze_tools(
        vec![registration("b", r#"{"type":"object"}"#), registration("a", "{}"), second],
        &authorizers,
    )
    .unwrap();
    assert_eq!(tools.len(), 2);
    assert_eq!(tools[1].key, "a");
    assert_eq!(tools[1].metadata.description(), "newer");
}

#[test]
fn refused_registrations_say_why() {
    let none: Vec<String> = vec![];
    let refused = freeze_tools(vec![registration("a", "{}"), registration("", "{}")], &none).unwrap_err();
    assert_eq!(refused.index, 1);
    assert_eq!(refused.fault, RegistrationFault::InvalidKey);
    assert_eq!(
        refusal_text(&registration("", "{}"), &refused.fault),
        "Tool `` from plugin `plugin` has an invalid registration key"
    );
    let long = "k".repeat(257);
    assert_eq!(
        freeze_tools(vec![registration(&long, "{}")], &none).unwrap_err().fault,
        RegistrationFault::InvalidKey
    );
    let mute = ToolRegistration { key: "m".to_string(), owner: "p".to_string(), metadata: None };
    let refused = freeze_tools(vec![mute], &none).unwrap_err();
    assert_eq!(refused.fault, RegistrationFault::MetadataPanicked);
    let mut guarded = registration("g", "{}");
    guarded.metadata = Some(
        ToolMetadata::new("d".to_string(), json("{}"))
            .with_approval(ApprovalRequirement::required("desk".to_string())),
    );
    let text = refusal_text(&guarded, &RegistrationFault::MissingAuthorizer);
    assert_eq!(freeze_tools(vec![guarded], &none).unwrap_err().fault, RegistrationFault::MissingAuthorizer);
    assert_eq!(text, "Tool `g` requires missing authorizer `desk`");
    assert!(matches!(
        freeze_tools(vec![registration("s", r#"{"type":5}"#)], &none).unwrap_err().fault,
        RegistrationFault::Schema(SchemaFault::NotDraft202012(_))
    ));
}

#[test]
fn grants_name_tools_that_exist() {
    let none: Vec<String> = vec![];
    let tools = freeze_tools(vec![registration("b", "{}"), registration("a", "{}")], &none).unwrap();
    let plugin = CanonicalToolRuntimePlugin::new()
        .grant_tool("zed".to_string(), "b".to_string())
        .grant_all("all".to_string())
        .grant_tool("all".to_string(), "nothing".to_string())
        .grant_tool("zed".to_string(), "a".to_string());
    assert_eq!(plugin.grants().len(), 2);
    assert_eq!(plugin.grants()[0].owner, "all");
    assert_eq!(plugin.grants()[0].spec, GrantSpec::All);
    assert_eq!(plugin.grants()[1].spec, GrantSpec::Named(vec!["a".to_string(), "b".to_string()]));
    let grants = expand_grants(plugin.grants(), &tools).unwrap();
    assert_eq!(granted_tools(&grants, "all"), vec!["a".to_string(), "b".to_string()]);
    assert_eq!(granted_tools(&grants, "nobody"), Vec::<String>::new());
    assert!(is_available(&granted_tools(&grants, "zed"), &tools, "a"));
    assert!(!is_available(&granted_tools(&grants, "nobody"), &tools, "a"));
    let schemas = turn_schemas(&granted_tools(&grants, "all"), &tools);
    assert_eq!(schemas[0].name, "a");
    assert_eq!(schemas[1].name, "b");
    let bad = CanonicalToolRuntimePlugin::new().grant_tool("o".to_string(), "missing".to_string());
    assert_eq!(
        expand_grants(bad.grants(), &tools),
        Err("ToolRuntime grant for owner `o` references missing Tool `missing`".to_string())
    );
}

#[test]
fn plugin_settings_are_checked() {
    let plugin = CanonicalToolRuntimePlugin::new();
    assert!(plugin.validate(true).is_ok());
    assert_eq!(
        plugin.validate(false),
        Err("canonical ToolRuntime default timeout exceeds the executor clock range")
    );
    let plugin = plugin
        .with_default_timeout(Duration::from_secs(1))
        .with_max_output_bytes(10)
        .with_max_in_flight(0);
    assert_eq!(
        plugin.validate(true),
        Err("canonical ToolRuntime max_in_flight must be greater than zero")
    );
}

fn observed() -> Observed {
    Observed {
        interrupted_first: None,
        available: true,
        approval: Approval::NotRequired,
        guards: 0,
        output_limit: 4,
        validation: None,
        rechecked: None,
        guard_answers: vec![],
        authorizer_answer: None,
        interrupted_last: None,
        started: None,
        body_answer: None,
    }
}

fn failure(action: SemanticAction) -> (ToolFailureCategory, String, String, bool) {
    match action {
        SemanticAction::Done(resolution) => match resolution.outcome {
            ToolRecordedOutcome::Failed { category, code, message, retryable } => (category, code, message, retryable),
            _ => panic!("a success"),
        },
        _ => panic!("not done"),
    }
}

#[test]
fn calls_go_through_every_consent_in_order() {
    let mut seen = observed();
    seen.guards = 2;
    seen.approval = Approval::Required;
    assert_eq!(resolve_semantic(&seen), SemanticAction::Validate);
    seen.validation = Some(Validation::Valid);
    assert_eq!(resolve_semantic(&seen), SemanticAction::Recheck);
    seen.rechecked = Some(None);
    assert_eq!(resolve_semantic(&seen), SemanticAction::AskGuard(0));
    seen.guard_answers.push(Controlled::Ready(GuardAnswer::Passed));
    assert_eq!(resolve_semantic(&seen), SemanticAction::AskGuard(1));
    seen.guard_answers.push(Controlled::Ready(GuardAnswer::Passed));
    assert_eq!(resolve_semantic(&seen), SemanticAction::AskAuthorizer);
    seen.authorizer_answer =
        Some(Controlled::Ready(AuthorizerAnswer::Decided(ToolAuthorizationDecision::Approved)));
    assert_eq!(resolve_semantic(&seen), SemanticAction::Start);
    seen.interrupted_last = Some(None);
    seen.started = Some(Ok(()));
    assert_eq!(resolve_semantic(&seen), SemanticAction::RunBody);
    seen.body_answer = Some(Controlled::Ready(BodyAnswer::Output("done".to_string())));
    match resolve_semantic(&seen) {
        SemanticAction::Done(resolution) => assert_eq!(
            resolution.outcome,
            ToolRecordedOutcome::Succeeded { output: "done".to_string() }
        ),
        _ => panic!("not done"),
    }
    seen.body_answer = Some(Controlled::Ready(BodyAnswer::Output("too long".to_string())));
    assert_eq!(failure(resolve_semantic(&seen)).0, ToolFailureCategory::OutputLimit);
}

#[test]
fn every_refusal_has_its_category() {
    let mut seen = observed();
    seen.available = false;
    assert_eq!(
        failure(resolve_semantic(&seen)),
        (
            ToolFailureCategory::Unavailable,
            "tool_unavailable".to_string(),
            "Tool is unavailable to this caller".to_string(),
            false
        )
    );
    let mut seen = observed();
    seen.validation = Some(Validation::Invalid("no n".to_string()));
    assert_eq!(failure(resolve_semantic(&seen)).2, "no n");
    seen.validation = Some(Validation::Fault);
    assert_eq!(failure(resolve_semantic(&seen)).1, "tool_arguments_validation_fault");
    seen.validation = Some(Validation::Valid);
    seen.rechecked = Some(Some(Interruption::TimedOut));
    assert_eq!(failure(resolve_semantic(&seen)).0, ToolFailureCategory::Timeout);
    seen.rechecked = Some(None);
    seen.guards = 1;
    for (answer, category) in [
        (GuardAnswer::Panicked, ToolFailureCategory::GuardFault),
        (
            GuardAnswer::Fault(ToolGuardError::new("g".to_string(), "m".to_string(), true)),
            ToolFailureCategory::GuardFault,
        ),
        (
            GuardAnswer::Denied(ToolDenial::new("d".to_string(), "m".to_string(), false)),
            ToolFailureCategory::Denied,
        ),
    ] {
        seen.guard_answers = vec![Controlled::Ready(answer)];
        assert_eq!(failure(resolve_semantic(&seen)).0, category);
    }
    seen.guards = 0;
    seen.guard_answers = vec![];
    seen.approval = Approval::Unavailable;
    assert_eq!(failure(resolve_semantic(&seen)).0, ToolFailureCategory::ApprovalUnavailable);
    seen.approval = Approval::Required;
    seen.authorizer_answer = Some(Controlled::Ready(AuthorizerAnswer::Decided(
        ToolAuthorizationDecision::Denied(ToolDenial::new("d".to_string(), "m".to_string(), false)),
    )));
    assert_eq!(failure(resolve_semantic(&seen)).0, ToolFailureCategory::ApprovalDenied);
    seen.authorizer_answer = Some(Controlled::Ready(AuthorizerAnswer::Panicked));
    assert_eq!(failure(resolve_semantic(&seen)).0, ToolFailureCategory::ApprovalFault);
    seen.approval = Approval::NotRequired;
    seen.interrupted_last = Some(None);
    seen.started = Some(Err(BudgetError::RunClosed));
    let told = failure(resolve_semantic(&seen));
    assert_eq!(told.0, ToolFailureCategory::Budget);
    assert_eq!(told.2, "this run is closed");
    seen.started = Some(Ok(()));
    seen.body_answer = Some(Controlled::Ready(BodyAnswer::Panicked));
    assert_eq!(failure(resolve_semantic(&seen)).0, ToolFailureCategory::BodyPanic);
    seen.body_answer =
        Some(Controlled::Ready(BodyAnswer::Fault(ToolBodyError::new("b".to_string(), "m".to_string(), true))));
    assert_eq!(failure(resolve_semantic(&seen)), (
        ToolFailureCategory::BodyFailure,
        "b".to_string(),
        "m".to_string(),
        true
    ));
    seen.body_answer = Some(Controlled::Interrupted(Interruption::Cancelled));
    match resolve_semantic(&seen) {
        SemanticAction::Done(resolution) => assert!(resolution.cancelled),
        _ => panic!("not done"),
    }
    let mut seen = observed();
    seen.interrupted_first = Some(Interruption::Budget(BudgetError::Stopped(BudgetStopReason::ActiveTime)));
    match resolve_semantic(&seen) {
        SemanticAction::Done(resolution) => assert_eq!(
            resolution.budget_error,
            Some(BudgetError::Stopped(BudgetStopReason::ActiveTime))
        ),
        _ => panic!("not done"),
    }
}

#[test]
fn diagnostics_are_clipped_between_characters() {
    assert_eq!(bounded_text("abc", 3), "abc");
    assert_eq!(bounded_text("abc", 2), "ab");
    assert_eq!(bounded_text("aé", 2), "a");
    assert_eq!(bounded_text("é", 1), "");
    let long = "x".repeat(2000);
    let mut seen = observed();
    seen.validation = Some(Validation::Invalid(long));
    assert_eq!(failure(resolve_semantic(&seen)).2.len(), 1024);
}

#[test]
fn limits_only_get_tighter() {
    let metadata = ToolMetadata::new("d".to_string(), json("{}"))
        .with_timeout_ceiling(Duration::from_secs(20))
        .with_output_ceiling(200);
    let runtime = Duration::from_secs(30);
    assert_eq!(effective_timeout(runtime, None, None), runtime);
    assert_eq!(effective_timeout(runtime, Some(&metadata), None), Duration::from_secs(20));
    assert_eq!(
        effective_timeout(runtime, Some(&metadata), Some(Duration::from_secs(5))),
        Duration::from_secs(5)
    );
    assert_eq!(effective_output_limit(100, Some(&metadata), None), 100);
    assert_eq!(effective_output_limit(300, Some(&metadata), None), 200);
    assert_eq!(effective_output_limit(300, Some(&metadata), Some(10)), 10);
}

fn options() -> ToolCallOptions {
    ToolCallOptions { action: None, timeout: None, max_output_bytes: Some(50) }
}

#[test]
fn calls_take_room_and_budget_together() {
    let limits = BudgetLimits::default();
    let mut budget = TaskBudget::new(
        BudgetIdentity {
            task_id: TaskId::new("task".to_string()),
            session_id: SessionId::new("s".to_string()),
            agent_key: "agent".to_string(),
        },
        limits,
        limits,
        TokenBudgetMode::Soft,
        Duration::zero(),
    )
    .unwrap();
    let run = budget
        .begin_run(TurnId::new("t".to_string()), limits, Duration::zero(), Duration::zero())
        .unwrap();
    let scope = run.scope();
    let mut runtime = RuntimeControl::new(1);
    let mut turn = TurnControl::new();
    let now = Duration::from_secs(1);
    let timeout = Duration::from_secs(30);
    let start = |runtime: &mut RuntimeControl, turn: &mut TurnControl, budget: &mut TaskBudget, name: &str| {
        begin_call(
            runtime, turn, &scope, budget, name, &json("{}"), None, &options(), timeout, 100, true, false, now,
        )
    };
    assert!(matches!(start(&mut runtime, &mut turn, &mut budget, "x"), Err(ToolRuntimeError::Stopped)));
    runtime.start().unwrap();
    assert!(matches!(
        start(&mut runtime, &mut turn, &mut budget, ""),
        Err(ToolRuntimeError::Preflight(ToolPreflightError::EmptyName))
    ));
    assert!(matches!(
        start(&mut runtime, &mut turn, &mut budget, &"n".repeat(257)),
        Err(ToolRuntimeError::Preflight(ToolPreflightError::NameTooLong { actual: 257, max: 256 }))
    ));
    let started = start(&mut runtime, &mut turn, &mut budget, "x").unwrap();
    assert_eq!(started.job_id, 0);
    assert_eq!(started.output_limit, 50);
    assert_eq!(started.timeout, timeout);
    assert_eq!(started.deadline, Duration::from_secs(31));
    assert_eq!(started.budget_deadline, now.checked_add(started.budget_time));
    assert!(matches!(start(&mut runtime, &mut turn, &mut budget, "x"), Err(ToolRuntimeError::Overloaded)));
    let report = budget.report(now).unwrap();
    assert_eq!(report.charged.tool_calls, 1);
    assert_eq!(report.reserved.tool_output_bytes, 50);
    let mut account = JobBudget::new(started.reservation);
    account.start(&mut budget, now).unwrap();
    account.observe_output(7);
    account.settle(&mut budget, now).unwrap();
    account.settle(&mut budget, now).unwrap();
    let report = budget.report(now).unwrap();
    assert_eq!(report.charged.tool_output_bytes, 7);
    assert_eq!(report.reserved.tool_output_bytes, 0);
    assert_eq!(runtime.complete_job(&mut turn, 0, 0, None), (true, true));
    let started = start(&mut runtime, &mut turn, &mut budget, "x").unwrap();
    let mut account = JobBudget::new(started.reservation);
    account.start(&mut budget, now).unwrap();
    account.observe_output(u64::MAX);
    assert_eq!(
        account.settle(&mut budget, now),
        Err(BudgetError::Stopped(BudgetStopReason::AccountingOverflow))
    );
    assert!(account.reservation.is_none());
    let report = budget.report(now).unwrap();
    assert_eq!(report.pending.len(), 1);
    assert!(report.pending[0].abandoned);
    assert!(report.pending[0].failed_usage.is_some());
    assert_eq!(report.stop, Some(BudgetStopReason::AccountingOverflow));
}

fn event(id: &str, seq: u64, kind: SessionEventKind) -> SessionEvent {
    SessionEvent {
        event_id: EventId::new(id.to_string()),
        session_id: SessionId::new("s".to_string()),
        turn_id: TurnId::new("t".to_string()),
        generation_id: None,
        message_id: None,
        seq,
        kind,
    }
}

#[test]
fn executions_need_matching_records() {
    let result = operation_result(&call("c", "x"), ToolRecordedOutcome::Succeeded { output: "ok".to_string() });
    assert_eq!(result.call_id, "c");
    let recorded = |seq: u64| {
        event(
            "r",
            seq,
            SessionEventKind::ToolResult {
                result: operation_result(
                    &call("c", "x"),
                    ToolRecordedOutcome::Succeeded { output: "ok".to_string() },
                ),
            },
        )
    };
    let asked = || event("q", 0, SessionEventKind::ToolCall { call: call("c", "x") });
    let heard = conclude_operation(call("c", "x"), result, asked(), Ok(recorded(1)), None, false).unwrap();
    assert_eq!(heard.result().call_id, "c");
    let result = || operation_result(&call("c", "x"), ToolRecordedOutcome::Succeeded { output: "ok".to_string() });
    assert!(matches!(
        conclude_operation(call("c", "x"), result(), asked(), Ok(recorded(1)), None, true),
        Err(ToolRuntimeError::Cancelled { .. })
    ));
    assert!(matches!(
        conclude_operation(
            call("c", "x"),
            result(),
            asked(),
            Ok(recorded(1)),
            Some(BudgetError::RunClosed),
            false
        ),
        Err(ToolRuntimeError::Budget(BudgetError::RunClosed))
    ));
    match conclude_operation(call("c", "x"), result(), asked(), Ok(recorded(0)), None, false) {
        Err(ToolRuntimeError::Internal { code, message }) => {
            assert_eq!(code, "tool_record_evidence_invalid");
            assert_eq!(message, "committed ToolResult does not follow its ToolCall");
        }
        _ => panic!("a reversed sequence was taken"),
    }
    assert!(matches!(
        conclude_operation(
            call("c", "x"),
            result(),
            asked(),
            Err(ToolRecordError::RecorderPanicked),
            None,
            false
        ),
        Err(ToolRuntimeError::Recording(_))
    ));
}

fn operation(effect: ToolEffect) -> ToolOperation {
    ToolOperation {
        task_id: TaskId::new("task".to_string()),
        key: "op".to_string(),
        contract: ToolEffectContract { effect, revision: "1".to_string() },
        retry: None,
    }
}

fn history(effect: ToolEffect, outcome: Option<ToolRecordedOutcome>) -> Vec<SessionEvent> {
    let mut asked = call("c", "x");
    asked.operation = Some(operation(effect));
    let mut events = vec![event("e0", 0, SessionEventKind::ToolCall { call: asked })];
    if let Some(outcome) = outcome {
        events.push(event(
            "e1",
            1,
            SessionEventKind::ToolResult { result: ToolResult { call_id: "c".to_string(), outcome } },
        ));
    }
    events
}

fn failed(category: ToolFailureCategory) -> Option<ToolRecordedOutcome> {
    Some(ToolRecordedOutcome::Failed {
        category,
        code: "c".to_string(),
        message: "m".to_string(),
        retryable: true,
    })
}

#[test]
fn recovery_reads_what_the_record_shows() {
    let status = |events: Vec<SessionEvent>| inspect_tool_recovery(&events, 100, "c").unwrap().status;
    assert_eq!(status(history(ToolEffect::Unknown, None)), ToolRecoveryStatus::OutcomeUnknown);
    assert_eq!(
        status(history(ToolEffect::Unknown, failed(ToolFailureCategory::Denied))),
        ToolRecoveryStatus::NotExecuted
    );
    assert_eq!(
        status(history(ToolEffect::Unknown, failed(ToolFailureCategory::BodyFailure))),
        ToolRecoveryStatus::OutcomeUnknown
    );
    assert_eq!(
        status(history(
            ToolEffect::Unknown,
            Some(ToolRecordedOutcome::Succeeded { output: String::new() })
        )),
        ToolRecoveryStatus::Completed
    );
    assert_eq!(
        inspect_tool_recovery(&history(ToolEffect::Unknown, None), 16_777_217, "c"),
        Err(ToolRetryError::InvalidEvidence)
    );
    assert_eq!(
        inspect_tool_recovery(&history(ToolEffect::Unknown, None), 1, "other"),
        Err(ToolRetryError::InvalidEvidence)
    );
    assert_eq!(inspect_tool_recovery(&vec![], 1, "c"), Err(ToolRetryError::InvalidEvidence));
}

fn review(outcome: ToolReviewOutcome) -> Option<ToolRetryReview> {
    Some(ToolRetryReview { actor: "a".to_string(), evidence: "e".to_string(), outcome })
}

#[test]
fn retries_need_harmless_tools_or_a_host() {
    let retry = |effect: ToolEffect, outcome, review| prepare_tool_retry(&history(effect, outcome), 1, "c", review);
    assert_eq!(retry(ToolEffect::Unknown, None, None).unwrap_err(), ToolRetryError::NeedsReview);
    assert!(retry(ToolEffect::ReadOnly, None, None).is_ok());
    assert!(retry(ToolEffect::Idempotent, None, None).is_ok());
    assert!(retry(ToolEffect::Unknown, failed(ToolFailureCategory::Denied), None).is_ok());
    assert!(retry(ToolEffect::Unknown, None, review(ToolReviewOutcome::NotExecuted)).is_ok());
    assert_eq!(
        retry(ToolEffect::ReadOnly, None, review(ToolReviewOutcome::Completed)).unwrap_err(),
        ToolRetryError::Completed
    );
    let blank = Some(ToolRetryReview {
        actor: " ".to_string(),
        evidence: "e".to_string(),
        outcome: ToolReviewOutcome::NotExecuted,
    });
    assert_eq!(retry(ToolEffect::ReadOnly, None, blank).unwrap_err(), ToolRetryError::InvalidEvidence);
    let legacy = vec![event("e0", 0, SessionEventKind::ToolCall { call: call("c", "x") })];
    assert_eq!(prepare_tool_retry(&legacy, 1, "c", None).unwrap_err(), ToolRetryError::LegacyCall);
}

#[test]
fn plans_are_used_once_and_unchanged() {
    let mut plan = prepare_tool_retry(&history(ToolEffect::ReadOnly, None), 1, "c", None).unwrap();
    let session = SessionId::new("s".to_string());
    let task = TaskId::new("task".to_string());
    let contract = || ToolEffectContract { effect: ToolEffect::ReadOnly, revision: "1".to_string() };
    assert_eq!(
        plan.take_operation(&session, &task, "y", &json("{}"), &contract()).unwrap_err(),
        ToolRetryError::BindingChanged
    );
    let taken = plan.take_operation(&session, &task, "x", &json("{}"), &contract()).unwrap();
    assert_eq!(taken.retry.unwrap().call_id, "c");
    assert_eq!(
        plan.take_operation(&session, &task, "x", &json("{}"), &contract()).unwrap_err(),
        ToolRetryError::Consumed
    );
}

#[test]
fn a_second_attempt_names_the_first() {
    let mut events = history(ToolEffect::ReadOnly, failed(ToolFailureCategory::Timeout));
    let mut again = call("d", "x");
    again.operation = Some(operation(ToolEffect::ReadOnly));
    events.push(event("e2", 2, SessionEventKind::ToolCall { call: again }));
    assert_eq!(inspect_tool_recovery(&events, 1, "d"), Err(ToolRetryError::InvalidEvidence));
    let mut plan =
        prepare_tool_retry(&history(ToolEffect::ReadOnly, failed(ToolFailureCategory::Timeout)), 1, "c", None).unwrap();
    let taken = plan
        .take_operation(
            &SessionId::new("s".to_string()),
            &TaskId::new("task".to_string()),
            "x",
            &json("{}"),
            &ToolEffectContract { effect: ToolEffect::ReadOnly, revision: "1".to_string() },
        )
        .unwrap();
    let mut again = call("d", "x");
    again.operation = Some(taken);
    events[2] = event("e2", 2, SessionEventKind::ToolCall { call: again });
    assert_eq!(inspect_tool_recovery(&events, 1, "d").unwrap().status, ToolRecoveryStatus::OutcomeUnknown);
    assert_eq!(inspect_tool_recovery(&events, 1, "c"), Err(ToolRetryError::NotLatestAttempt));
    let mut changed = call("d", "y");
    changed.operation = Some(operation(ToolEffect::ReadOnly));
    events[2] = event("e2", 2, SessionEventKind::ToolCall { call: changed });
    assert_eq!(inspect_tool_recovery(&events, 1, "d"), Err(ToolRetryError::BindingChanged));
}

#[test]
fn contracts_have_a_revision() {
    assert!(text_valid("1"));
    assert!(!text_valid("  "));
    assert!(!text_valid(&"x".repeat(1025)));
    assert!(validate_tool_contract(&ToolEffectContract::default()).is_ok());
    assert_eq!(
        validate_tool_contract(&ToolEffectContract { effect: ToolEffect::Unknown, revision: String::new() }),
        Err(ToolRetryError::InvalidEvidence)
    );
}

#[test]
fn guards_are_asked_by_their_ordinals() {
    assert_eq!(freeze_guards(&vec![2, 1, 2, 0]), vec![3, 1, 0, 2]);
    assert_eq!(freeze_guards(&vec![]), Vec::<usize>::new());
}

#[test]
fn turns_see_what_their_owner_was_granted() {
    let none: Vec<String> = vec![];
    let tools = freeze_tools(vec![registration("b", "{}"), registration("a", "true")], &none).unwrap();
    let plugin = CanonicalToolRuntimePlugin::new().grant_tool("owner".to_string(), "a".to_string());
    let grants = expand_grants(plugin.grants(), &tools).unwrap();
    let mut runtime = RuntimeControl::new(4);
    let bind = |runtime: &mut RuntimeControl, cancelled: bool| {
        bind_own_turn(
            runtime,
            &grants,
            &tools,
            &ToolCaller::new("owner".to_string()),
            cancelled,
            TaskId::new("task".to_string()),
            SessionId::new("s".to_string()),
            TurnId::new("t".to_string()),
            Duration::zero(),
        )
    };
    assert_eq!(bind(&mut runtime, false).err().unwrap(), ToolRuntimeError::Stopped);
    runtime.start().unwrap();
    assert_eq!(bind(&mut runtime, true).err().unwrap(), ToolRuntimeError::TurnClosed);
    let (first, mut budget, run) = bind(&mut runtime, false).unwrap();
    assert_eq!(first.granted, vec!["a".to_string()]);
    assert_eq!(first.schemas[0].parameters, json("true"));
    assert_eq!(budget.identity().agent_key, "owner");
    let second = bind_turn(
        &mut runtime,
        &grants,
        &tools,
        &ToolCaller::new("stranger".to_string()),
        false,
        &run.scope(),
        &mut budget,
        Duration::zero(),
    )
    .unwrap();
    assert!(first.turn_id < second.turn_id);
    assert!(second.granted.is_empty() && second.schemas.is_empty());
    let loose = budget_without_turn();
    let (mut unbound, unbound_run) = loose;
    assert_eq!(
        bind_turn(
            &mut runtime,
            &grants,
            &tools,
            &ToolCaller::new("owner".to_string()),
            false,
            &unbound_run.scope(),
            &mut unbound,
            Duration::zero(),
        )
        .err()
        .unwrap(),
        ToolRuntimeError::Budget(BudgetError::IdentityMismatch)
    );
}

fn budget_without_turn() -> (TaskBudget, BudgetRun) {
    let limits = BudgetLimits::default();
    let mut budget = TaskBudget::new(
        BudgetIdentity {
            task_id: TaskId::new("task".to_string()),
            session_id: SessionId::new("s".to_string()),
            agent_key: "agent".to_string(),
        },
        limits,
        limits,
        TokenBudgetMode::Soft,
        Duration::zero(),
    )
    .unwrap();
    let run = budget.begin_admission(limits, Duration::zero(), Duration::zero()).unwrap();
    (budget, run)
}

#[test]
fn zeros_of_both_signs_are_one_argument() {
    let mut events = history(ToolEffect::ReadOnly, None);
    if let SessionEventKind::ToolCall { call } = &mut events[0].kind {
        call.arguments = json("{\"a\":-0.0,\"b\":\"-0.0\"}");
    }
    let session = SessionId::new("s".to_string());
    let task = TaskId::new("task".to_string());
    let contract = ToolEffectContract { effect: ToolEffect::ReadOnly, revision: "1".to_string() };
    let mut plan = prepare_tool_retry(&events, 1, "c", None).unwrap();
    for other in ["{\"a\":-0.05,\"b\":\"-0.0\"}", "{\"a\":0.0,\"b\":\"0.0\"}", "{\"a\":0,\"b\":\"-0.0\"}"] {
        assert_eq!(
            plan.take_operation(&session, &task, "x", &json(other), &contract).unwrap_err(),
            ToolRetryError::BindingChanged
        );
    }
    assert!(plan.take_operation(&session, &task, "x", &json("{\"a\":0.0,\"b\":\"-0.0\"}"), &contract).is_ok());
}
