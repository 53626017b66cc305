use std::sync::Arc;

use jingwei::agent::driver::{
    admission_matches, after_attempt, after_model, before_cleanup, committable_report, durable_evidence_holds,
    finalize_durable, model_finish_mode, not_admitted, observe_closing, report_attempt, task_run_report,
    tool_finish_mode, AdmissionEnd, CancelReason, ResolvedIntent, TurnCommitSummary,
};
use jingwei::agent::reference::{reports_run, DriveStart, ReferenceAgent, ReferenceAgentConfig, ReferenceDrive};
use jingwei::agent::reference_report::ReferenceStop;
use jingwei::agent::registry::{find_agent, freeze_agents, AgentBinding};
use jingwei::agent::turn::{
    AgentError, AgentRuntimeError, AgentTurnOutput, AgentTurnReport, AgentTurnRequest, DriveFailure,
    NotAdmittedFailure, SettlementAttempt, TaskRunReportAttempt, TerminalAttempt, TurnClosureStatus, TurnDisposition,
    TurnFailure, TurnFailureContext, TurnOutcome,
};
use jingwei::budget::binding::{bind_budget, own_budget};
use jingwei::budget::execution::{BudgetExecutionError, BudgetExecutionLease};
use jingwei::budget::ledger::{BudgetRun, TaskBudget};
use jingwei::budget::model::BudgetError;
use jingwei::budget::sealed::BudgetRestoreContext;
use jingwei::budget::vocabulary::{
    BudgetEventKind, BudgetIdentity, BudgetLimits, BudgetStopReason, TaskRunReport, TokenBoundEvidence,
    TokenBudgetMode,
};
use jingwei::context::budgeting::{
    ContextBudget, ContextBuildError, ContextBuildLimits, ContextCountError, ContextCountErrorView, ContextTarget,
    ContextTargetView, ContextTokenBreakdown, ContextTokenCount, ContextTokenCountView,
};
use jingwei::context::builder::{CanonicalContextBuilder, ContextBuildInput, ContextTokenCounter};
use jingwei::context::projector::CanonicalConversationProjector;
use jingwei::context::vocabulary::ProjectionConfig;
use jingwei::generation::{GenerationConstraint, GenerationRequest, GenerationRequestView, ModelMessage};
use jingwei::harness::{HarnessBuilder, ServiceSlot};
use jingwei::id::{BudgetExecutionId, EventId, MessageId, ModelCallId, SessionId, TaskId, TurnId};
use jingwei::json::Json;
use jingwei::llm::diagnostics::DiagnosticDetail;
use jingwei::llm::failure::{
    LlmError, ModelFinishMode, ModelGatewayError, ModelOverloadKind, ModelRuntimeError, ModelTurnFailure,
};
use jingwei::llm::results::{append_request, model_request, Appended, GenerationOptions};
use jingwei::llm::scheduler::closure_failure_of;
use jingwei::record::Record;
use jingwei::session::error::SessionRuntimeError;
use jingwei::session::event::{DoneStatus, SessionEvent, SessionEventKind};
use jingwei::session::file_name::decode_session_id;
use jingwei::session::outcome_text::outcome_json;
use jingwei::session::tool_record::{ToolCall, ToolRecordedOutcome};
use jingwei::task::coordinator::{check_cancelled, TaskCoordinatorError};
use jingwei::time::Duration;
use jingwei::tool::failure::{ToolFinishMode, ToolRecordError, ToolRecordStage, ToolRuntimeError, ToolTurnFailure};
use jingwei::tool::semantic::{after_settlement, call_not_recorded, confirm_record, SemanticResolution};
use jingwei::tool::vocabulary::ToolDenial;

fn seconds(n: u64) -> Duration {
    Duration::from_secs(n)
}

fn session() -> SessionId {
    SessionId::new("s".to_string())
}

fn turn() -> TurnId {
    TurnId::new("t".to_string())
}

fn identity() -> BudgetIdentity {
    BudgetIdentity { task_id: TaskId::new("task".to_string()), session_id: session(), agent_key: "agent".to_string() }
}

fn account() -> (TaskBudget, BudgetRun) {
    own_budget("agent".to_string(), TaskId::new("task".to_string()), session(), turn(), seconds(0)).unwrap()
}

fn event(seq: u64, kind: SessionEventKind) -> SessionEvent {
    SessionEvent {
        event_id: EventId::new(format!("e{}", seq)),
        session_id: session(),
        turn_id: turn(),
        generation_id: None,
        message_id: None,
        seq,
        kind,
    }
}

fn receipt() -> TaskRunReport {
    let (mut budget, mut run) = account();
    let report = run.prepare_report(&mut budget, seconds(1)).unwrap();
    task_run_report(report, TurnDisposition::Completed, CancelReason::NotRequested)
}

fn output() -> AgentTurnOutput {
    AgentTurnOutput { final_text: "done".to_string(), outcome: TurnOutcome::Completed, artifact: None }
}

fn intent() -> ResolvedIntent {
    ResolvedIntent::from_output(output())
}

#[test]
fn turns_that_never_began_say_why() {
    let (mut budget, mut run) = account();
    let report = run.finish(&mut budget, seconds(0)).unwrap();
    let error = BudgetError::Stopped(BudgetStopReason::ActiveTime);
    match not_admitted(AdmissionEnd::BudgetStopped(error), report) {
        AgentRuntimeError::NotAdmitted(NotAdmittedFailure::Budget { error: told, report }) => {
            assert_eq!(told, error);
            assert_eq!(report.identity, identity());
        }
        _ => panic!("another refusal"),
    }
    assert!(admission_matches(&session(), &session(), &session()));
    assert!(!admission_matches(&session(), &session(), &SessionId::new("other".to_string())));
}

#[test]
fn capabilities_close_as_the_turn_ends() {
    assert_eq!(model_finish_mode(&intent()), ModelFinishMode::Graceful);
    assert_eq!(tool_finish_mode(&intent(), true), ToolFinishMode::Graceful);
    assert_eq!(tool_finish_mode(&intent(), false), ToolFinishMode::Cancel);
    let cancelled = after_model(intent(), &"partial".to_string(), true);
    assert_eq!(cancelled.disposition, TurnDisposition::Cancelled);
    assert_eq!(cancelled.final_text, "partial");
    assert_eq!(model_finish_mode(&cancelled), ModelFinishMode::Cancel);
    let stopped = before_cleanup(intent(), Err(BudgetError::Stopped(BudgetStopReason::ActiveTime)));
    assert_eq!(stopped.disposition, TurnDisposition::Failed);
    assert_eq!(before_cleanup(intent(), Ok(())), intent());
}

#[test]
fn reports_count_only_when_confirmed() {
    let recorded = event(1, SessionEventKind::TaskRunReport { report: receipt() });
    let committed = report_attempt(receipt(), Some(Ok(recorded)), &session(), &turn());
    assert!(matches!(committed, TaskRunReportAttempt::Committed { .. }));
    assert_eq!(after_attempt(intent(), &committed).disposition, TurnDisposition::Completed);
    let other = event(1, SessionEventKind::UserMessage { text: "x".to_string() });
    let invalid = report_attempt(receipt(), Some(Ok(other)), &session(), &turn());
    assert!(matches!(invalid, TaskRunReportAttempt::Invalid { .. }));
    let failed = after_attempt(intent(), &invalid);
    assert_eq!(failed.disposition, TurnDisposition::Failed);
    assert_eq!(failed.drive_failure, Some(DriveFailure::BudgetReport { prior: None }));
    let rejected = report_attempt(receipt(), None, &session(), &turn());
    assert!(matches!(
        rejected,
        TaskRunReportAttempt::Rejected { error: BudgetError::IdentityMismatch, .. }
    ));
    let lost = report_attempt(receipt(), Some(Err(SessionRuntimeError::Stopped)), &session(), &turn());
    assert!(matches!(lost, TaskRunReportAttempt::Failed { .. }));
}

#[test]
fn durable_turns_need_all_their_evidence() {
    let reported = || event(1, SessionEventKind::TaskRunReport { report: receipt() });
    let terminal = || event(2, SessionEventKind::Done { status: DoneStatus::Completed, artifact: None });
    let attempt = report_attempt(receipt(), Some(Ok(reported())), &session(), &turn());
    let settled = Ok(TurnCommitSummary { turn_id: turn(), events: vec![reported(), terminal()] });
    let kind = terminal().kind;
    assert!(durable_evidence_holds(&attempt, &Ok(terminal()), &settled, &session(), &turn(), &kind));
    let reversed = Ok(TurnCommitSummary { turn_id: turn(), events: vec![terminal(), reported()] });
    assert!(!durable_evidence_holds(&attempt, &Ok(terminal()), &reversed, &session(), &turn(), &kind));
    let lost = Err(SessionRuntimeError::Stopped);
    assert!(!durable_evidence_holds(&attempt, &lost, &settled, &session(), &turn(), &kind));
    let seen = observe_closing(
        session(),
        turn(),
        TurnDisposition::Completed,
        &TerminalAttempt::Committed(terminal()),
        &SettlementAttempt::Failed(SessionRuntimeError::Stopped),
    );
    assert_eq!(seen.closure, TurnClosureStatus::SettlementFailed);
}

fn report() -> AgentTurnReport {
    AgentTurnReport::new(session(), turn(), TurnDisposition::Completed, "done".to_string(), None, Arc::new(vec![]))
}

#[test]
fn durable_outcomes_wait_for_the_ledger() {
    assert!(committable_report(&Ok(report())).is_some());
    match finalize_durable(Ok(report()), None) {
        Err(AgentRuntimeError::Durability { source, .. }) => {
            assert_eq!(source, BudgetExecutionError::IncompleteTurn)
        }
        _ => panic!("committed"),
    }
    match finalize_durable(Ok(report()), Some(Err(BudgetExecutionError::Missing))) {
        Err(AgentRuntimeError::Durability { source, .. }) => assert_eq!(source, BudgetExecutionError::Missing),
        _ => panic!("committed"),
    }
    let limits = BudgetLimits::default();
    let image = TaskBudget::new(identity(), limits, limits, TokenBudgetMode::Soft, seconds(0))
        .unwrap()
        .seal_checkpoint(None, seconds(0))
        .unwrap();
    let done = finalize_durable(Ok(report()), Some(Ok(image))).unwrap();
    assert_eq!(done.budget_checkpoint().unwrap().revision(), 1);
}

#[test]
fn requests_carry_one_ledger() {
    let limits = BudgetLimits::default();
    let (budget, _) = account();
    let request = AgentTurnRequest::new(session(), "agent".to_string(), "hi".to_string()).with_budget(budget, limits);
    let image = TaskBudget::new(identity(), limits, limits, TokenBudgetMode::Soft, seconds(0))
        .unwrap()
        .seal_checkpoint(None, seconds(0))
        .unwrap();
    let context =
        BudgetRestoreContext { identity: identity(), revision: 1, confirmed_anchor: None, host_limits: limits };
    let lease = BudgetExecutionLease::acquire(
        Some(image),
        context,
        BudgetExecutionId::new("run".to_string()),
        seconds(0),
        seconds(0),
    )
    .unwrap();
    let (owner, key, text, bound, durable) = request.with_durable_budget(lease, limits).into_budget_parts();
    assert_eq!((owner.as_str(), key.as_str(), text.as_str()), ("s", "agent", "hi"));
    assert!(bound.is_none());
    assert_eq!(durable.unwrap().0.claim().revision(), 2);
}

#[test]
fn later_bindings_replace_earlier_ones() {
    let binding = |key: &str, owner: &str, slots: Vec<ServiceSlot>| AgentBinding {
        key: key.to_string(),
        owner: owner.to_string(),
        requires_slots: slots,
    };
    let agents = freeze_agents(&vec![
        binding("a", "first", vec![]),
        binding("b", "other", vec![ServiceSlot::ToolRuntime]),
        binding("a", "second", vec![ServiceSlot::LlmRuntime]),
    ]);
    assert_eq!(agents.len(), 2);
    let a = &agents[find_agent(&agents, "a").unwrap()];
    assert_eq!((a.owner.as_str(), a.model_allowed, a.tools_allowed), ("second", true, false));
    let b = &agents[find_agent(&agents, "b").unwrap()];
    assert!(b.tools_allowed && !b.model_allowed);
    assert!(find_agent(&agents, "c").is_none());
}

#[test]
fn diagnostics_keep_providers_words_to_themselves() {
    let shown = |error: ModelGatewayError| error.diagnostic();
    let first = shown(ModelGatewayError::Model(LlmError::Upstream { status: 500, body: "secret".to_string() }));
    let second = shown(ModelGatewayError::Model(LlmError::Upstream { status: 500, body: "other".to_string() }));
    assert_eq!(first, second);
    assert_eq!(first.kind, "model_upstream");
    assert_eq!(first.detail, DiagnosticDetail::Status(500));
    let full = shown(ModelGatewayError::Runtime(ModelRuntimeError::Overloaded {
        capacity: ModelOverloadKind::QueueFull,
    }));
    assert_eq!((full.kind, full.detail), ("model_overloaded", DiagnosticDetail::Capacity(ModelOverloadKind::QueueFull)));
    let internal =
        shown(ModelGatewayError::Internal { code: "c".to_string(), message: "words".to_string() });
    assert_eq!(internal.detail, DiagnosticDetail::Code("c".to_string()));
    let options = GenerationOptions {
        context: None,
        max_tokens: None,
        timeout: None,
        limits: jingwei::generation::GenerationLimits { max_output_bytes: 1, max_tool_calls: 1 },
    };
    let request = model_request(
        ModelCallId::new("m".to_string()),
        jingwei::generation::ModelCallMode::Complete,
        GenerationRequest::text(vec![ModelMessage::User { content: "secret".to_string() }]),
        &options,
    );
    let lost = append_request(&request, Appended::Panicked);
    assert!(closure_failure_of(&lost));
    match lost.unwrap_err().diagnostic().detail {
        DiagnosticDetail::Closure(closure) => {
            assert_eq!(closure.call_id.as_str(), "m");
            assert_eq!((closure.result_status, closure.source), (None, "recorder_panicked"));
        }
        _ => panic!("no closure"),
    }
}

#[test]
fn failures_have_a_line_of_text() {
    let tools = ToolTurnFailure::from_failures(vec![ToolRuntimeError::Internal {
        code: "c".to_string(),
        message: "m".to_string(),
    }])
    .unwrap()
    .unwrap();
    assert_eq!(tools.text(), "1 Tool operation(s) failed while closing the turn");
    let models = ModelTurnFailure::from_bounded_failures(
        vec![ModelGatewayError::Internal { code: "c".to_string(), message: "m".to_string() }],
        11,
    )
    .unwrap()
    .unwrap();
    assert_eq!(models.text(), "12 model operation(s) failed while closing the turn");
    let context = TurnFailureContext::new(
        session(),
        turn(),
        TurnDisposition::Failed,
        String::new(),
        None,
        None,
        Some(DriveFailure::Panicked),
    );
    let failure = TurnFailure::new(
        context,
        TerminalAttempt::Failed(SessionRuntimeError::Stopped),
        SettlementAttempt::Failed(SessionRuntimeError::Stopped),
    )
    .unwrap();
    assert_eq!(failure.text(), "turn t in Session s failed with disposition Failed");
    assert_eq!(ToolDenial::new("c".to_string(), "m".to_string(), false).text(), "Tool denied `c`: m");
}

#[test]
fn records_of_another_turn_stop_the_run() {
    let (mut budget, run) = account();
    let scope = run.scope();
    bind_budget(&scope, &mut budget, seconds(0)).unwrap();
    let mut foreign = event(0, SessionEventKind::UserMessage { text: "x".to_string() });
    let fine = confirm_record(&scope, &mut budget, true, BudgetEventKind::ToolCall, Ok(foreign.duplicate()), seconds(0));
    assert!(fine.is_ok());
    foreign.turn_id = TurnId::new("other".to_string());
    assert!(matches!(
        confirm_record(&scope, &mut budget, true, BudgetEventKind::ToolCall, Ok(foreign), seconds(0)),
        Err(ToolRecordError::IdentityMismatch { .. })
    ));
    let run = budget.report(seconds(0)).unwrap().run.unwrap();
    assert_eq!(run.stop, Some(BudgetStopReason::IdentityMismatch));
    let metrics = run.metrics;
    assert_eq!((metrics.confirmed.tool_calls, metrics.unconfirmed.tool_calls), (1, 1));
}

#[test]
fn unrecorded_calls_and_unsettled_budgets_are_failures() {
    let call = ToolCall {
        action: None,
        id: "c".to_string(),
        name: "x".to_string(),
        arguments: Json::from_compact("{}".to_string()),
        operation: None,
    };
    match call_not_recorded(call, ToolRecordError::RecorderPanicked) {
        ToolRuntimeError::Recording(failure) => {
            assert_eq!(failure.stage(), ToolRecordStage::Call);
            assert_eq!(failure.call_evidence().id, "c");
            assert_eq!(failure.record_error(), &ToolRecordError::RecorderPanicked);
        }
        _ => panic!("another error"),
    }
    let fine = || SemanticResolution::success("ok".to_string());
    assert_eq!(after_settlement(fine(), Ok(())), fine());
    assert_eq!(
        after_settlement(fine(), Err(BudgetError::RunClosed)).budget_error,
        Some(BudgetError::RunClosed)
    );
    assert!(ToolRuntimeError::Stopped.cancelled_execution().is_none());
}

#[test]
fn cleaning_up_takes_no_active_time() {
    let (mut budget, run) = account();
    let scope = run.scope();
    scope.begin_cleanup(&mut budget, seconds(2)).unwrap();
    let report = budget.report(seconds(5)).unwrap();
    assert_eq!(report.active_time, seconds(2));
    assert_eq!(report.cleanup_time, seconds(3));
}

#[test]
fn agents_stop_and_ask() {
    let config = ReferenceAgentConfig::new(
        ContextTarget { model: "m".to_string(), template_revision: "1".to_string() },
        budget_of(100),
    );
    let (mut ledger, _run) = account();
    let begin = |ledger: &mut TaskBudget, has_model: bool| {
        ReferenceDrive::begin(
            &config,
            &session(),
            &turn(),
            &"find".to_string(),
            DriveStart { budget: Some(ledger.report(seconds(0))), has_model, history: true, clock: Some(1) },
        )
    };
    assert!(begin(&mut ledger, false).is_err());
    let mut drive = begin(&mut ledger, true).unwrap();
    let asked = drive.ask_user("which \"one\"?".to_string()).unwrap();
    assert_eq!(asked.outcome, TurnOutcome::WaitingForInput);
    let artifact: serde_json::Value = serde_json::from_str(asked.artifact.unwrap().as_str()).unwrap();
    assert_eq!(artifact["pending"]["pending_question"], "which \"one\"?");
    assert_eq!(drive.run.stop, ReferenceStop::WaitingForInput);
    let halted = drive.halt();
    assert_eq!(drive.run.stop, ReferenceStop::ToolHalted);
    assert!(reports_run(&Err(halted)));
    assert!(!reports_run(&Err(AgentError::Cancelled)));
    assert!(ReferenceAgent::new(config).is_ok());
}

#[test]
fn small_things_hold() {
    assert_eq!(decode_session_id("6162").unwrap().as_str(), "ab");
    assert!(decode_session_id("6").is_none());
    assert!(check_cancelled(false).is_ok());
    assert_eq!(check_cancelled(true), Err(TaskCoordinatorError::Cancelled));
    let builder = HarnessBuilder::new()
        .select_llm_runtime("a".to_string())
        .select_persistence("b".to_string())
        .select_session_runtime("c".to_string())
        .select_tool_runtime("d".to_string());
    let slots: Vec<ServiceSlot> = builder.selections().iter().map(|selection| selection.slot).collect();
    assert_eq!(
        slots,
        vec![
            ServiceSlot::LlmRuntime,
            ServiceSlot::SessionPersistence,
            ServiceSlot::SessionRuntime,
            ServiceSlot::ToolRuntime
        ]
    );
}

#[test]
fn every_control_character_is_escaped() {
    let mut text = String::new();
    for code in 0u8..0x20 {
        text.push(code as char);
    }
    text.push_str("\\\"/\u{7f}é𝄞");
    let written = outcome_json(&ToolRecordedOutcome::Succeeded { output: text.clone() });
    let back: serde_json::Value = serde_json::from_str(&written).unwrap();
    assert_eq!(back["output"], text);
    assert!(written.contains("\\u0000") && written.contains("\\b") && written.contains("\\f"));
    assert!(written.contains("\\\\\\\"/\u{7f}é𝄞"));
}

fn budget_of(window: u64) -> ContextBudget {
    ContextBudget {
        window_tokens: window,
        output_reserve: 10,
        output_evidence: TokenBoundEvidence::Estimate,
        safety_margin: 0,
        mode: TokenBudgetMode::Soft,
    }
}

struct MessageCounter;

impl ContextTokenCounter for MessageCounter {
    fn counted(
        &self,
        _: ContextTargetView,
        _: GenerationRequestView,
    ) -> Result<ContextTokenCountView, ContextCountErrorView> {
        unreachable!()
    }

    fn count(&self, target: &ContextTarget, request: &GenerationRequest) -> Result<ContextTokenCount, ContextCountError> {
        Ok(ContextTokenCount {
            target: target.duplicate(),
            method: "ten-per-message".to_string(),
            evidence: TokenBoundEvidence::Estimate,
            tokens: ContextTokenBreakdown {
                system: 0,
                messages: 10 * request.messages.len() as u64,
                constraint: 0,
                template: 0,
            },
        })
    }
}

fn turn_event(name: &str, seq: u64, kind: SessionEventKind) -> SessionEvent {
    let message_id = match &kind {
        SessionEventKind::AssistantMessage { .. } => Some(MessageId::new(format!("m{}", seq))),
        _ => None,
    };
    SessionEvent { turn_id: TurnId::new(name.to_string()), message_id, ..event(seq, kind) }
}

#[test]
fn contexts_drop_the_oldest_turns_first() {
    let mut events = vec![];
    for n in 0..3u64 {
        let name = format!("t{}", n);
        events.push(turn_event(&name, 3 * n, SessionEventKind::UserMessage { text: "q".to_string() }));
        events.push(turn_event(&name, 3 * n + 1, SessionEventKind::AssistantMessage { text: "a".to_string() }));
        events.push(turn_event(
            &name,
            3 * n + 2,
            SessionEventKind::Done { status: DoneStatus::Completed, artifact: None },
        ));
    }
    let history = CanonicalConversationProjector
        .project(&session(), &events, 100, ProjectionConfig::default())
        .unwrap();
    let build = |window: u64, pinned: &Vec<TurnId>| {
        CanonicalContextBuilder.build(
            &ContextBuildInput {
                history: &history,
                system: &vec!["be brief".to_string()],
                current: &vec![ModelMessage::User { content: "now".to_string() }],
                constraint: &GenerationConstraint::Text,
                pinned_turns: pinned,
                state_version: &None,
                target: &ContextTarget { model: "m".to_string(), template_revision: "1".to_string() },
                budget: budget_of(window),
                limits: ContextBuildLimits::default(),
                input_bytes: 100,
            },
            &MessageCounter,
        )
    };
    let all = build(90, &vec![]).unwrap();
    assert_eq!(all.request.messages.len(), 8);
    let kept = |window: u64, pinned: &Vec<TurnId>| {
        build(window, pinned)
            .unwrap()
            .report
            .turns
            .iter()
            .filter(|selection| selection.retained)
            .map(|selection| selection.turn_id.as_str().to_string())
            .collect::<Vec<String>>()
    };
    assert_eq!(kept(70, &vec![]), vec!["t1".to_string(), "t2".to_string()]);
    assert_eq!(kept(50, &vec![]), vec!["t2".to_string()]);
    assert_eq!(kept(50, &vec![TurnId::new("t0".to_string())]), vec!["t0".to_string()]);
    assert!(matches!(build(29, &vec![]), Err(ContextBuildError::DoesNotFit(_))));
    assert!(matches!(
        build(90, &vec![TurnId::new("unknown".to_string())]),
        Err(ContextBuildError::Invalid("duplicate or unknown pinned turn"))
    ));
}
