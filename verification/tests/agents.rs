use std::sync::Arc;

use jingwei::agent::action::{ActionError, AgentAction, ContextActionError, StepOutcome};
use jingwei::agent::consume::{consume_correction, consume_step};
use jingwei::agent::control::{CanonicalAgentRuntimePlugin, Control};
use jingwei::agent::driver::{
    after_body, after_binding, after_report, after_start, after_tools, binds_tools, canonical_partial_text, close_turn,
    not_admitted_failure, run_agent_body, task_run_report, terminal_fields_for_agent_error, turn_outcome, Binding,
    BodyEnd, CancelReason, ResolvedIntent, StartStep, TurnCommitSummary,
};
use jingwei::agent::reference::{
    claim_of, eligible, feedback, BoundedPayload, DriveNext, DriveStart, FailurePlan, ProgressPolicy, ReferenceAgent,
    ReferenceAgentConfig, ReferenceDrive, StepStart, UnknownReferenceState, UnverifiedCompletion,
};
use jingwei::agent::reference_report::{CompletionDecision, CorrectionReason, PendingQuestion, ReferenceStop};
use jingwei::agent::turn::{
    AgentError, AgentEventKind, AgentRuntimeError, AgentTurnOutput, AgentTurnReport, CapabilityTurnFailure,
    DriveFailure, NotAdmittedFailure, TaskRunReportAttempt, TurnDisposition, TurnOutcome,
};
use jingwei::agent::waiting::ReferenceWaiting;
use jingwei::budget::binding::own_budget;
use jingwei::budget::ledger::{BudgetRun, TaskBudget};
use jingwei::budget::model::BudgetError;
use jingwei::budget::vocabulary::{
    BudgetAmounts, BudgetIdentity, BudgetLimits, BudgetRequest, BudgetStopReason, TokenBoundEvidence, TokenBudgetMode,
};
use jingwei::context::budgeting::{ContextBudget, ContextTarget};
use jingwei::generation::{DecisionContext, ModelMessage};
use jingwei::id::{EventId, SessionId, StepId, TaskId, TurnId};
use jingwei::json::Json;
use jingwei::llm::failure::{LlmError, ModelGatewayError, ModelRuntimeError};
use jingwei::session::error::SessionRuntimeError;
use jingwei::session::event::{DoneStatus, SessionEvent, SessionEventKind};
use jingwei::session::tool_record::ToolRecordedOutcome;
use jingwei::time::Duration;
use jingwei::tool::failure::{ToolRuntimeError, ToolTurnFailure};

fn seconds(n: u64) -> Duration {
    Duration::from_secs(n)
}

fn session() -> SessionId {
    SessionId::new("s".to_string())
}

fn turn() -> TurnId {
    TurnId::new("t".to_string())
}

fn event(seq: u64, kind: SessionEventKind) -> SessionEvent {
    SessionEvent {
        event_id: EventId::new(format!("e{}", seq)),
        session_id: session(),
        turn_id: turn(),
        generation_id: None,
        message_id: None,
        seq,
        kind,
    }
}

fn account() -> (TaskBudget, BudgetRun) {
    own_budget("agent".to_string(), TaskId::new("task".to_string()), session(), turn(), seconds(0)).unwrap()
}

#[test]
fn a_runtime_lets_in_what_it_can_carry() {
    let config = CanonicalAgentRuntimePlugin::new().with_max_in_flight(1);
    let mut control = Control::new();
    let mut open = |control: &mut Control, known: bool| {
        control
            .start_unbound_turn(
                &config,
                known,
                TaskId::new("task".to_string()),
                session(),
                "agent".to_string(),
                seconds(0),
                seconds(0),
                seconds(0),
            )
            .map(|(started, _)| started.job_id)
    };
    assert_eq!(open(&mut control, true).unwrap_err(), AgentRuntimeError::Stopped);
    assert!(control.start());
    assert!(!control.start());
    assert_eq!(
        open(&mut control, false).unwrap_err(),
        AgentRuntimeError::AgentNotFound { key: "agent".to_string() }
    );
    let id = open(&mut control, true).unwrap();
    assert_eq!(open(&mut control, true).unwrap_err(), AgentRuntimeError::Overloaded);
    assert_eq!(control.reason(id), CancelReason::NotRequested);
    assert!(control.request_cancel(id, CancelReason::Caller));
    assert!(!control.request_cancel(id, CancelReason::RuntimeStopping));
    assert_eq!(control.reason(id), CancelReason::Caller);
    assert!(control.begin_stop());
    assert!(!control.drained());
    assert_eq!(open(&mut control, true).unwrap_err(), AgentRuntimeError::Stopped);
    assert!(control.complete(id, None));
    assert!(control.drained());
    control.finish_stop().unwrap();
}

#[test]
fn unwound_turns_are_told_at_the_end() {
    let config = CanonicalAgentRuntimePlugin::new();
    let mut control = Control::new();
    control.start();
    let (started, _) = control
        .start_unbound_turn(
            &config,
            true,
            TaskId::new("task".to_string()),
            session(),
            "agent".to_string(),
            seconds(0),
            seconds(0),
            seconds(0),
        )
        .unwrap();
    control.unwind(started.job_id);
    control.begin_stop();
    assert!(control.finish_stop().is_err());
}

#[test]
fn refusals_before_a_turn_name_who_asked() {
    assert_eq!(not_admitted_failure(CancelReason::Caller), NotAdmittedFailure::CallerCancelled);
    assert_eq!(not_admitted_failure(CancelReason::RuntimeStopping), NotAdmittedFailure::RuntimeStopping);
}

fn output() -> AgentTurnOutput {
    AgentTurnOutput { final_text: "done".to_string(), outcome: TurnOutcome::Completed, artifact: None }
}

#[test]
fn turns_end_by_what_went_wrong_first() {
    assert_eq!(after_start(Ok(()), Ok(()), false), StartStep::Bind);
    assert!(matches!(
        after_start(Err(SessionRuntimeError::Stopped), Ok(()), false),
        StartStep::Resolved(_)
    ));
    assert!(binds_tools(&Binding::Bound, true));
    assert!(!binds_tools(&Binding::Refused(ModelRuntimeError::Stopped), true));
    assert!(after_binding(Binding::Bound, Binding::Bound).is_none());
    assert_eq!(
        after_binding(Binding::Bound, Binding::Refused(ToolRuntimeError::Stopped)).unwrap().disposition,
        TurnDisposition::Failed
    );
    let intent = run_agent_body(BodyEnd::Finished(Ok(output())), "partial".to_string());
    assert_eq!(intent.disposition, TurnDisposition::Completed);
    assert_eq!(intent.final_text, "done");
    let late = after_body(intent, &"partial".to_string(), true, Ok(()));
    assert_eq!(late.disposition, TurnDisposition::Cancelled);
    let panicked = run_agent_body(BodyEnd::Panicked, "partial".to_string());
    assert_eq!(panicked.drive_failure, Some(DriveFailure::Panicked));
    assert_eq!(panicked.final_text, "partial");
    let failure = ToolTurnFailure::from_failures(vec![ToolRuntimeError::Internal {
        code: "c".to_string(),
        message: "m".to_string(),
    }])
    .unwrap();
    let closed = after_tools(ResolvedIntent::from_output(output()), &"p".to_string(), false, None, failure);
    assert_eq!(closed.disposition, TurnDisposition::Failed);
    let unreported = after_report(ResolvedIntent::from_output(output()), Err(BudgetError::RunClosed));
    assert_eq!(unreported.disposition, TurnDisposition::Failed);
}

#[test]
fn errors_have_terminal_words() {
    let fields = terminal_fields_for_agent_error(&AgentError::failed("c".to_string(), "m".to_string(), true));
    assert_eq!((fields.code.as_str(), fields.message.as_str(), fields.retryable), ("c", "m", true));
    assert!(AgentError::Cancelled.is_cancelled());
    assert!(AgentError::from_model(ModelGatewayError::Model(LlmError::Cancelled)).is_cancelled());
    assert!(!AgentError::Budget(BudgetError::RunClosed).is_cancelled());
    assert!(CapabilityTurnFailure::new(None, None).is_err());
}

#[test]
fn agents_cannot_end_their_own_turn() {
    let kind = AgentEventKind::Custom {
        plugin: "p".to_string(),
        kind: "k".to_string(),
        payload: Json::from_compact("{}".to_string()),
    }
    .into_session_event_kind();
    assert!(matches!(kind, SessionEventKind::Custom { .. }));
}

#[test]
fn partial_text_is_what_was_streamed() {
    let events = vec![
        event(0, SessionEventKind::UserMessage { text: "x".to_string() }),
        event(1, SessionEventKind::AssistantDelta { text: "he".to_string() }),
        event(2, SessionEventKind::AssistantDelta { text: "llo".to_string() }),
    ];
    assert_eq!(canonical_partial_text(&events), "hello");
}

#[test]
fn closed_turns_are_reported() {
    let (mut budget, mut run) = account();
    let report = run.prepare_report(&mut budget, seconds(1)).unwrap();
    let receipt = task_run_report(report, TurnDisposition::Completed, CancelReason::NotRequested);
    let again = || {
        let (mut budget, mut run) = account();
        let report = run.prepare_report(&mut budget, seconds(1)).unwrap();
        task_run_report(report, TurnDisposition::Completed, CancelReason::NotRequested)
    };
    let reported = || event(1, SessionEventKind::TaskRunReport { report: again() });
    let terminal = || event(2, SessionEventKind::Done { status: DoneStatus::Completed, artifact: None });
    let settled = |events: Vec<SessionEvent>| Ok(TurnCommitSummary { turn_id: turn(), events });
    let first = || event(0, SessionEventKind::UserMessage { text: "x".to_string() });
    let closed = close_turn(
        session(),
        turn(),
        ResolvedIntent::from_output(output()),
        TaskRunReportAttempt::Committed { report: receipt, event: reported() },
        Ok(terminal()),
        settled(vec![first(), reported(), terminal()]),
    )
    .unwrap();
    let outcome = turn_outcome(closed, false, true).unwrap();
    assert_eq!(outcome.final_text(), "done");
    assert_eq!(outcome.events().len(), 3);
    let unsettled = close_turn(
        session(),
        turn(),
        ResolvedIntent::from_output(output()),
        TaskRunReportAttempt::Committed { report: again(), event: reported() },
        Ok(terminal()),
        Err(SessionRuntimeError::Stopped),
    )
    .unwrap();
    assert!(matches!(turn_outcome(unsettled, false, true), Err(AgentRuntimeError::Turn(_))));
}

#[test]
fn steps_are_charged_one_by_one() {
    let limits = BudgetLimits {
        resources: BudgetAmounts { steps: 1, corrections: 1, ..BudgetLimits::default().resources },
        active_time: seconds(60),
    };
    let mut budget = TaskBudget::new(
        BudgetIdentity {
            task_id: TaskId::new("task".to_string()),
            session_id: session(),
            agent_key: "agent".to_string(),
        },
        limits,
        limits,
        TokenBudgetMode::Soft,
        seconds(0),
    )
    .unwrap();
    let scope = budget.begin_run(turn(), limits, seconds(0), seconds(0)).unwrap().scope();
    consume_correction(&scope, &mut budget, seconds(0), seconds(0)).unwrap();
    consume_step(&scope, &mut budget, seconds(0), seconds(0)).unwrap();
    assert!(matches!(
        consume_step(&scope, &mut budget, seconds(0), seconds(0)),
        Err(BudgetError::Stopped(BudgetStopReason::ResourceLimit(_)))
    ));
}

fn config() -> ReferenceAgentConfig {
    ReferenceAgentConfig::new(
        ContextTarget { model: "m".to_string(), template_revision: "1".to_string() },
        ContextBudget {
            window_tokens: 100,
            output_reserve: 10,
            output_evidence: TokenBoundEvidence::Estimate,
            safety_margin: 0,
            mode: TokenBudgetMode::Soft,
        },
    )
}

fn drive(max_steps: u32) -> (ReferenceDrive, TaskBudget) {
    let (mut budget, _run) = account();
    let mut settings = config();
    settings.max_steps = max_steps;
    assert!(ReferenceAgent::new(config()).is_ok());
    let report = budget.report(seconds(0));
    let drive = ReferenceDrive::begin(
        &settings,
        &session(),
        &turn(),
        &"find it".to_string(),
        DriveStart { budget: Some(report), has_model: true, history: true, clock: Some(5) },
    )
    .unwrap();
    (drive, budget)
}

fn step(budget: &mut TaskBudget) -> StepStart {
    StepStart { cancelled: false, budget: budget.report(seconds(0)), clock: Some(6), state: Some(None) }
}

#[test]
fn runs_stop_at_their_limits() {
    let (mut drive, mut budget) = drive(1);
    assert_eq!(drive.next_step(step(&mut budget)).unwrap(), 1);
    assert!(drive.next_step(step(&mut budget)).is_err());
    assert_eq!(drive.run.stop, ReferenceStop::StepLimit);
    let mut unworkable = config();
    unworkable.max_steps = 0;
    assert!(ReferenceAgent::new(unworkable).is_err());
}

#[test]
fn repetition_without_progress_ends_a_run() {
    let (mut drive, mut budget) = drive(8);
    let policy = ProgressPolicy { max_repetitions: 2, ..ProgressPolicy::default() };
    let outcome = ToolRecordedOutcome::Succeeded { output: "same".to_string() };
    let mut look = |drive: &mut ReferenceDrive, budget: &mut TaskBudget| {
        drive.next_step(step(budget)).unwrap();
        drive.observe(
            &"look".to_string(),
            &Json::from_compact("{}".to_string()),
            &outcome,
            &None,
            &policy,
            vec![ModelMessage::User { content: "find it".to_string() }],
        )
    };
    assert!(look(&mut drive, &mut budget).is_ok());
    assert!(look(&mut drive, &mut budget).is_err());
    assert_eq!(drive.run.stop, ReferenceStop::NoProgress);
    assert_eq!(drive.run.repeated_observations, 2);
}

#[test]
fn claims_are_weighed_by_the_host() {
    let (mut drive, _) = drive(8);
    let told = drive.complete("done".to_string(), Some(UnverifiedCompletion.check())).unwrap();
    assert_eq!(told.outcome, TurnOutcome::Completed);
    assert_eq!(drive.run.stop, ReferenceStop::ModelClaimedComplete);
    assert!(!drive.run.business_verified);
    drive
        .complete("done".to_string(), Some(CompletionDecision::Verified { evidence: "seen".to_string() }))
        .unwrap();
    assert_eq!(drive.run.stop, ReferenceStop::BusinessVerified);
    assert!(drive
        .complete("done".to_string(), Some(CompletionDecision::Rejected { reason: "no".to_string() }))
        .is_err());
    assert!(drive.complete("done".to_string(), None).is_err());
    assert_eq!(UnknownReferenceState.version(), None);
}

#[test]
fn steps_lead_on_or_end_the_run() {
    let policy = ProgressPolicy::default();
    let begun = || {
        let (mut drive, mut budget) = drive(8);
        drive.next_step(step(&mut budget)).unwrap();
        drive
    };
    let mut done = begun();
    done.correction_feedback = Some("again".to_string());
    let mut config = config();
    config.system = vec!["be brief".to_string()];
    assert_eq!(done.system_texts(&config), vec!["be brief".to_string(), "again".to_string()]);
    let outcome = StepOutcome::Final { text: "done".to_string() };
    assert_eq!(claim_of(&outcome), Some(&"done".to_string()));
    let decision = Some(CompletionDecision::Verified { evidence: "seen".to_string() });
    match done.after_step(outcome, decision, &None, &policy, vec![]) {
        DriveNext::Finish(Ok(output)) => assert_eq!(output.final_text, "done"),
        _ => panic!("no answer"),
    }
    assert_eq!(done.run.stop, ReferenceStop::BusinessVerified);
    assert!(done.run.business_verified);
    assert_eq!(done.run.confirmed_steps, 1);
    assert_eq!(done.system_texts(&config), vec!["be brief".to_string()]);

    let mut refused = begun();
    let outcome = StepOutcome::Final { text: "done".to_string() };
    let decision = Some(CompletionDecision::Rejected { reason: "no".to_string() });
    assert!(matches!(refused.after_step(outcome, decision, &None, &policy, vec![]), DriveNext::Finish(Err(_))));
    assert_eq!(refused.run.stop, ReferenceStop::CompletionRejected);
    assert!(!refused.run.business_verified);

    let mut asking = begun();
    let outcome = StepOutcome::AskUser { question: "which?".to_string() };
    assert_eq!(claim_of(&outcome), None);
    assert!(matches!(asking.after_step(outcome, None, &None, &policy, vec![]), DriveNext::Finish(Ok(_))));
    assert_eq!(asking.run.stop, ReferenceStop::WaitingForInput);
}

#[test]
fn agents_are_made_with_their_defaults() {
    let agent = ReferenceAgent::new(config()).unwrap();
    assert_eq!(agent.progress.max_repetitions, 3);
    assert!(agent.progress.polling_limits.is_empty());
    assert_eq!(agent.progress.max_observation_bytes, 1_048_576);
    assert_eq!(agent.config.projection.max_events, 100_000);
    assert_eq!(agent.config.projection.max_input_bytes, 16_777_216);
    assert_eq!(agent.config.projection.max_messages, 50_000);
}

#[test]
fn corrections_are_limited() {
    let (mut drive, mut budget) = drive(8);
    drive.next_step(step(&mut budget)).unwrap();
    let decision =
        DecisionContext { task_id: TaskId::new("task".to_string()), step_id: StepId::new("step".to_string()) };
    let error = ContextActionError::Protocol(ActionError::EmptyText);
    assert_eq!(
        drive.plan_failure(&ContextActionError::Invalid, &None, false),
        FailurePlan::Stop
    );
    let _ = (eligible(&error, &Some(Ok(AgentAction::Final { text: "x".to_string() }))), &error);
    let report = drive.correct(CorrectionReason::EmptyText, &decision, Ok(())).unwrap();
    assert_eq!(report.correction, 1);
    assert!(drive.correct(CorrectionReason::EmptyText, &decision, Err(BudgetError::RunClosed)).is_err());
    let text = feedback(CorrectionReason::InvalidArguments);
    let value: serde_json::Value = serde_json::from_str(&text).unwrap();
    assert_eq!(value["reason"], "InvalidArguments");
    assert_eq!(value["type"], "jingwei_action_correction_v1");
}

#[test]
fn payloads_stay_below_their_limit() {
    let mut payload = BoundedPayload::new(3);
    assert!(payload.write(&b"ab".to_vec()));
    assert!(!payload.write(&b"cd".to_vec()));
    assert!(payload.write(&b"c".to_vec()));
}

fn charged_account() -> (TaskBudget, BudgetRun) {
    let (mut budget, run) = account();
    let mut amounts = BudgetAmounts::zero();
    amounts.model_requests = 1;
    amounts.input_tokens = 1;
    amounts.output_tokens = 1;
    run.scope()
        .reserve(&mut budget, BudgetRequest::new(amounts), seconds(0))
        .unwrap()
        .cancel_before_start(&mut budget, seconds(0))
        .unwrap();
    (budget, run)
}

fn question() -> PendingQuestion {
    PendingQuestion {
        version: 1,
        session_id: session(),
        task_id: TaskId::new("task".to_string()),
        turn_id: turn(),
        agent_key: "agent".to_string(),
        pending_question: "which?".to_string(),
    }
}

fn waiting() -> ReferenceWaiting {
    let (mut budget, mut run) = charged_account();
    let report = run.prepare_report(&mut budget, seconds(1)).unwrap();
    let receipt = task_run_report(report, TurnDisposition::WaitingForInput, CancelReason::NotRequested);
    run.finish(&mut budget, seconds(1)).unwrap();
    let report = AgentTurnReport::new(
        session(),
        turn(),
        TurnDisposition::WaitingForInput,
        "which?".to_string(),
        Some(Json::from_compact("{}".to_string())),
        Arc::new(vec![]),
    )
    .with_task_run_report(receipt);
    ReferenceWaiting::from_report(
        &report,
        question(),
        &Some("reference_waiting_v1".to_string()),
        budget,
        seconds(1),
    )
    .unwrap()
}

#[test]
fn answers_reach_the_turn_that_asked() {
    assert_eq!(waiting().pending(), &question());
    let request = waiting()
        .resume(&turn(), &"the \"first\"".to_string(), BudgetLimits::default(), seconds(1))
        .unwrap();
    assert_eq!(
        request.user_message,
        r#"{"answer":"the \"first\"","reply_to":"t","task_id":"task","type":"reference_reply_v1"}"#
    );
    assert!(waiting()
        .resume(&TurnId::new("u".to_string()), &"x".to_string(), BudgetLimits::default(), seconds(1))
        .is_err());
    assert!(waiting().resume(&turn(), &" ".to_string(), BudgetLimits::default(), seconds(1)).is_err());
}
