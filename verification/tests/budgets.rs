use jingwei::agent::driver::{task_run_report, CancelReason};
use jingwei::agent::turn::TurnDisposition;
use jingwei::budget::audit::{
    validate_increase, validate_recovery_request, validate_request_text, BudgetGrantRequest, BudgetRecoveryRequest,
};
use jingwei::budget::binding::own_budget;
use jingwei::budget::checkpoint::{BudgetCheckpointError, BudgetEventCursor};
use jingwei::budget::execution::{exchanged, BudgetExecutionError, BudgetExecutionLease};
use jingwei::budget::file::{
    plan_exchange, plan_write, read_latest, refused, BudgetCheckpointCommit, BudgetCheckpointCommitCertainty,
    BudgetCheckpointStoreError, CheckpointRecord, CorruptCause, FileBudgetCheckpointConfig,
};
use jingwei::budget::grant::{grant_budget, grant_exchanged, BudgetGrantError, BudgetGrantOutcome};
use jingwei::budget::ledger::TaskBudget;
use jingwei::budget::model::BudgetError;
use jingwei::budget::recovery::{
    inspect_budget_recovery, recall_recovery, recover_budget_candidate, recovery_exchanged, BudgetRecoveryAssessment,
    BudgetRecoveryError, BudgetRecoveryOutcome,
};
use jingwei::budget::sealed::{BudgetCheckpoint, BudgetCheckpointVersion, BudgetRestoreContext};
use jingwei::budget::vocabulary::{
    BudgetAmounts, BudgetEventKind, BudgetIdentity, BudgetLimits, BudgetRequest, BudgetResource, BudgetStopReason,
    BudgetUsage, TokenBoundEvidence, TokenBudgetMode, UsageValue,
};
use jingwei::budget::wording::{resource_name, stop_name};
use jingwei::id::{BudgetExecutionId, BudgetOperationId, EventId, SessionId, TaskId, TurnId};
use jingwei::record::Record;
use jingwei::session::event::{DoneStatus, SessionEvent, SessionEventKind};
use jingwei::store::control::{FileStoreConfig, Refusal};
use jingwei::time::Duration;

fn seconds(n: u64) -> Duration {
    Duration::from_secs(n)
}

fn identity() -> BudgetIdentity {
    BudgetIdentity {
        task_id: TaskId::new("task".to_string()),
        session_id: SessionId::new("s".to_string()),
        agent_key: "agent".to_string(),
    }
}

fn amounts(steps: u64, models: u64, tools: u64, input: u64, output: u64, bytes: u64) -> BudgetAmounts {
    BudgetAmounts {
        steps,
        model_requests: models,
        tool_calls: tools,
        corrections: 0,
        input_tokens: input,
        output_tokens: output,
        tool_output_bytes: bytes,
    }
}

fn limits() -> BudgetLimits {
    BudgetLimits { resources: amounts(2, 3, 2, 100, 100, 50), active_time: seconds(60) }
}

fn ledger() -> TaskBudget {
    TaskBudget::new(identity(), limits(), limits(), TokenBudgetMode::Soft, seconds(0)).unwrap()
}

fn turn(name: &str) -> TurnId {
    TurnId::new(name.to_string())
}

#[test]
fn limits_meet_where_each_is_tighter() {
    let other = BudgetLimits { resources: amounts(5, 1, 2, 200, 10, 50), active_time: seconds(30) };
    let tighter = limits().tightened_by(other);
    assert_eq!(tighter.resources, amounts(2, 1, 2, 100, 10, 50));
    assert_eq!(tighter.active_time, seconds(30));
    assert_eq!(other.tightened_by(limits()), tighter);
    assert_eq!(tighter.tightened_by(tighter), tighter);
}

#[test]
fn amounts_are_kept_apart() {
    for resource in BudgetResource::ALL() {
        let mut all = BudgetAmounts::zero();
        all.set(resource, 9);
        for other in BudgetResource::ALL() {
            assert_eq!(all.get(other), if other == resource { 9 } else { 0 });
        }
    }
    assert!(BudgetResource::Steps.is_attempt());
    assert!(!BudgetResource::InputTokens.is_attempt());
}

#[test]
fn one_run_is_open_at_a_time() {
    let mut budget = ledger();
    let mut run = budget.begin_run(turn("t1"), limits(), seconds(0), seconds(0)).unwrap();
    assert_eq!(
        budget.begin_run(turn("t2"), limits(), seconds(0), seconds(0)).err().unwrap(),
        BudgetError::RunActive
    );
    run.finish(&mut budget, seconds(1)).unwrap();
    assert_eq!(run.scope().check_active(&mut budget, seconds(1)), Err(BudgetError::RunClosed));
    assert!(budget.begin_run(turn("t2"), limits(), seconds(1), seconds(1)).is_ok());
    let nameless = BudgetIdentity { agent_key: " ".to_string(), ..identity() };
    assert_eq!(
        TaskBudget::new(nameless, limits(), limits(), TokenBudgetMode::Soft, seconds(0)).err().unwrap(),
        BudgetError::InvalidIdentity
    );
}

#[test]
fn charges_add_up_over_runs() {
    let mut budget = ledger();
    let mut sum = 0;
    for (name, used) in [("t1", 10), ("t2", 15)] {
        let mut run = budget.begin_run(turn(name), limits(), seconds(0), seconds(0)).unwrap();
        let begun = budget.report(seconds(0)).unwrap();
        assert_eq!(begun.charged.input_tokens, sum);
        assert_eq!(begun.run.unwrap().charged, BudgetAmounts::zero());
        let request = BudgetRequest::new(amounts(0, 1, 0, 20, 20, 0));
        let mut held = run.scope().reserve(&mut budget, request, seconds(0)).unwrap();
        held.mark_started(&mut budget, seconds(0)).unwrap();
        held.settle(&mut budget, BudgetUsage::actual(used, 1, 0), seconds(0)).unwrap();
        let report = run.finish(&mut budget, seconds(0)).unwrap();
        assert_eq!(report.run.unwrap().charged.input_tokens, used);
        sum += used;
    }
    assert_eq!(budget.report(seconds(0)).unwrap().charged.input_tokens, 25);
    assert_eq!(budget.report(seconds(0)).unwrap().charged.model_requests, 2);
}

#[test]
fn settled_work_costs_what_it_used() {
    let mut budget = ledger();
    let run = budget.begin_run(turn("t"), limits(), seconds(0), seconds(0)).unwrap();
    let scope = run.scope();
    let request = BudgetRequest::new(amounts(0, 1, 0, 40, 30, 0));
    let mut held = scope.reserve(&mut budget, request, seconds(1)).unwrap();
    let report = budget.report(seconds(1)).unwrap();
    assert_eq!(report.charged.model_requests, 1);
    assert_eq!(report.reserved.input_tokens, 40);
    held.mark_started(&mut budget, seconds(1)).unwrap();
    assert_eq!(held.mark_started(&mut budget, seconds(1)), Err(BudgetError::AlreadyStarted));
    let usage = BudgetUsage {
        input_tokens: UsageValue::Actual(25),
        output_tokens: UsageValue::Unknown,
        tool_output_bytes: UsageValue::Actual(0),
    };
    held.settle(&mut budget, usage, seconds(2)).unwrap();
    let report = budget.report(seconds(2)).unwrap();
    assert_eq!(report.charged.input_tokens, 25);
    assert_eq!(report.charged.output_tokens, 30);
    assert_eq!(report.reserved.input_tokens, 0);
    assert_eq!(report.usage.input_tokens.actual, 25);
    assert_eq!(report.usage.output_tokens.unknown, 1);
}

#[test]
fn settling_unstarted_work_gives_it_up() {
    let mut budget = ledger();
    let mut run = budget.begin_run(turn("t"), limits(), seconds(0), seconds(0)).unwrap();
    let request = BudgetRequest::new(amounts(0, 1, 0, 40, 30, 0));
    let held = run.scope().reserve(&mut budget, request, seconds(1)).unwrap();
    assert_eq!(
        held.settle(&mut budget, BudgetUsage::actual(1, 1, 0), seconds(1)),
        Err(BudgetError::NotStarted)
    );
    let report = budget.report(seconds(1)).unwrap();
    assert_eq!(report.stop, Some(BudgetStopReason::AbandonedReservation));
    assert_eq!(report.reserved.input_tokens, 40);
    assert_eq!(report.charged.input_tokens, 0);
    assert_eq!(run.finish(&mut budget, seconds(1)), Err(BudgetError::PendingReservations));
}

#[test]
fn cancelling_started_work_gives_it_up() {
    let mut budget = ledger();
    let run = budget.begin_run(turn("t"), limits(), seconds(0), seconds(0)).unwrap();
    let request = BudgetRequest::new(amounts(0, 1, 0, 40, 30, 0));
    let mut held = run.scope().reserve(&mut budget, request, seconds(1)).unwrap();
    held.mark_started(&mut budget, seconds(1)).unwrap();
    assert_eq!(held.cancel_before_start(&mut budget, seconds(1)), Err(BudgetError::AlreadyStarted));
    let report = budget.report(seconds(1)).unwrap();
    assert_eq!(report.stop, Some(BudgetStopReason::AbandonedReservation));
    assert_eq!(report.reserved.input_tokens, 40);
}

#[test]
fn settlements_that_overflow_leave_the_account() {
    let wide = BudgetLimits {
        resources: amounts(10, 10, 10, u64::MAX, u64::MAX, u64::MAX),
        ..limits()
    };
    let mut budget = TaskBudget::new(identity(), wide, wide, TokenBudgetMode::Soft, seconds(0)).unwrap();
    let run = budget.begin_run(turn("t"), wide, seconds(0), seconds(0)).unwrap();
    let request = BudgetRequest::new(amounts(0, 1, 0, 1, 1, 0));
    let mut first = run.scope().reserve(&mut budget, request, seconds(0)).unwrap();
    let mut second = run.scope().reserve(&mut budget, request, seconds(0)).unwrap();
    first.mark_started(&mut budget, seconds(0)).unwrap();
    second.mark_started(&mut budget, seconds(0)).unwrap();
    first.settle(&mut budget, BudgetUsage::actual(u64::MAX, 1, 0), seconds(0)).ok();
    let before = budget.report(seconds(0)).unwrap();
    assert_eq!(before.charged.input_tokens, u64::MAX);
    assert_eq!(
        second.settle(&mut budget, BudgetUsage::actual(1, 1, 0), seconds(0)),
        Err(BudgetError::Stopped(BudgetStopReason::AccountingOverflow))
    );
    let after = budget.report(seconds(0)).unwrap();
    assert_eq!(after.charged, before.charged);
    assert_eq!(after.reserved, before.reserved);
    assert_eq!(after.usage, before.usage);
    assert_eq!(
        after.stop,
        Some(BudgetStopReason::UsageExceededReservation(BudgetResource::InputTokens))
    );
}

#[test]
fn cancelling_frees_the_hold_and_keeps_the_attempt() {
    let mut budget = ledger();
    let mut run = budget.begin_run(turn("t"), limits(), seconds(0), seconds(0)).unwrap();
    let scope = run.scope();
    let held = scope
        .reserve(&mut budget, BudgetRequest::new(amounts(0, 1, 0, 40, 30, 0)), seconds(0))
        .unwrap();
    assert_eq!(run.finish(&mut budget, seconds(0)), Err(BudgetError::PendingReservations));
    held.cancel_before_start(&mut budget, seconds(0)).unwrap();
    let report = run.finish(&mut budget, seconds(0)).unwrap();
    assert_eq!(report.charged, amounts(0, 1, 0, 0, 0, 0));
    assert_eq!(report.reserved, BudgetAmounts::zero());
}

#[test]
fn a_refused_request_takes_nothing_and_stops_the_task() {
    let mut budget = ledger();
    let run = budget.begin_run(turn("t"), limits(), seconds(0), seconds(0)).unwrap();
    let scope = run.scope();
    let stop = BudgetStopReason::ResourceLimit(BudgetResource::InputTokens);
    assert_eq!(
        scope
            .reserve(&mut budget, BudgetRequest::new(amounts(0, 1, 0, 101, 1, 0)), seconds(0))
            .err().unwrap(),
        BudgetError::Stopped(stop)
    );
    let report = budget.report(seconds(0)).unwrap();
    assert_eq!(report.charged, BudgetAmounts::zero());
    assert_eq!(report.stop, Some(stop));
    assert_eq!(
        scope
            .reserve(&mut budget, BudgetRequest::new(amounts(1, 0, 0, 0, 0, 0)), seconds(0))
            .err().unwrap(),
        BudgetError::Stopped(stop)
    );
    scope.stop_with(&mut budget, BudgetStopReason::RunAbandoned, seconds(0)).ok();
    assert_eq!(budget.report(seconds(0)).unwrap().stop, Some(stop));
}

#[test]
fn requests_need_an_attempt_and_believable_tokens() {
    let mut soft = ledger();
    let run = soft.begin_run(turn("t"), limits(), seconds(0), seconds(0)).unwrap();
    let scope = run.scope();
    assert_eq!(
        scope.reserve(&mut soft, BudgetRequest::new(BudgetAmounts::zero()), seconds(0)).err().unwrap(),
        BudgetError::EmptyRequest
    );
    let mut soft = ledger();
    let scope = soft.begin_run(turn("t"), limits(), seconds(0), seconds(0)).unwrap().scope();
    assert_eq!(
        scope
            .reserve(&mut soft, BudgetRequest::new(amounts(0, 1, 0, 0, 1, 0)), seconds(0))
            .err().unwrap(),
        BudgetError::ZeroTokenEstimate(BudgetResource::InputTokens)
    );
    let mut hard =
        TaskBudget::new(identity(), limits(), limits(), TokenBudgetMode::Hard, seconds(0)).unwrap();
    let scope = hard.begin_run(turn("t"), limits(), seconds(0), seconds(0)).unwrap().scope();
    let request = BudgetRequest::new(amounts(0, 1, 0, 1, 1, 0));
    assert_eq!(
        scope.reserve(&mut hard, request, seconds(0)).err().unwrap(),
        BudgetError::UnverifiedTokenBound(BudgetResource::InputTokens)
    );
    let mut hard =
        TaskBudget::new(identity(), limits(), limits(), TokenBudgetMode::Hard, seconds(0)).unwrap();
    let scope = hard.begin_run(turn("t"), limits(), seconds(0), seconds(0)).unwrap().scope();
    let verified = request
        .with_token_evidence(TokenBoundEvidence::VerifiedUpperBound, TokenBoundEvidence::VerifiedUpperBound);
    assert!(scope.reserve(&mut hard, verified, seconds(0)).is_ok());
}

#[test]
fn time_is_charged_and_runs_out() {
    let mut budget = ledger();
    let run = budget.begin_run(turn("t"), limits(), seconds(5), seconds(5)).unwrap();
    let scope = run.scope();
    assert_eq!(scope.remaining_time(&mut budget, seconds(15)), Ok(seconds(50)));
    assert_eq!(budget.report(seconds(15)).unwrap().active_time, seconds(10));
    assert_eq!(
        scope.check_active(&mut budget, seconds(65)),
        Err(BudgetError::Stopped(BudgetStopReason::ActiveTime))
    );
    assert_eq!(budget.report(seconds(70)).unwrap().cleanup_time, seconds(5));
    let mut budget = ledger();
    let scope = budget.begin_run(turn("t"), limits(), seconds(5), seconds(5)).unwrap().scope();
    assert_eq!(
        scope.check_active(&mut budget, seconds(4)),
        Err(BudgetError::Stopped(BudgetStopReason::ClockMovedBackwards))
    );
}

#[test]
fn dropped_work_is_charged_in_full() {
    let mut budget = ledger();
    let run = budget.begin_run(turn("t"), limits(), seconds(0), seconds(0)).unwrap();
    let scope = run.scope();
    let mut held = scope
        .reserve(&mut budget, BudgetRequest::new(amounts(0, 0, 1, 0, 0, 20)), seconds(0))
        .unwrap();
    held.mark_started(&mut budget, seconds(0)).unwrap();
    held.abandon(&mut budget, seconds(0));
    let report = budget.report(seconds(0)).unwrap();
    assert_eq!(report.stop, Some(BudgetStopReason::AbandonedReservation));
    run.abandon(&mut budget, seconds(1));
    assert_eq!(budget.report(seconds(1)).unwrap().stop, Some(BudgetStopReason::AbandonedReservation));
}

#[test]
fn overuse_is_charged_and_told() {
    let mut budget = ledger();
    let run = budget.begin_run(turn("t"), limits(), seconds(0), seconds(0)).unwrap();
    let mut held = run
        .scope()
        .reserve(&mut budget, BudgetRequest::new(amounts(0, 1, 0, 10, 10, 0)), seconds(0))
        .unwrap();
    held.mark_started(&mut budget, seconds(0)).unwrap();
    let stop = BudgetStopReason::UsageExceededReservation(BudgetResource::OutputTokens);
    held.settle(&mut budget, BudgetUsage::actual(10, 11, 0), seconds(0)).ok();
    let report = budget.report(seconds(0)).unwrap();
    assert_eq!(report.stop, Some(stop));
    assert_eq!(report.charged.output_tokens, 11);
}

#[test]
fn evidence_is_counted() {
    let mut budget = ledger();
    let run = budget.begin_run(turn("t"), limits(), seconds(0), seconds(0)).unwrap();
    let scope = run.scope();
    scope.record_evidence(&mut budget, BudgetEventKind::ToolCall, true);
    scope.record_evidence(&mut budget, BudgetEventKind::ToolResult, false);
    scope.record_session_wait(&mut budget, seconds(1));
    scope.record_model_timing(&mut budget, seconds(2), seconds(3));
    scope.record_tool_time(&mut budget, seconds(4));
    let metrics = budget.report(seconds(0)).unwrap().run.unwrap().metrics;
    assert_eq!(metrics.confirmed.tool_calls, 1);
    assert_eq!(metrics.unconfirmed.tool_results, 1);
    assert_eq!(metrics.session_wait, seconds(1));
    assert_eq!(metrics.model_queue, seconds(2));
    assert_eq!(metrics.model_execution, seconds(3));
    assert_eq!(metrics.tool_execution, seconds(4));
}

#[test]
fn names_and_reasons_have_words() {
    assert_eq!(resource_name(BudgetResource::ToolOutputBytes), "ToolOutputBytes");
    assert_eq!(
        stop_name(BudgetStopReason::ResourceLimit(BudgetResource::Steps)),
        "ResourceLimit(Steps)"
    );
    assert_eq!(BudgetError::RunClosed.text(), "this run is closed");
    assert_eq!(
        BudgetError::Stopped(BudgetStopReason::ActiveTime).text(),
        "budget stopped: ActiveTime"
    );
}

fn sealed() -> BudgetCheckpoint {
    ledger().seal_checkpoint(None, seconds(0)).unwrap()
}

fn context(revision: u64, anchor: Option<BudgetEventCursor>) -> BudgetRestoreContext {
    BudgetRestoreContext { identity: identity(), revision, confirmed_anchor: anchor, host_limits: limits() }
}

#[test]
fn sealed_accounts_come_back() {
    let mut budget = ledger();
    let mut run = budget.begin_run(turn("t"), limits(), seconds(0), seconds(0)).unwrap();
    run.scope()
        .reserve(&mut budget, BudgetRequest::new(amounts(1, 0, 0, 0, 0, 0)), seconds(1))
        .unwrap()
        .cancel_before_start(&mut budget, seconds(1))
        .unwrap();
    run.finish(&mut budget, seconds(2)).unwrap();
    let cursor = BudgetEventCursor {
        session_id: SessionId::new("s".to_string()),
        turn_id: turn("t"),
        event_id: EventId::new("e".to_string()),
        seq: 4,
    };
    let image = budget.seal_checkpoint(Some(cursor.duplicate()), seconds(2)).unwrap();
    assert_eq!(budget.report(seconds(2)).err().unwrap(), BudgetError::CheckpointSealed);
    assert_eq!(image.revision(), 1);
    assert!(image.validate().is_ok());
    assert!(image.validate_successor(0).is_ok());
    assert!(image.validate_successor(1).is_err());
    assert!(image.is_quiescent());
    let mut back = TaskBudget::restore_checkpoint(image.duplicate(), context(1, Some(cursor)), seconds(0)).unwrap();
    let report = back.report(seconds(0)).unwrap();
    assert_eq!(report.charged.steps, 1);
    assert_eq!(report.active_time, seconds(2));
    assert_eq!(
        TaskBudget::restore_checkpoint(image, context(2, None), seconds(0)).err().unwrap(),
        BudgetCheckpointError::RevisionMismatch { expected: 2, actual: 1 }
    );
}

#[test]
fn interrupted_work_comes_back_frozen() {
    let mut budget = ledger();
    budget.begin_run(turn("t"), limits(), seconds(0), seconds(0)).unwrap();
    let image = budget.seal_checkpoint(None, seconds(0)).unwrap();
    assert!(!image.is_quiescent());
    let mut back = TaskBudget::restore_checkpoint(image, context(1, None), seconds(0)).unwrap();
    assert_eq!(
        back.begin_run(turn("u"), limits(), seconds(0), seconds(0)).err().unwrap(),
        BudgetError::Stopped(BudgetStopReason::RecoveryRequired)
    );
}

#[test]
fn versions_are_numbered() {
    for n in 1..5u16 {
        assert_eq!(BudgetCheckpointVersion::try_from_number(n).unwrap().number(), n);
    }
    assert!(BudgetCheckpointVersion::try_from_number(0).is_none());
    assert!(BudgetCheckpointVersion::try_from_number(5).is_none());
}

fn grant(operation: &str, steps: u64) -> BudgetGrantRequest {
    BudgetGrantRequest {
        operation_id: BudgetOperationId::new(operation.to_string()),
        actor: "host".to_string(),
        source: "ticket".to_string(),
        reason: "more work".to_string(),
        new_limits: BudgetLimits { resources: amounts(steps, 3, 2, 100, 100, 50), active_time: seconds(60) },
    }
}

fn roomy(revision: u64) -> BudgetRestoreContext {
    BudgetRestoreContext {
        host_limits: BudgetLimits { resources: amounts(99, 99, 99, 999, 999, 999), active_time: seconds(600) },
        ..context(revision, None)
    }
}

#[test]
fn grants_raise_limits_once() {
    let image = sealed();
    let history: Vec<SessionEvent> = vec![];
    let granted = match grant_budget(Some(&image), &roomy(1), &history, &grant("op", 10)).unwrap() {
        BudgetGrantOutcome::Apply { checkpoint } => checkpoint,
        _ => panic!("not applied"),
    };
    assert_eq!(granted.revision(), 2);
    assert_eq!(granted.report().limits.resources.steps, 10);
    assert!(granted.validate_transition(Some(&image)).is_ok());
    match grant_budget(Some(&granted), &roomy(1), &history, &grant("op", 10)).unwrap() {
        BudgetGrantOutcome::AlreadyApplied { record } => assert_eq!(record.source_revision, 1),
        _ => panic!("applied twice"),
    }
    assert_eq!(
        grant_budget(Some(&granted), &roomy(1), &history, &grant("op", 11)).err().unwrap(),
        BudgetGrantError::OperationConflict
    );
    assert_eq!(
        grant_budget(None, &roomy(1), &history, &grant("op", 10)).err().unwrap(),
        BudgetGrantError::Missing
    );
    assert!(matches!(
        grant_budget(Some(&image), &roomy(1), &history, &grant("op", 2)),
        Err(BudgetGrantError::Invalid(_))
    ));
    assert!(matches!(
        grant_budget(Some(&image), &roomy(1), &history, &grant(" ", 10)),
        Err(BudgetGrantError::Invalid(_))
    ));
}

#[test]
fn increases_lower_nothing() {
    assert!(validate_increase(&limits(), &grant("op", 10).new_limits, None).is_ok());
    assert!(validate_increase(&limits(), &limits(), None).is_err());
    assert!(validate_increase(&limits(), &grant("op", 1).new_limits, None).is_err());
    assert!(validate_increase(&limits(), &grant("op", 10).new_limits, Some(BudgetStopReason::ActiveTime)).is_err());
    let mut request = grant("op", 10);
    assert!(validate_request_text(&request).is_ok());
    request.reason = "r".repeat(1025);
    assert!(validate_request_text(&request).is_err());
}

fn event(id: &str, turn_name: &str, seq: u64, kind: SessionEventKind) -> SessionEvent {
    SessionEvent {
        event_id: EventId::new(id.to_string()),
        session_id: SessionId::new("s".to_string()),
        turn_id: turn(turn_name),
        generation_id: None,
        message_id: None,
        seq,
        kind,
    }
}

fn lease() -> BudgetExecutionLease {
    BudgetExecutionLease::acquire(
        Some(sealed()),
        context(1, None),
        BudgetExecutionId::new("run".to_string()),
        seconds(0),
        seconds(0),
    )
    .unwrap()
}

#[test]
fn leases_mark_the_account_before_work() {
    let lease = lease();
    assert_eq!(lease.claim().revision(), 2);
    assert_eq!(lease.execution_id().unwrap().as_str(), "run");
    assert!(!lease.claim().is_quiescent());
    assert!(lease.verify_history(&vec![]).is_ok());
    assert_eq!(
        BudgetExecutionLease::acquire(
            None,
            context(1, None),
            BudgetExecutionId::new("run".to_string()),
            seconds(0),
            seconds(0)
        )
        .err().unwrap(),
        BudgetExecutionError::Missing
    );
    assert_eq!(
        BudgetExecutionLease::acquire(
            Some(lease.claim().duplicate()),
            context(2, None),
            BudgetExecutionId::new("other".to_string()),
            seconds(0),
            seconds(0)
        )
        .err().unwrap(),
        BudgetExecutionError::RecoveryRequired
    );
}

fn opening() -> SessionEvent {
    event("e0", "t", 0, SessionEventKind::UserMessage { text: "hi".to_string() })
}

fn closing() -> SessionEvent {
    event("e2", "t", 2, SessionEventKind::Done { status: DoneStatus::Completed, artifact: None })
}

fn run_turn(lease: &mut BudgetExecutionLease) -> Vec<SessionEvent> {
    let mut run = lease.task.begin_run(turn("t"), limits(), seconds(1), seconds(1)).unwrap();
    let report = run.prepare_report(&mut lease.task, seconds(2)).unwrap();
    let report = task_run_report(report, TurnDisposition::Completed, CancelReason::NotRequested);
    run.finish(&mut lease.task, seconds(2)).unwrap();
    vec![opening(), event("e1", "t", 1, SessionEventKind::TaskRunReport { report }), closing()]
}

#[test]
fn closed_turns_are_committed() {
    let mut lease = lease();
    let events = run_turn(&mut lease);
    let claim = lease.claim().duplicate();
    let (image, mut task) = lease.commit_closed(&events, seconds(2));
    let image = image.unwrap();
    assert_eq!(task.report(seconds(2)).err().unwrap(), BudgetError::CheckpointSealed);
    assert_eq!(image.revision(), 3);
    assert!(image.execution_id().is_none());
    assert_eq!(image.anchor().unwrap().seq, 2);
    assert!(image.validate_transition(Some(&claim)).is_ok());
}

#[test]
fn open_turns_are_not_committed() {
    let mut lease = lease();
    let mut events = run_turn(&mut lease);
    events.pop();
    let (image, mut task) = lease.commit_closed(&events, seconds(2));
    assert!(image.is_err());
    assert_eq!(task.report(seconds(2)).err().unwrap(), BudgetError::CheckpointSealed);
    assert_eq!(
        task.begin_run(turn("t2"), limits(), seconds(3), seconds(3)).err().unwrap(),
        BudgetError::CheckpointSealed
    );
}

fn recovery_request() -> BudgetRecoveryRequest {
    BudgetRecoveryRequest {
        operation_id: BudgetOperationId::new("op".to_string()),
        execution_id: BudgetExecutionId::new("run".to_string()),
        source_revision: 2,
        actor: "host".to_string(),
        source: "pager".to_string(),
        reason: "crashed".to_string(),
    }
}

#[test]
fn frozen_accounts_are_assessed_and_recovered() {
    let mut lease = lease();
    let claim = lease.claim().duplicate();
    let session = SessionId::new("s".to_string());
    assert_eq!(inspect_budget_recovery(&sealed(), &session, &vec![]), Ok(BudgetRecoveryAssessment::Ready));
    assert_eq!(
        inspect_budget_recovery(&claim, &session, &vec![]),
        Ok(BudgetRecoveryAssessment::FrozenNoNewEvents)
    );
    assert_eq!(
        inspect_budget_recovery(&claim, &session, &vec![opening()]),
        Ok(BudgetRecoveryAssessment::FrozenUnconfirmedWork)
    );
    let events = run_turn(&mut lease);
    assert_eq!(
        inspect_budget_recovery(&claim, &session, &events),
        Ok(BudgetRecoveryAssessment::FrozenClosedTailNeedsCandidate)
    );
    let candidate = lease.commit_closed(&events, seconds(2)).0.unwrap();
    assert!(validate_recovery_request(&recovery_request()).is_ok());
    match recover_budget_candidate(&claim, &recovery_request(), &candidate, "owner", &events).unwrap() {
        BudgetRecoveryOutcome::Applied(image) => {
            assert_eq!(image.revision(), 3);
            assert!(image.is_quiescent());
            assert_eq!(image.recoveries().len(), 1);
            let receipt = recall_recovery(Some(&image), &recovery_request(), &candidate).unwrap().unwrap();
            assert_eq!(receipt.ownership_id, "owner");
        }
        _ => panic!("not recovered"),
    }
}

fn lost() -> BudgetCheckpointStoreError {
    BudgetCheckpointStoreError::Storage {
        certainty: BudgetCheckpointCommitCertainty::Indeterminate,
        message: "sync".to_string(),
    }
}

#[test]
fn failed_exchanges_keep_the_exact_image() {
    match exchanged(4, sealed(), Err(lost())) {
        Err(BudgetExecutionError::Commit { expected_revision, checkpoint, source }) => {
            assert_eq!(expected_revision, 4);
            assert_eq!(*checkpoint, sealed());
            assert_eq!(source, lost());
        }
        _ => panic!("the attempt is lost"),
    }
    assert_eq!(exchanged(4, sealed(), Ok(BudgetCheckpointCommit::Committed)).unwrap(), sealed());
    assert!(matches!(
        grant_exchanged(4, sealed(), Err(lost())),
        Err(BudgetGrantError::Commit { expected_revision: 4, .. })
    ));
    assert!(matches!(
        grant_exchanged(4, sealed(), Ok(BudgetCheckpointCommit::ReplayedExact)),
        Ok(BudgetGrantOutcome::Applied { commit: BudgetCheckpointCommit::ReplayedExact, .. })
    ));
    assert!(matches!(recovery_exchanged(sealed(), Err(lost())), Err(BudgetRecoveryError::Commit { .. })));
    assert!(matches!(
        recovery_exchanged(sealed(), Ok(BudgetCheckpointCommit::Committed)),
        Ok(BudgetRecoveryOutcome::Applied(_))
    ));
}

fn record(expected: u64, checkpoint: BudgetCheckpoint) -> Option<CheckpointRecord> {
    Some(CheckpointRecord { version: 1, expected_revision: expected, checkpoint })
}

#[test]
fn the_latest_image_is_the_last_record() {
    let config = FileBudgetCheckpointConfig::default().limits();
    let first = sealed();
    let lease = lease();
    let lines = vec![b"a\n".to_vec(), b"b\n".to_vec()];
    let parsed = vec![record(0, first), record(1, lease.claim().duplicate())];
    let latest = read_latest(&config, 4, &lines, &parsed, &identity()).unwrap().unwrap();
    assert_eq!(latest.revision(), 2);
    assert_eq!(
        plan_exchange(Some(&latest), 1, lease.claim()).unwrap(),
        BudgetCheckpointCommit::ReplayedExact
    );
    assert!(matches!(
        plan_exchange(Some(&latest), 0, &sealed()),
        Err(BudgetCheckpointStoreError::Conflict { expected: 0, actual: 2 })
    ));
    assert_eq!(plan_exchange(None, 0, &sealed()).unwrap(), BudgetCheckpointCommit::Committed);
    assert!(matches!(
        plan_exchange(Some(&latest), 2, lease.claim()),
        Err(BudgetCheckpointStoreError::Invalid(_))
    ));
    assert!(matches!(plan_exchange(None, 1, &sealed()), Err(BudgetCheckpointStoreError::Invalid(_))));
    assert_eq!(read_latest(&config, 0, &vec![], &vec![], &identity()).unwrap(), None);
}

#[test]
fn broken_checkpoint_logs_say_where() {
    let config = FileBudgetCheckpointConfig::default().limits();
    let line = || vec![b"a\n".to_vec()];
    let cause = |lines: Vec<Vec<u8>>, parsed: Vec<Option<CheckpointRecord>>| {
        match read_latest(&config, 2, &lines, &parsed, &identity()) {
            Err(BudgetCheckpointStoreError::Corrupt { record, cause }) => (record, cause),
            _ => panic!("a broken log was read"),
        }
    };
    assert_eq!(cause(vec![b"a".to_vec()], vec![record(0, sealed())]), (1, CorruptCause::Unterminated));
    assert_eq!(cause(line(), vec![None]), (1, CorruptCause::Unparsable));
    assert_eq!(
        cause(
            line(),
            vec![Some(CheckpointRecord { version: 2, expected_revision: 0, checkpoint: sealed() })]
        ),
        (1, CorruptCause::UnsupportedVersion)
    );
    assert!(matches!(cause(line(), vec![record(1, sealed())]).1, CorruptCause::InvalidSuccessor(_)));
    assert!(matches!(
        plan_write(&FileStoreConfig { max_record_bytes: 3, max_log_bytes: 10, max_io_jobs: 1 }, 0, b"abc".to_vec()),
        Err(BudgetCheckpointStoreError::LimitExceeded { .. })
    ));
    assert_eq!(
        plan_write(&FileStoreConfig { max_record_bytes: 4, max_log_bytes: 10, max_io_jobs: 1 }, 0, b"abc".to_vec())
            .unwrap(),
        b"abc\n".to_vec()
    );
    assert_eq!(refused(Refusal::Busy), BudgetCheckpointStoreError::Busy);
    assert_eq!(refused(Refusal::Closed), BudgetCheckpointStoreError::Closed);
}

#[test]
fn a_private_account_is_opened_with_its_run() {
    let (mut budget, mut run) = own_budget(
        "agent".to_string(),
        TaskId::new("task".to_string()),
        SessionId::new("s".to_string()),
        turn("t"),
        seconds(0),
    )
    .unwrap();
    assert_eq!(budget.identity().agent_key, "agent");
    assert_eq!(run.scope().turn_id(&budget).unwrap().unwrap().as_str(), "t");
    assert!(run.finish(&mut budget, seconds(0)).is_ok());
}
