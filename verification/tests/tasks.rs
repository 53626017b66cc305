use jingwei::agent::driver::{task_run_report, CancelReason};
use jingwei::agent::turn::TurnDisposition;
use jingwei::budget::checkpoint::BudgetEventCursor;
use jingwei::budget::execution::{BudgetExecutionError, BudgetExecutionLease};
use jingwei::budget::ledger::TaskBudget;
use jingwei::budget::sealed::{BudgetCheckpoint, BudgetRestoreContext};
use jingwei::budget::vocabulary::{BudgetIdentity, BudgetLimits, TokenBudgetMode};
use jingwei::generation::{ActionContext, DecisionContext};
use jingwei::id::{BudgetExecutionId, EventId, MessageId, SessionId, StepId, TaskId, TurnId};
use jingwei::json::Json;
use jingwei::session::event::{DoneStatus, SessionEvent, SessionEventKind};
use jingwei::session::tool_record::{ToolCall, ToolRecordedOutcome, ToolResult};
use jingwei::task::coordinator::{
    confirm_publication, message, prepare, publication, recheck_state, Evidence, TaskCoordinator, TaskCoordinatorError,
    TaskIntent, TaskPublishError, TaskResumeRequest,
};
use jingwei::task::file::{
    plan_exchange, plan_write, read_latest, validate_identity, CorruptCause, FileTaskStateConfig, SnapshotRecord,
};
use jingwei::task::history::{assess_task_history, TaskHistoryBoundary, TaskOperationKind, TaskStateError};
use jingwei::task::machine::{Grounds, ResumeAction, ResumeEvent, ResumeMachine, ResumeStage};
use jingwei::task::snapshot::{
    Payload, PayloadSchema, PayloadShape, SnapshotSize, TaskCompatibility, TaskPhase, TaskSnapshot,
    TaskSnapshotVersion, ToolRevision,
};
use jingwei::task::store::{MemoryTaskStateStore, TaskStoreError, TaskWriteOutcome};
use jingwei::time::Duration;

fn seconds(n: u64) -> Duration {
    Duration::from_secs(n)
}

fn identity() -> BudgetIdentity {
    BudgetIdentity {
        task_id: TaskId::new("task".to_string()),
        session_id: SessionId::new("s".to_string()),
        agent_key: "agent".to_string(),
    }
}

fn event(turn: &str, seq: u64, kind: SessionEventKind) -> SessionEvent {
    SessionEvent {
        event_id: EventId::new(format!("e{}", seq)),
        session_id: SessionId::new("s".to_string()),
        turn_id: TurnId::new(turn.to_string()),
        generation_id: None,
        message_id: match &kind {
            SessionEventKind::AssistantMessage { .. } => Some(MessageId::new(format!("m{}", seq))),
            _ => None,
        },
        seq,
        kind,
    }
}

fn said(turn: &str, seq: u64) -> SessionEvent {
    event(turn, seq, SessionEventKind::UserMessage { text: "go".to_string() })
}

fn asked(turn: &str, seq: u64, id: &str, step: &str) -> SessionEvent {
    event(
        turn,
        seq,
        SessionEventKind::ToolCall {
            call: ToolCall {
                action: Some(ActionContext {
                    decision: DecisionContext {
                        task_id: TaskId::new("task".to_string()),
                        step_id: StepId::new(step.to_string()),
                    },
                    action_id: "a".to_string(),
                }),
                id: id.to_string(),
                name: "look".to_string(),
                arguments: Json::from_compact("{}".to_string()),
                operation: None,
            },
        },
    )
}

fn seen(turn: &str, seq: u64, id: &str) -> SessionEvent {
    event(
        turn,
        seq,
        SessionEventKind::ToolResult {
            result: ToolResult {
                call_id: id.to_string(),
                outcome: ToolRecordedOutcome::Succeeded { output: "ok".to_string() },
            },
        },
    )
}

fn done(turn: &str, seq: u64, status: DoneStatus) -> SessionEvent {
    event(turn, seq, SessionEventKind::Done { status, artifact: None })
}

#[test]
fn histories_show_steps_and_open_operations() {
    let events = vec![said("t", 0), asked("t", 1, "c", "one"), seen("t", 2, "c"), asked("t", 3, "d", "two")];
    let found = assess_task_history(&identity(), &events).unwrap();
    assert_eq!(found.boundary, TaskHistoryBoundary::Open { turn_id: TurnId::new("t".to_string()) });
    assert_eq!(found.settled_steps, vec![StepId::new("one".to_string())]);
    assert_eq!(found.unresolved.len(), 1);
    assert_eq!(found.unresolved[0].kind, TaskOperationKind::Tool);
    assert_eq!(found.unresolved[0].call_id, "d");
    assert_eq!(found.unresolved[0].intent.seq, 3);
    let empty = assess_task_history(&identity(), &vec![]).unwrap();
    assert_eq!(empty.boundary, TaskHistoryBoundary::Empty);
    let closed =
        assess_task_history(&identity(), &vec![said("t", 0), done("t", 1, DoneStatus::Completed)]).unwrap();
    assert_eq!(closed.boundary, TaskHistoryBoundary::Closed);
}

#[test]
fn impossible_histories_say_why() {
    let fault = |events: Vec<SessionEvent>| assess_task_history(&identity(), &events).unwrap_err();
    assert_eq!(fault(vec![said("t", 1)]), TaskStateError::Invalid("physical event address"));
    assert_eq!(
        fault(vec![asked("t", 0, "c", "one")]),
        TaskStateError::Invalid("turn lacks user envelope")
    );
    assert_eq!(
        fault(vec![said("t", 0), said("t", 1)]),
        TaskStateError::Invalid("duplicate user envelope")
    );
    assert_eq!(
        fault(vec![said("t", 0), done("t", 1, DoneStatus::Completed), seen("t", 2, "c")]),
        TaskStateError::Invalid("event after terminal")
    );
    assert_eq!(
        fault(vec![said("t", 0), seen("t", 1, "c")]),
        TaskStateError::Invalid("unmatched or repeated result")
    );
    assert_eq!(
        fault(vec![said("t", 0), asked("t", 1, "c", "one"), asked("t", 2, "c", "one")]),
        TaskStateError::Invalid("duplicate call ID")
    );
    assert_eq!(
        fault(vec![said("t", 0), said("u", 1)]),
        TaskStateError::Invalid("interleaved or reopened turn")
    );
}

fn account() -> BudgetCheckpoint {
    let limits = BudgetLimits::default();
    TaskBudget::new(identity(), limits, limits, TokenBudgetMode::Soft, seconds(0))
        .unwrap()
        .seal_checkpoint(None, seconds(0))
        .unwrap()
}

fn waiting_turn() -> (Vec<SessionEvent>, BudgetCheckpoint) {
    let limits = BudgetLimits::default();
    let context = BudgetRestoreContext {
        identity: identity(),
        revision: 1,
        confirmed_anchor: None,
        host_limits: limits,
    };
    let mut lease = BudgetExecutionLease::acquire(
        Some(account()),
        context,
        BudgetExecutionId::new("run".to_string()),
        seconds(0),
        seconds(0),
    )
    .unwrap();
    let mut run = lease
        .task
        .begin_run(TurnId::new("t".to_string()), limits, seconds(0), seconds(0))
        .unwrap();
    let report = run.prepare_report(&mut lease.task, seconds(1)).unwrap();
    let report = task_run_report(report, TurnDisposition::WaitingForInput, CancelReason::NotRequested);
    run.finish(&mut lease.task, seconds(1)).unwrap();
    let events = vec![
        said("t", 0),
        event("t", 1, SessionEventKind::AssistantMessage { text: "which?".to_string() }),
        event("t", 2, SessionEventKind::TaskRunReport { report }),
        done("t", 3, DoneStatus::WaitingForInput),
    ];
    let image = lease.commit_closed(&events, seconds(1)).0.unwrap();
    (events, image)
}

fn compatibility() -> TaskCompatibility {
    TaskCompatibility {
        agent_revision: "1".to_string(),
        policy_revision: "1".to_string(),
        tool_revisions: vec![ToolRevision { name: "look".to_string(), revision: "1".to_string() }],
        payload_schemas: vec![PayloadSchema { name: "notes".to_string(), version: 1 }],
    }
}

fn payloads(text: &str) -> Vec<Payload> {
    vec![Payload { name: "notes".to_string(), value: Json::from_compact(text.to_string()) }]
}

fn size() -> SnapshotSize {
    SnapshotSize { bytes: 500, shapes: vec![PayloadShape::Branch(vec![PayloadShape::Leaf])] }
}

fn created() -> TaskSnapshot {
    TaskSnapshot::capture(0, compatibility(), payloads("[1]"), &account(), &vec![], &size()).unwrap()
}

fn waiting() -> TaskSnapshot {
    let (events, image) = waiting_turn();
    TaskSnapshot::capture(1, compatibility(), payloads("[2]"), &image, &events, &size()).unwrap()
}

#[test]
fn snapshots_are_confirmed_by_their_evidence() {
    let first = created();
    assert_eq!(first.revision(), 1);
    assert_eq!(first.phase(), &TaskPhase::Created);
    assert!(first.validate(&size()).is_ok());
    assert!(first.verify_evidence(&size(), &size(), &identity(), 1, &compatibility(), &account(), &vec![]).is_ok());
    let second = waiting();
    assert_eq!(second.phase(), &TaskPhase::WaitingForInput { question: "which?".to_string() });
    assert_eq!(second.cursor().unwrap().seq, 3);
    assert!(second.validate_successor(&size(), Some((&first, &size()))).is_ok());
    assert!(first.validate_successor(&size(), Some((&second, &size()))).is_err());
    let (events, image) = waiting_turn();
    assert!(second
        .verify_evidence(&size(), &size(), &identity(), 2, &compatibility(), &image, &events)
        .is_ok());
    let other = TaskCompatibility { agent_revision: "2".to_string(), ..compatibility() };
    assert_eq!(
        second.verify_evidence(&size(), &size(), &identity(), 2, &other, &image, &events),
        Err(TaskStateError::Incompatible)
    );
    assert_eq!(
        second.verify_evidence(&size(), &size(), &identity(), 3, &compatibility(), &image, &events),
        Err(TaskStateError::RevisionMismatch { expected: 3, actual: 2 })
    );
    let stranger = BudgetIdentity { agent_key: "other".to_string(), ..identity() };
    assert_eq!(
        second.verify_evidence(&size(), &size(), &stranger, 2, &compatibility(), &image, &events),
        Err(TaskStateError::IdentityMismatch)
    );
    let large = SnapshotSize { bytes: 524_289, ..size() };
    assert_eq!(first.validate(&large), Err(TaskStateError::Limit));
    assert_eq!(second.validate_successor(&size(), Some((&first, &large))), Err(TaskStateError::Limit));
    assert_eq!(
        second.verify_evidence(&size(), &large, &identity(), 2, &compatibility(), &image, &events),
        Err(TaskStateError::Limit)
    );
    assert_eq!(
        TaskSnapshot::capture(0, compatibility(), payloads("[1]"), &account(), &vec![], &large),
        Err(TaskStateError::Limit)
    );
    assert_eq!(TaskSnapshot::draft(0, compatibility(), payloads("[1]"), &account(), &vec![]).unwrap(), first);
    let mut twice = created();
    twice.payloads.extend(payloads("[1]"));
    twice.compatibility.payload_schemas.push(PayloadSchema { name: "notes".to_string(), version: 1 });
    assert_eq!(twice.validate(&size()), Err(TaskStateError::Invalid("names out of order")));
    assert_eq!(TaskSnapshotVersion::try_from_number(1).unwrap().number(), 1);
    assert!(TaskSnapshotVersion::try_from_number(2).is_err());
}

#[test]
fn deep_payloads_do_not_fit() {
    let mut shape = PayloadShape::Leaf;
    for _ in 0..63 {
        shape = PayloadShape::Branch(vec![shape]);
    }
    let fits = SnapshotSize { bytes: 1, shapes: vec![shape] };
    assert!(fits.allowed());
    let mut shapes = fits.shapes;
    for _ in 0..3 {
        let inner = shapes.pop().unwrap();
        shapes.push(PayloadShape::Branch(vec![inner]));
    }
    assert!(!SnapshotSize { bytes: 1, shapes }.allowed());
}

#[test]
fn one_of_two_writers_wins() {
    let mut store = MemoryTaskStateStore::new(1).unwrap();
    assert!(MemoryTaskStateStore::new(0).is_err());
    assert_eq!(store.load(&identity()).unwrap(), None);
    assert_eq!(store.compare_exchange(0, &created(), &size()).unwrap(), TaskWriteOutcome::Applied);
    assert_eq!(store.compare_exchange(0, &created(), &size()).unwrap(), TaskWriteOutcome::AlreadyPresent);
    let rival = TaskSnapshot::capture(0, compatibility(), payloads("[9]"), &account(), &vec![], &size()).unwrap();
    assert_eq!(
        store.compare_exchange(0, &rival, &size()).unwrap_err(),
        TaskStoreError::Conflict { expected: 0, actual: 1 }
    );
    assert_eq!(store.compare_exchange(1, &waiting(), &size()).unwrap(), TaskWriteOutcome::Applied);
    assert_eq!(store.load(&identity()).unwrap(), Some(waiting()));
    let mut other = created();
    other.identity.task_id = TaskId::new("more".to_string());
    assert_eq!(store.compare_exchange(0, &other, &size()).unwrap_err(), TaskStoreError::Capacity);
}

fn record(expected: u64, checkpoint: TaskSnapshot) -> Option<SnapshotRecord> {
    Some(SnapshotRecord { version: 1, expected_revision: expected, checkpoint, size: size() })
}

#[test]
fn snapshot_logs_are_read_to_their_end() {
    let config = FileTaskStateConfig::default().limits();
    let lines = vec![b"a\n".to_vec(), b"b\n".to_vec()];
    let latest =
        read_latest(&config, 4, &lines, &vec![record(0, created()), record(1, waiting())], &identity())
            .unwrap()
            .unwrap();
    assert_eq!(latest, waiting());
    assert_eq!(
        plan_exchange(Some(&latest), 1, &waiting(), &size()).unwrap(),
        TaskWriteOutcome::AlreadyPresent
    );
    assert_eq!(plan_exchange(None, 0, &created(), &size()).unwrap(), TaskWriteOutcome::Applied);
    assert!(matches!(plan_exchange(Some(&latest), 2, &waiting(), &size()), Err(TaskStoreError::State(_))));
    assert!(matches!(plan_exchange(None, 1, &created(), &size()), Err(TaskStoreError::State(_))));
    assert_eq!(
        plan_exchange(Some(&latest), 0, &created(), &size()).unwrap_err(),
        TaskStoreError::Conflict { expected: 0, actual: 2 }
    );
    assert!(matches!(
        read_latest(&config, 2, &vec![b"a\n".to_vec()], &vec![None], &identity()),
        Err(TaskStoreError::Corrupt { record: 1, cause: CorruptCause::Unparsable })
    ));
    assert!(matches!(
        read_latest(&config, 2, &vec![b"a\n".to_vec()], &vec![record(1, waiting())], &identity()),
        Err(TaskStoreError::Corrupt { record: 1, .. })
    ));
    assert_eq!(plan_write(&config, 0, b"x".to_vec()).unwrap(), b"x\n".to_vec());
}

fn request(intent: TaskIntent) -> TaskResumeRequest {
    TaskResumeRequest {
        expected_revision: 2,
        compatibility: compatibility(),
        host_limits: BudgetLimits::default(),
        run_limits: BudgetLimits::default(),
        intent,
    }
}

fn reply(turn: &str) -> TaskIntent {
    TaskIntent::Reply { reply_to: TurnId::new(turn.to_string()), answer: "this one".to_string() }
}

const REPLY: &str = r#"{"answer":"this one","reply_to":"t","task_id":"task","type":"reference_reply_v1"}"#;

#[test]
fn tasks_go_on_where_they_stopped() {
    assert_eq!(
        message(&created(), &TaskIntent::Start { message: "go".to_string() }).unwrap(),
        "go"
    );
    assert_eq!(
        message(&created(), &TaskIntent::Continue { instruction: "go".to_string() }).unwrap_err(),
        TaskCoordinatorError::InvalidIntent
    );
    assert_eq!(message(&waiting(), &reply("t")).unwrap(), REPLY);
    assert_eq!(message(&waiting(), &reply("u")).unwrap_err(), TaskCoordinatorError::InvalidIntent);
    let (events, image) = waiting_turn();
    let evidence =
        Evidence { snapshot: Some(waiting()), size: size(), rebuilt_size: size(), budget: Some(image), history: events };
    assert_eq!(prepare(&evidence, &identity(), &request(reply("t"))).unwrap(), REPLY);
    let missing = Evidence { snapshot: None, size: size(), rebuilt_size: size(), budget: None, history: vec![] };
    assert_eq!(
        prepare(&missing, &identity(), &request(reply("t"))).unwrap_err(),
        TaskCoordinatorError::Missing
    );
    let shorter = Evidence { history: vec![], ..evidence };
    assert!(matches!(
        prepare(&shorter, &identity(), &request(reply("t"))),
        Err(TaskCoordinatorError::State(_))
    ));
    assert!(recheck_state(&waiting(), Some(&waiting())).is_ok());
    assert!(recheck_state(&waiting(), Some(&created())).is_err());
    assert!(recheck_state(&waiting(), None).is_err());
}

#[test]
fn outcomes_are_published_on_evidence() {
    let (events, budget) = waiting_turn();
    assert!(confirm_publication(Some(&budget), &events).is_ok());
    assert!(confirm_publication(None, &events).is_err());
    let next = publication(&created(), Ok(payloads("[2]")), &budget, &events, &size()).unwrap();
    assert_eq!(next, waiting());
    let large = SnapshotSize { bytes: 524_289, ..size() };
    assert_eq!(
        publication(&created(), Ok(payloads("[2]")), &budget, &events, &large).unwrap_err(),
        TaskPublishError::Evidence(TaskCoordinatorError::State(TaskStateError::Limit))
    );
    assert_eq!(
        publication(&created(), Err("no".to_string()), &budget, &events, &size()).unwrap_err(),
        TaskPublishError::Payload("no".to_string())
    );
}

#[test]
fn a_coordinator_drives_one_turn_at_a_time() {
    let mut control = TaskCoordinator::new();
    control.start().unwrap();
    assert_eq!(control.start().unwrap_err(), TaskCoordinatorError::Unavailable);
    assert!(!control.close());
    control.finish();
    assert_eq!(control.start().unwrap_err(), TaskCoordinatorError::Unavailable);
    assert!(control.close());
    let cursor = BudgetEventCursor {
        session_id: SessionId::new("s".to_string()),
        turn_id: TurnId::new("t".to_string()),
        event_id: EventId::new("e3".to_string()),
        seq: 3,
    };
    assert_eq!(waiting().cursor(), Some(&cursor));
}

#[test]
fn lone_snapshots_are_measured_before_they_are_believed() {
    assert_eq!(TaskSnapshot::from_json(500, Some(created()), &size()).unwrap(), created());
    assert_eq!(TaskSnapshot::from_json(524_289, Some(created()), &size()), Err(TaskStateError::Limit));
    assert_eq!(TaskSnapshot::from_json(500, None, &size()), Err(TaskStateError::Encoding));
    let mut broken = created();
    broken.revision = 0;
    assert!(matches!(
        TaskSnapshot::from_json(500, Some(broken), &size()),
        Err(TaskStateError::Invalid(_))
    ));
    assert!(validate_identity(&identity()).is_ok());
    let long = BudgetIdentity { agent_key: "k".repeat(4097), ..identity() };
    assert_eq!(
        validate_identity(&long),
        Err(TaskStoreError::State(TaskStateError::Invalid("invalid task identity")))
    );
}

fn begun(intent: TaskIntent) -> ResumeMachine {
    ResumeMachine::new(identity(), request(intent)).advance(ResumeEvent::Begun { cancelled: false })
}

fn found(intent: TaskIntent) -> ResumeMachine {
    begun(intent).advance(ResumeEvent::SnapshotLoaded(Ok(Some(waiting()))))
}

fn gathered() -> ResumeMachine {
    let (events, image) = waiting_turn();
    let grounds = Grounds { history: events, size: size(), rebuilt_size: size() };
    found(reply("t"))
        .advance(ResumeEvent::BudgetLoaded(Ok(Some(image))))
        .advance(ResumeEvent::HistoryLoaded(Ok(grounds)))
}

#[test]
fn turns_run_with_consent_on_an_unchanged_task() {
    let machine = gathered();
    assert_eq!(machine.action(), ResumeAction::Authorize);
    let machine = machine.advance(ResumeEvent::Claimed(Ok(())));
    assert_eq!(machine.action(), ResumeAction::Authorize);
    let machine = machine.advance(ResumeEvent::Authorized { answer: Ok(()), cancelled: false });
    assert_eq!(machine.action(), ResumeAction::Claim);
    let machine = machine.advance(ResumeEvent::Claimed(Ok(())));
    assert_eq!(machine.action(), ResumeAction::Recheck);
    let machine =
        machine.advance(ResumeEvent::Rechecked { history: Ok(()), current: Ok(Some(waiting())), cancelled: false });
    assert_eq!(machine.action(), ResumeAction::RunTurn);
    match machine.stage {
        ResumeStage::Running { message, .. } => assert_eq!(message, REPLY),
        _ => panic!("not running"),
    }
}

#[test]
fn continuations_are_refused_with_their_reason() {
    let denied = gathered().advance(ResumeEvent::Authorized { answer: Err("no".to_string()), cancelled: false });
    assert_eq!(denied.stage, ResumeStage::Refused(TaskCoordinatorError::Denied("no".to_string())));
    let late = gathered().advance(ResumeEvent::Authorized { answer: Ok(()), cancelled: true });
    assert_eq!(late.stage, ResumeStage::Refused(TaskCoordinatorError::Cancelled));
    let changed = gathered()
        .advance(ResumeEvent::Authorized { answer: Ok(()), cancelled: false })
        .advance(ResumeEvent::Claimed(Ok(())))
        .advance(ResumeEvent::Rechecked { history: Ok(()), current: Ok(Some(created())), cancelled: false });
    assert_eq!(
        changed.stage,
        ResumeStage::Refused(TaskCoordinatorError::State(TaskStateError::EvidenceMismatch))
    );
    let early = ResumeMachine::new(identity(), request(reply("t")));
    assert_eq!(early.action(), ResumeAction::Begin);
    let early = early.advance(ResumeEvent::Begun { cancelled: true });
    assert_eq!(early.stage, ResumeStage::Refused(TaskCoordinatorError::Cancelled));
    assert_eq!(begun(reply("t")).action(), ResumeAction::LoadSnapshot);
    let none = begun(reply("t")).advance(ResumeEvent::SnapshotLoaded(Ok(None)));
    assert_eq!(none.stage, ResumeStage::Refused(TaskCoordinatorError::Missing));
    assert_eq!(found(reply("other")).stage, ResumeStage::Refused(TaskCoordinatorError::InvalidIntent));
    assert_eq!(found(reply("t")).action(), ResumeAction::LoadBudget);
    let broke = found(reply("t")).advance(ResumeEvent::BudgetLoaded(Ok(None)));
    assert_eq!(
        broke.stage,
        ResumeStage::Refused(TaskCoordinatorError::Budget(BudgetExecutionError::Missing))
    );
    let (_, image) = waiting_turn();
    let proving = found(reply("t")).advance(ResumeEvent::BudgetLoaded(Ok(Some(image))));
    assert_eq!(proving.action(), ResumeAction::LoadHistory);
    let grounds = Grounds { history: vec![], size: size(), rebuilt_size: size() };
    let doubted = proving.advance(ResumeEvent::HistoryLoaded(Ok(grounds)));
    assert!(matches!(doubted.stage, ResumeStage::Refused(TaskCoordinatorError::State(_))));
}
