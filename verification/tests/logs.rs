use jingwei::budget::file::FileBudgetCheckpointConfig;
use jingwei::id::{EventId, SessionId, TurnId};
use jingwei::session::event::{SessionEvent, SessionEventKind};
use jingwei::session::file_name::{session_file_name, session_id_from_file_name};
use jingwei::session::jsonl::{
    frame_log, plan_append, read_physical_log, CommitCertainty, OperationControl, PersistAppendOutcome,
    SessionPersistenceError, SessionState,
};
use jingwei::session::log::PhysicalLogError;
use jingwei::store::control::{FileStoreConfig, Refusal, StoreControl};
use jingwei::store::lines::{frame_record, split_lines};
use jingwei::task::file::FileTaskStateConfig;

fn event(id: &str, seq: u64, text: &str) -> SessionEvent {
    SessionEvent {
        event_id: EventId::new(id.to_string()),
        session_id: SessionId::new("s".to_string()),
        turn_id: TurnId::new("t".to_string()),
        generation_id: None,
        message_id: None,
        seq,
        kind: SessionEventKind::AssistantDelta { text: text.to_string() },
    }
}

#[test]
fn shutdown_drains_accepted_blocking_commit_after_waiter_cancellation() {
    let mut control = OperationControl::new();
    control.enter().unwrap();
    let was_pending = !control.stop();
    assert!(matches!(
        control.enter(),
        Err(SessionPersistenceError::Io {
            operation: "admit_operation",
            certainty: CommitCertainty::DefinitelyNotCommitted,
            message: _
        })
    ));
    assert!(was_pending, "shutdown returned while an accepted blocking commit was still running");
    assert!(control.release());
}

#[test]
fn visible_complete_line_after_sync_failure_remains_indeterminate_until_restart() {
    let mut state = SessionState::new();
    let expected = event("evt_1", 0, "visible but not proven durable");
    state.check().unwrap();
    assert_eq!(plan_append(&vec![], &expected).unwrap(), PersistAppendOutcome::Appended);
    state.begin_commit();
    assert!(matches!(
        state.latch_indeterminate("sync_data", "injected sync_data failure".to_string()),
        SessionPersistenceError::Io {
            operation: "sync_data",
            certainty: CommitCertainty::Indeterminate,
            message: _
        }
    ));
    for _ in 0..2 {
        assert!(matches!(
            state.check(),
            Err(SessionPersistenceError::Io {
                operation: "sync_data",
                certainty: CommitCertainty::Indeterminate,
                message: _
            })
        ));
    }
    let restarted = SessionState::new();
    restarted.check().unwrap();
    let session = SessionId::new("s".to_string());
    let loaded = read_physical_log(&session, vec![Ok(event("evt_1", 0, "visible but not proven durable"))]).unwrap();
    assert_eq!(loaded, vec![expected]);
}

#[test]
fn an_unfinished_commit_blocks_until_it_is_confirmed() {
    let mut state = SessionState::new();
    state.begin_commit();
    assert!(matches!(
        state.check(),
        Err(SessionPersistenceError::Io { operation: "commit_in_progress", .. })
    ));
    state.confirm();
    assert!(state.check().is_ok());
}

#[test]
fn lines_come_apart_and_records_are_found_again() {
    let bytes = b"{\"a\":1}\n{\"b\":2}\n".to_vec();
    let lines = split_lines(&bytes);
    assert_eq!(lines, vec![b"{\"a\":1}\n".to_vec(), b"{\"b\":2}\n".to_vec()]);
    assert_eq!(split_lines(&vec![]), Vec::<Vec<u8>>::new());
    assert_eq!(split_lines(&b"x\ny".to_vec()), vec![b"x\n".to_vec(), b"y".to_vec()]);
    let mut log = bytes.clone();
    log.extend(frame_record(b"{\"c\":3}".to_vec(), 8).unwrap());
    assert_eq!(split_lines(&log).len(), 3);
    assert_eq!(split_lines(&log)[2], b"{\"c\":3}\n".to_vec());
    assert!(frame_record(b"{\"c\":3}".to_vec(), 7).is_none());
}

#[test]
fn a_torn_tail_is_told_with_its_place() {
    assert!(matches!(
        frame_log(&b"one\ntwo\nthr".to_vec()),
        Err(SessionPersistenceError::CorruptLog { physical_index: 2, .. })
    ));
    assert_eq!(frame_log(&b"one\ntwo\n".to_vec()).unwrap().len(), 2);
    assert_eq!(frame_log(&vec![]).unwrap().len(), 0);
}

#[test]
fn undecodable_and_misplaced_records_are_refused() {
    let session = SessionId::new("s".to_string());
    match read_physical_log(&session, vec![Ok(event("a", 0, "x")), Err("bad token".to_string())]) {
        Err(SessionPersistenceError::CorruptLog { physical_index, message }) => {
            assert_eq!(physical_index, 1);
            assert_eq!(message, "JSON record cannot be decoded: bad token");
        }
        _ => panic!("a corrupt log was read"),
    }
    assert!(matches!(
        read_physical_log(&session, vec![Ok(event("a", 0, "x")), Ok(event("b", 2, "y"))]),
        Err(SessionPersistenceError::InvalidHistory(PhysicalLogError::SequenceMismatch { index: 1 }))
    ));
    assert!(matches!(
        read_physical_log(&session, vec![Ok(event("a", 0, "x")), Ok(event("a", 1, "y"))]),
        Err(SessionPersistenceError::InvalidHistory(PhysicalLogError::DuplicateEvent { index: 1 }))
    ));
    let other = SessionId::new("other".to_string());
    assert!(matches!(
        read_physical_log(&other, vec![Ok(event("a", 0, "x"))]),
        Err(SessionPersistenceError::InvalidHistory(PhysicalLogError::ForeignSession { index: 0 }))
    ));
}

fn conflict(events: &Vec<SessionEvent>, next: &SessionEvent) -> String {
    match plan_append(events, next) {
        Err(SessionPersistenceError::Conflict { message, seq, .. }) => {
            assert_eq!(seq, next.seq);
            message
        }
        _ => panic!("no conflict"),
    }
}

#[test]
fn appends_are_exact_replays_or_conflicts() {
    let events = vec![event("a", 0, "x"), event("b", 1, "y")];
    assert_eq!(plan_append(&events, &event("c", 2, "z")).unwrap(), PersistAppendOutcome::Appended);
    assert_eq!(plan_append(&events, &event("b", 1, "y")).unwrap(), PersistAppendOutcome::ReplayedExact);
    assert_eq!(
        conflict(&events, &event("b", 1, "other")),
        "event ID is already durable at sequence 1 with different content"
    );
    assert_eq!(conflict(&events, &event("c", 0, "z")), "durable sequence 0 is occupied by event a");
    assert_eq!(conflict(&events, &event("c", 7, "z")), "sequence is not the expected durable head 2");
}

#[test]
fn session_names_come_back_from_file_names() {
    for name in ["s", "../../etc/passwd", "ünï", "a/b\\c", ""] {
        let id = SessionId::new(name.to_string());
        let file = session_file_name(&id);
        assert!(!file.contains('/') && !file.contains('\\'));
        assert_eq!(session_id_from_file_name(&file).unwrap().as_str(), name);
    }
    assert_eq!(session_file_name(&SessionId::new("a".to_string())), "session-61.jsonl");
    assert!(session_id_from_file_name("session-6.jsonl").is_none());
    assert!(session_id_from_file_name("session-zz.jsonl").is_none());
    assert!(session_id_from_file_name("session-ff.jsonl").is_none());
    assert!(session_id_from_file_name("other-61.jsonl").is_none());
}

#[test]
fn store_doors_open_close_and_fill() {
    let mut control = StoreControl::new(1);
    assert!(control.enter().is_ok());
    assert_eq!(control.enter(), Err(Refusal::Busy));
    assert!(!control.close());
    assert_eq!(control.enter(), Err(Refusal::Closed));
    assert!(control.leave());
    assert_eq!(control.status().in_flight, 0);
    assert!(FileBudgetCheckpointConfig::default().limits().workable());
    assert!(FileTaskStateConfig::default().limits().workable());
    assert!(!FileStoreConfig { max_record_bytes: 2, max_log_bytes: 1, max_io_jobs: 1 }.workable());
    assert!(!FileStoreConfig { max_record_bytes: 0, max_log_bytes: 1, max_io_jobs: 1 }.workable());
    assert!(!FileStoreConfig { max_record_bytes: 1, max_log_bytes: 1, max_io_jobs: 0 }.workable());
}
