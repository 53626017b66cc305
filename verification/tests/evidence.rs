use std::sync::Arc;

use jingwei::agent::turn::{
    AgentError, AgentTurnReport, DriveFailure, InvalidTurnFailure, SettlementAttempt, TerminalAttempt, TurnDisposition,
    TurnFailure, TurnFailureContext,
};
use jingwei::id::{EventId, SessionId, TurnId};
use jingwei::json::Json;
use jingwei::llm::failure::{LlmError, ModelGatewayError};
use jingwei::session::error::SessionRuntimeError;
use jingwei::session::event::{DoneStatus, SessionEvent, SessionEventKind};
use jingwei::session::model_record::{ModelTimeout, ModelTimeoutError};
use jingwei::session::outcome_text::{category_name, outcome_json};
use jingwei::session::tool_record::{ToolFailureCategory, ToolRecordedOutcome, ToolResult};

#[derive(Clone, Copy, Debug)]
enum InvalidEvidenceCase {
    DirectCancellationFailure,
    NestedCancellationFailure,
    TerminalIdentity,
    TerminalStatus,
    TerminalArtifact,
    FailedTerminalKind,
    FailedArtifact,
    SettlementIdentity,
    FailedTerminalContradictedBySettlement,
}

fn event(session_id: &str, turn_id: &str, kind: SessionEventKind) -> SessionEvent {
    SessionEvent {
        event_id: EventId::new("evt".to_string()),
        session_id: SessionId::new(session_id.to_string()),
        turn_id: TurnId::new(turn_id.to_string()),
        generation_id: None,
        message_id: None,
        seq: 0,
        kind,
    }
}

fn done(status: DoneStatus, artifact: Option<&str>) -> SessionEventKind {
    SessionEventKind::Done {
        status,
        artifact: artifact.map(|text| Json::from_compact(text.to_string())),
    }
}

fn stopped() -> SettlementAttempt {
    SettlementAttempt::Failed(SessionRuntimeError::Stopped)
}

#[test]
fn turn_failure_rejects_mismatched_terminal_and_settlement_evidence() {
    for case in [
        InvalidEvidenceCase::DirectCancellationFailure,
        InvalidEvidenceCase::NestedCancellationFailure,
        InvalidEvidenceCase::TerminalIdentity,
        InvalidEvidenceCase::TerminalStatus,
        InvalidEvidenceCase::TerminalArtifact,
        InvalidEvidenceCase::FailedTerminalKind,
        InvalidEvidenceCase::FailedArtifact,
        InvalidEvidenceCase::SettlementIdentity,
        InvalidEvidenceCase::FailedTerminalContradictedBySettlement,
    ] {
        let (disposition, artifact, drive_failure, terminal_attempt, settlement_attempt, expected) = match case {
            InvalidEvidenceCase::DirectCancellationFailure => (
                TurnDisposition::Failed,
                None,
                Some(DriveFailure::Agent(AgentError::Cancelled)),
                TerminalAttempt::Committed(event(
                    "context-session",
                    "context-turn",
                    SessionEventKind::Error {
                        code: "agent_cancelled".to_string(),
                        message: "agent cancelled".to_string(),
                        retryable: false,
                    },
                )),
                stopped(),
                InvalidTurnFailure::DriveFailureMismatch,
            ),
            InvalidEvidenceCase::NestedCancellationFailure => (
                TurnDisposition::Failed,
                None,
                Some(DriveFailure::Agent(AgentError::Model(ModelGatewayError::Model(LlmError::Cancelled)))),
                TerminalAttempt::Committed(event(
                    "context-session",
                    "context-turn",
                    SessionEventKind::Error {
                        code: "model_cancelled".to_string(),
                        message: "model cancelled".to_string(),
                        retryable: false,
                    },
                )),
                stopped(),
                InvalidTurnFailure::DriveFailureMismatch,
            ),
            InvalidEvidenceCase::TerminalIdentity => (
                TurnDisposition::Completed,
                None,
                None,
                TerminalAttempt::Committed(event("other-session", "context-turn", done(DoneStatus::Completed, None))),
                stopped(),
                InvalidTurnFailure::TerminalMismatch,
            ),
            InvalidEvidenceCase::TerminalStatus => (
                TurnDisposition::Cancelled,
                None,
                None,
                TerminalAttempt::Committed(event("context-session", "context-turn", done(DoneStatus::Completed, None))),
                stopped(),
                InvalidTurnFailure::TerminalMismatch,
            ),
            InvalidEvidenceCase::TerminalArtifact => (
                TurnDisposition::WaitingForInput,
                Some("{\"expected\":true}"),
                None,
                TerminalAttempt::Committed(event(
                    "context-session",
                    "context-turn",
                    done(DoneStatus::WaitingForInput, Some("{\"actual\":true}")),
                )),
                stopped(),
                InvalidTurnFailure::TerminalMismatch,
            ),
            InvalidEvidenceCase::FailedTerminalKind => (
                TurnDisposition::Failed,
                None,
                Some(DriveFailure::Panicked),
                TerminalAttempt::Committed(event("context-session", "context-turn", done(DoneStatus::Completed, None))),
                stopped(),
                InvalidTurnFailure::TerminalMismatch,
            ),
            InvalidEvidenceCase::FailedArtifact => (
                TurnDisposition::Failed,
                Some("{\"not\":\"valid for Error\"}"),
                Some(DriveFailure::Panicked),
                TerminalAttempt::Failed(SessionRuntimeError::Stopped),
                stopped(),
                InvalidTurnFailure::ArtifactMismatch,
            ),
            InvalidEvidenceCase::SettlementIdentity => (
                TurnDisposition::Completed,
                None,
                None,
                TerminalAttempt::Failed(SessionRuntimeError::Stopped),
                SettlementAttempt::Settled(Arc::new(vec![event(
                    "context-session",
                    "other-turn",
                    SessionEventKind::UserMessage { text: "hello".to_string() },
                )])),
                InvalidTurnFailure::SettlementMismatch,
            ),
            InvalidEvidenceCase::FailedTerminalContradictedBySettlement => (
                TurnDisposition::Completed,
                None,
                None,
                TerminalAttempt::Failed(SessionRuntimeError::Stopped),
                SettlementAttempt::Settled(Arc::new(vec![event(
                    "context-session",
                    "context-turn",
                    done(DoneStatus::Completed, None),
                )])),
                InvalidTurnFailure::TerminalMismatch,
            ),
        };
        let context = TurnFailureContext::new(
            SessionId::new("context-session".to_string()),
            TurnId::new("context-turn".to_string()),
            disposition,
            String::new(),
            artifact.map(|text| Json::from_compact(text.to_string())),
            None,
            drive_failure,
        );
        assert_eq!(
            TurnFailure::new(context, terminal_attempt, settlement_attempt)
                .expect_err("mismatched public evidence must be rejected"),
            expected,
            "wrong rejection for {case:?}"
        );
    }
}

#[test]
fn turn_failure_keeps_honest_evidence() {
    let context = TurnFailureContext::new(
        SessionId::new("s".to_string()),
        TurnId::new("t".to_string()),
        TurnDisposition::Failed,
        "partial".to_string(),
        None,
        None,
        Some(DriveFailure::Panicked),
    );
    let failure = TurnFailure::new(
        context,
        TerminalAttempt::Failed(SessionRuntimeError::Stopped),
        SettlementAttempt::Failed(SessionRuntimeError::Stopped),
    )
    .unwrap();
    assert_eq!(failure.final_text(), "partial");
    assert_eq!(failure.session_id().as_str(), "s");
    assert_eq!(failure.turn_id().as_str(), "t");
    assert_eq!(failure.drive_failure(), Some(&DriveFailure::Panicked));
}

fn parsed_timeout(text: &str) -> Result<ModelTimeout, ModelTimeoutError> {
    let value: serde_json::Value = serde_json::from_str(text).unwrap();
    ModelTimeout::try_new(value["secs"].as_u64().unwrap(), value["nanos"].as_u64().unwrap() as u32)
}

#[test]
fn model_timeout_rejects_invalid_nanoseconds_on_all_inputs() {
    assert_eq!(
        ModelTimeout::try_new(1, 1_000_000_000),
        Err(ModelTimeoutError::NanosecondsOutOfRange { nanos: 1_000_000_000 })
    );
    assert!(parsed_timeout(r#"{"secs":1,"nanos":1000000000}"#).is_err());
    assert_eq!(
        parsed_timeout(r#"{"secs":1,"nanos":999999999}"#).unwrap(),
        ModelTimeout::try_new(1, 999_999_999).unwrap()
    );
}

fn result_text(call_id: &str, outcome: &ToolRecordedOutcome) -> String {
    format!("{{\"call_id\":\"{}\",\"outcome\":{}}}", call_id, outcome_json(outcome))
}

fn parsed_failure(text: &str) -> ToolResult {
    let value: serde_json::Value = serde_json::from_str(text).unwrap();
    let outcome = value["outcome"].as_object().unwrap();
    assert_eq!(outcome["status"], "failed");
    assert_eq!(outcome["category"], category_name(ToolFailureCategory::ApprovalDenied));
    assert_eq!(outcome.len(), 5);
    ToolResult {
        call_id: value["call_id"].as_str().unwrap().to_string(),
        outcome: ToolRecordedOutcome::Failed {
            category: ToolFailureCategory::ApprovalDenied,
            code: outcome["code"].as_str().unwrap().to_string(),
            message: outcome["message"].as_str().unwrap().to_string(),
            retryable: outcome["retryable"].as_bool().unwrap(),
        },
    }
}

#[test]
fn structured_tool_results_roundtrip_without_display_parsing() {
    let succeeded = ToolRecordedOutcome::Succeeded { output: "indexed 3 files".to_string() };
    assert_eq!(
        result_text("call_success", &succeeded),
        r#"{"call_id":"call_success","outcome":{"status":"succeeded","output":"indexed 3 files"}}"#
    );
    let failed = ToolRecordedOutcome::Failed {
        category: ToolFailureCategory::ApprovalDenied,
        code: "approval_denied".to_string(),
        message: "the requested operation was not approved".to_string(),
        retryable: false,
    };
    let json = result_text("call_failure", &failed);
    assert_eq!(
        json,
        r#"{"call_id":"call_failure","outcome":{"status":"failed","category":"approval_denied","code":"approval_denied","message":"the requested operation was not approved","retryable":false}}"#
    );
    let back = parsed_failure(&json);
    assert_eq!(back, ToolResult { call_id: "call_failure".to_string(), outcome: failed });
}

#[test]
fn quotes_in_outcomes_are_escaped() {
    let outcome = ToolRecordedOutcome::Succeeded { output: "say \"hi\"\n\u{1}".to_string() };
    let text = outcome_json(&outcome);
    assert_eq!(text, "{\"status\":\"succeeded\",\"output\":\"say \\\"hi\\\"\\n\\u0001\"}");
    let back: serde_json::Value = serde_json::from_str(&text).unwrap();
    assert_eq!(back["output"], "say \"hi\"\n\u{1}");
}

#[test]
fn reports_share_the_settled_events() {
    let terminal = || {
        event(
            "s",
            "t",
            SessionEventKind::Error { code: "c".to_string(), message: "m".to_string(), retryable: false },
        )
    };
    let failure = |reported: Arc<Vec<SessionEvent>>, settled: Arc<Vec<SessionEvent>>| {
        let report = AgentTurnReport::new(
            SessionId::new("s".to_string()),
            TurnId::new("t".to_string()),
            TurnDisposition::Failed,
            String::new(),
            None,
            reported,
        );
        let context = TurnFailureContext::new(
            SessionId::new("s".to_string()),
            TurnId::new("t".to_string()),
            TurnDisposition::Failed,
            String::new(),
            None,
            Some(report),
            Some(DriveFailure::Panicked),
        );
        TurnFailure::new(context, TerminalAttempt::Committed(terminal()), SettlementAttempt::Settled(settled))
    };
    let events = Arc::new(vec![terminal()]);
    assert!(failure(Arc::clone(&events), Arc::clone(&events)).is_ok());
    assert_eq!(
        failure(Arc::new(vec![terminal()]), events).err().unwrap(),
        InvalidTurnFailure::ReportMismatch
    );
}
