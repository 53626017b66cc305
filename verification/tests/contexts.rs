use jingwei::budget::vocabulary::{TokenBoundEvidence, TokenBudgetMode};
use jingwei::context::budgeting::{ContextBudget, ContextBuildLimits, ContextTarget, ContextTokenBreakdown};
use jingwei::context::builder::{heuristic, ByteHeuristicCounter, MessageSize};
use jingwei::context::content::{
    boundary, project_tool_result, BoundedResultPolicy, ContentStore, MemoryContentStore, ToolResultPolicy,
};
use jingwei::context::projector::CanonicalConversationProjector;
use jingwei::context::result_text::result_json;
use jingwei::context::viewing::{
    ContentPage, ContentReference, ContentScope, ContentStoreConfig, ResultSelection, ToolOutcomeView, ToolViewLimits,
    ViewError,
};
use jingwei::context::views::{select_tool_view, view_selection, GroupedToolSelector, ToolGroup, ToolSelector};
use jingwei::context::vocabulary::{
    LegacyReplyPolicy, OmissionReason, ProjectedTurnState, ProjectionConfig, ProjectionError,
};
use jingwei::generation::{ModelMessage, ModelToolDefinition};
use jingwei::id::{EventId, MessageId, SessionId, TaskId, TurnId};
use jingwei::json::Json;
use jingwei::session::event::{DoneStatus, SessionEvent, SessionEventKind};
use jingwei::session::log::PhysicalLogError;
use jingwei::session::tool_record::{ToolCall, ToolRecordedOutcome, ToolResult};

fn event(turn: &str, seq: u64, kind: SessionEventKind) -> SessionEvent {
    SessionEvent {
        event_id: EventId::new(format!("e{}", seq)),
        session_id: SessionId::new("s".to_string()),
        turn_id: TurnId::new(turn.to_string()),
        generation_id: None,
        message_id: match &kind {
            SessionEventKind::AssistantMessage { .. } => Some(MessageId::new(format!("m{}", seq))),
            _ => None,
        },
        seq,
        kind,
    }
}

fn said(turn: &str, seq: u64, text: &str) -> SessionEvent {
    event(turn, seq, SessionEventKind::UserMessage { text: text.to_string() })
}

fn answered(turn: &str, seq: u64, text: &str) -> SessionEvent {
    event(turn, seq, SessionEventKind::AssistantMessage { text: text.to_string() })
}

fn done(turn: &str, seq: u64, status: DoneStatus) -> SessionEvent {
    event(turn, seq, SessionEventKind::Done { status, artifact: None })
}

fn history() -> Vec<SessionEvent> {
    vec![
        said("t1", 0, "hi"),
        event("t1", 1, SessionEventKind::AssistantDelta { text: "he".to_string() }),
        answered("t1", 2, "hello"),
        done("t1", 3, DoneStatus::Completed),
        said("t2", 4, "look"),
        event(
            "t2",
            5,
            SessionEventKind::ToolCall {
                call: ToolCall {
                    action: None,
                    id: "c".to_string(),
                    name: "look".to_string(),
                    arguments: Json::from_compact("{}".to_string()),
                    operation: None,
                },
            },
        ),
        event(
            "t2",
            6,
            SessionEventKind::ToolResult {
                result: ToolResult {
                    call_id: "c".to_string(),
                    outcome: ToolRecordedOutcome::Succeeded { output: "seen".to_string() },
                },
            },
        ),
        answered("t2", 7, "there"),
        done("t2", 8, DoneStatus::WaitingForInput),
    ]
}

fn project(
    events: &Vec<SessionEvent>,
    config: ProjectionConfig,
) -> Result<jingwei::context::vocabulary::ConversationProjection, ProjectionError> {
    CanonicalConversationProjector.project(&SessionId::new("s".to_string()), events, 1000, config)
}

#[test]
fn conversations_are_projected_turn_by_turn() {
    let projection = project(&history(), ProjectionConfig::default()).unwrap();
    assert_eq!(projection.turns.len(), 2);
    assert_eq!(projection.turns[0].state, ProjectedTurnState::Completed);
    assert_eq!(projection.turns[1].state, ProjectedTurnState::WaitingForInput);
    assert_eq!(projection.source_event_count, 9);
    assert_eq!(projection.omitted[0].reason, OmissionReason::StreamDelta);
    let messages = projection.messages();
    assert_eq!(messages[0], ModelMessage::User { content: "hi".to_string() });
    match &messages[3] {
        ModelMessage::Assistant { tool_calls, .. } => {
            assert_eq!(tool_calls[0].id.as_str(), "jw_tool_5");
            assert_eq!(tool_calls[0].name, "look");
        }
        _ => panic!("not a call"),
    }
    match &messages[4] {
        ModelMessage::Tool { content, .. } => {
            assert_eq!(content, r#"{"status":"succeeded","output":"seen"}"#)
        }
        _ => panic!("not a result"),
    }
    assert!(!messages.iter().any(|message| matches!(message, ModelMessage::System { .. })));
}

#[test]
fn broken_conversations_are_refused() {
    let config = ProjectionConfig::default();
    let reason = |events: Vec<SessionEvent>| match project(&events, config) {
        Err(ProjectionError::Malformed { reason, .. }) => reason,
        _ => panic!("projected"),
    };
    assert_eq!(
        reason(vec![answered("t", 0, "x"), said("t", 1, "y")]),
        "conversation work precedes user message"
    );
    assert_eq!(
        reason(vec![said("t", 0, "x"), said("t", 1, "y")]),
        "multiple user messages in a Turn"
    );
    assert_eq!(
        reason(vec![said("t", 0, "x"), done("t", 1, DoneStatus::Cancelled), said("t", 2, "y")]),
        "event follows terminal"
    );
    let mut nameless = answered("t", 1, "x");
    nameless.message_id = None;
    assert_eq!(reason(vec![said("t", 0, "x"), nameless]), "complete reply lacks MessageId");
    assert!(matches!(
        project(&vec![said("t", 1, "x")], config),
        Err(ProjectionError::Physical(PhysicalLogError::SequenceMismatch { index: 0 }))
    ));
    let silent = vec![said("t", 0, "x"), done("t", 1, DoneStatus::Completed)];
    assert!(matches!(
        project(&silent, ProjectionConfig { legacy_replies: LegacyReplyPolicy::Reject, ..config }),
        Err(ProjectionError::MissingReply(_))
    ));
    let omitted = project(&silent, ProjectionConfig { legacy_replies: LegacyReplyPolicy::Omit, ..config }).unwrap();
    assert!(omitted.turns[0].missing_complete_reply);
    assert_eq!(
        project(&history(), ProjectionConfig { max_events: 8, ..config }).unwrap_err(),
        ProjectionError::Limit("events")
    );
    assert_eq!(
        project(&history(), ProjectionConfig { max_messages: 5, ..config }).unwrap_err(),
        ProjectionError::Limit("messages")
    );
}

#[test]
fn bytes_are_counted_in_fours() {
    assert_eq!(heuristic(0), 0);
    assert_eq!(heuristic(1), 1);
    assert_eq!(heuristic(8), 2);
    assert_eq!(heuristic(u64::MAX), 4611686018427387904);
    let target = ContextTarget { model: "m".to_string(), template_revision: "1".to_string() };
    let count = ByteHeuristicCounter { template_tokens: 9 }
        .count(
            &target,
            &vec![
                MessageSize { is_system: true, bytes: 5 },
                MessageSize { is_system: false, bytes: 4 },
                MessageSize { is_system: false, bytes: 9 },
            ],
            3,
        )
        .unwrap();
    assert_eq!(
        count.tokens,
        ContextTokenBreakdown { system: 2, messages: 4, constraint: 1, template: 9 }
    );
    assert_eq!(count.tokens.total(), Some(16));
    assert_eq!(count.method, "serialized-utf8-ceil-div4-v1");
    let all = ContextTokenBreakdown { system: u64::MAX, messages: 1, constraint: 0, template: 0 };
    assert_eq!(all.total(), None);
}

#[test]
fn budgets_have_usual_limits() {
    let limits = ContextBuildLimits::default();
    assert_eq!((limits.max_groups, limits.max_messages, limits.max_count_calls), (4096, 8192, 128));
    let budget = ContextBudget {
        window_tokens: 10,
        output_reserve: 2,
        output_evidence: TokenBoundEvidence::Estimate,
        safety_margin: 1,
        mode: TokenBudgetMode::Soft,
    };
    assert_eq!(budget, budget);
}

#[test]
fn projections_name_every_event_once() {
    let events = history();
    let projection = project(&events, ProjectionConfig::default()).unwrap();
    let mut named: Vec<String> = projection
        .groups
        .iter()
        .flat_map(|group| group.source_events.iter().map(|id| id.as_str().to_string()))
        .chain(projection.omitted.iter().map(|left| left.event_id.as_str().to_string()))
        .collect();
    named.sort();
    let mut ids: Vec<String> = events.iter().map(|event| event.event_id.as_str().to_string()).collect();
    ids.sort();
    assert_eq!(named, ids);
}

fn scope(expires: u64) -> ContentScope {
    ContentScope {
        session_id: SessionId::new("s".to_string()),
        task_id: TaskId::new("task".to_string()),
        expires_at_ms: expires,
    }
}

fn store() -> MemoryContentStore {
    MemoryContentStore::new(ContentStoreConfig {
        store_id: "mem".to_string(),
        max_entries: 2,
        max_bytes: 40,
        max_content_bytes: 30,
        max_page_bytes: 8,
        max_ttl_ms: 100,
    })
    .unwrap()
}

#[test]
fn stored_text_is_read_back_page_by_page() {
    let mut store = store();
    let source = EventId::new("e".to_string());
    let text = "añb€c𝄞d".to_string();
    let reference = store.put(&scope(50), &source, &text, 0).unwrap();
    assert_eq!(reference.total_bytes, text.len());
    assert_eq!(store.put(&scope(50), &source, &text, 1).unwrap(), reference);
    let mut read = String::new();
    let mut offset = Some(0);
    while let Some(at) = offset {
        let page = store.read(&reference, &scope(50), 2, at, 4).unwrap();
        assert!(!page.text.is_empty() && page.text.len() <= 4);
        read.push_str(&page.text);
        offset = page.next_offset;
    }
    assert_eq!(read, text);
    assert_eq!(store.read(&reference, &scope(50), 50, 0, 8), Err(ViewError::Unavailable));
    assert_eq!(store.read(&reference, &scope(51), 2, 0, 8), Err(ViewError::Unavailable));
    assert_eq!(store.read(&reference, &scope(50), 2, 2, 8), Err(ViewError::Cursor));
    assert_eq!(store.put(&scope(50), &source, &"other".to_string(), 1), Err(ViewError::Conflict));
    assert_eq!(
        store.put(&scope(50), &EventId::new("f".to_string()), &"x".repeat(31), 1),
        Err(ViewError::Limit)
    );
    store.purge_expired(50);
    assert_eq!(store.read(&reference, &scope(50), 2, 0, 8), Err(ViewError::Unavailable));
    assert_eq!(boundary("añb", 2), 1);
    assert_eq!(boundary("añb", 99), 4);
}

#[test]
fn long_results_are_shown_by_their_beginning() {
    let mut store = store();
    let policy = BoundedResultPolicy { inline_bytes: 4, preview_bytes: 3 };
    let outcome = ToolRecordedOutcome::Succeeded { output: "short".to_string() };
    let view = project_tool_result(
        &outcome,
        &EventId::new("e".to_string()),
        &scope(50),
        0,
        &policy,
        &mut store,
        8,
    )
    .unwrap();
    let value: serde_json::Value = serde_json::from_str(&result_json(&view)).unwrap();
    assert_eq!(value["outcome"]["output"]["text"], "sho");
    assert_eq!(value["outcome"]["output"]["truncated"], true);
    assert_eq!(value["outcome"]["output"]["total_bytes"], 5);
    let outcome = ToolRecordedOutcome::Succeeded { output: "tiny".to_string() };
    let view = project_tool_result(
        &outcome,
        &EventId::new("f".to_string()),
        &scope(50),
        0,
        &policy,
        &mut store,
        8,
    )
    .unwrap();
    let value: serde_json::Value = serde_json::from_str(&result_json(&view)).unwrap();
    assert_eq!(value["outcome"]["output"]["text"], "tiny");
    assert_eq!(value["outcome"]["output"]["truncated"], false);
}

fn reference_of(outcome: &ToolOutcomeView) -> Option<&ContentReference> {
    match outcome {
        ToolOutcomeView::Succeeded { output } => output.reference.as_ref(),
        ToolOutcomeView::Failed { message, .. } => message.reference.as_ref(),
    }
}

#[test]
fn cut_results_are_read_back_whole() {
    let mut store = store();
    let policy = BoundedResultPolicy { inline_bytes: 4, preview_bytes: 3 };
    let whole = "a longer señor";
    let outcome = ToolRecordedOutcome::Succeeded { output: whole.to_string() };
    let source = EventId::new("e".to_string());
    let view = project_tool_result(&outcome, &source, &scope(50), 1, &policy, &mut store, 8).unwrap();
    assert_eq!(view.source_event, source);
    let reference = reference_of(&view.outcome).unwrap();
    assert_eq!(reference.total_bytes, whole.len());
    let mut text = String::new();
    let mut offset = Some(0);
    while let Some(at) = offset {
        let page = store.read(reference, &scope(50), 2, at, 4).unwrap();
        text.push_str(&page.text);
        offset = page.next_offset;
    }
    assert_eq!(text, whole);
    let mut again = project_tool_result(&outcome, &source, &scope(50), 1, &policy, &mut store, 8).unwrap();
    assert_eq!(again, view);
    again.algorithm_version = 2;
    assert_ne!(again, view);
}

struct Recorder {
    puts: Vec<(String, String, String, u64)>,
    answer: Result<ContentReference, ViewError>,
}

impl ContentStore for Recorder {
    fn put(
        &mut self,
        scope: &ContentScope,
        source: &EventId,
        text: &String,
        now_ms: u64,
    ) -> Result<ContentReference, ViewError> {
        self.puts.push((
            scope.task_id.as_str().to_string(),
            source.as_str().to_string(),
            text.to_string(),
            now_ms,
        ));
        std::mem::replace(&mut self.answer, Err(ViewError::Unavailable))
    }

    fn read(
        &self,
        _: &ContentReference,
        _: &ContentScope,
        _: u64,
        _: usize,
        _: usize,
    ) -> Result<ContentPage, ViewError> {
        Err(ViewError::Unavailable)
    }
}

struct Whole(std::cell::RefCell<Vec<String>>, ResultSelection);

impl ToolResultPolicy for Whole {
    fn select(&self, text: &String) -> Result<ResultSelection, ViewError> {
        self.0.borrow_mut().push(text.clone());
        Ok(self.1)
    }
}

#[test]
fn stores_get_the_whole_text_once_where_it_is_cut() {
    let outcome = ToolRecordedOutcome::Succeeded { output: "something".to_string() };
    let source = EventId::new("e".to_string());
    let mut recorder = Recorder { puts: vec![], answer: Err(ViewError::Limit) };
    let policy = Whole(std::cell::RefCell::new(vec![]), ResultSelection::Prefix { bytes: 4 });
    let result = project_tool_result(&outcome, &source, &scope(50), 7, &policy, &mut recorder, 8);
    assert_eq!(result, Err(ViewError::Limit));
    assert_eq!(policy.0.borrow().clone(), vec!["something".to_string()]);
    let task = scope(50).task_id.as_str().to_string();
    assert_eq!(recorder.puts, vec![(task, "e".to_string(), "something".to_string(), 7)]);
    recorder.puts.clear();
    let inline = Whole(std::cell::RefCell::new(vec![]), ResultSelection::Inline);
    assert!(project_tool_result(&outcome, &source, &scope(50), 7, &inline, &mut recorder, 9).is_ok());
    assert_eq!(
        project_tool_result(&outcome, &source, &scope(50), 7, &inline, &mut recorder, 8),
        Err(ViewError::Limit)
    );
    assert_eq!(
        project_tool_result(&outcome, &source, &scope(50), 7, &inline, &mut recorder, 0),
        Err(ViewError::Invalid)
    );
    assert!(recorder.puts.is_empty());
    assert_eq!(inline.0.borrow().len(), 2);
    let foreign = ContentReference {
        store_id: "s".to_string(),
        source_event: EventId::new("other".to_string()),
        scope: scope(50),
        total_bytes: 9,
    };
    recorder.answer = Ok(foreign);
    assert_eq!(
        project_tool_result(&outcome, &source, &scope(50), 7, &policy, &mut recorder, 8),
        Err(ViewError::Conflict)
    );
}

struct Catalogs(std::cell::RefCell<Vec<Vec<String>>>);

impl ToolSelector for Catalogs {
    fn select(&self, authorized: &Vec<ModelToolDefinition>) -> Result<Vec<String>, ViewError> {
        self.0.borrow_mut().push(authorized.iter().map(|tool| tool.name.clone()).collect());
        Ok(vec![])
    }
}

#[test]
fn selectors_are_shown_the_sorted_catalog() {
    let limits = ToolViewLimits { max_catalog: 10, max_visible: 2, max_input_bytes: 100 };
    let selector = Catalogs(std::cell::RefCell::new(vec![]));
    let view = select_tool_view(&vec![tool("c"), tool("a"), tool("b")], 10, &selector, limits).unwrap();
    let names = vec!["a".to_string(), "b".to_string(), "c".to_string()];
    assert_eq!(selector.0.borrow().clone(), vec![names.clone()]);
    assert_eq!(view.excluded, names);
}

fn tool(name: &str) -> ModelToolDefinition {
    ModelToolDefinition {
        name: name.to_string(),
        description: "d".to_string(),
        parameters: Json::from_compact("{}".to_string()),
    }
}

#[test]
fn views_show_what_is_selected_and_granted() {
    let limits = ToolViewLimits { max_catalog: 10, max_visible: 2, max_input_bytes: 100 };
    let catalog = vec![tool("c"), tool("a"), tool("b")];
    let selector = GroupedToolSelector {
        names: Some(vec!["b".to_string()]),
        groups: vec![ToolGroup { name: "g".to_string(), members: vec!["a".to_string()] }],
        active_groups: vec!["g".to_string()],
    };
    let view = select_tool_view(&catalog, 10, &selector, limits).unwrap();
    assert_eq!(view.tools, vec![tool("a"), tool("b")]);
    assert_eq!(view.excluded, vec!["c".to_string()]);
    let sorted = vec![tool("a"), tool("b"), tool("c")];
    assert_eq!(
        view_selection(&sorted, &Ok(vec!["zed".to_string()]), limits),
        Err(ViewError::Unauthorized)
    );
    assert_eq!(
        view_selection(
            &sorted,
            &Ok(vec!["a".to_string(), "b".to_string(), "c".to_string()]),
            limits
        ),
        Err(ViewError::Limit)
    );
    assert_eq!(
        view_selection(&sorted, &Err(ViewError::Unavailable), limits),
        Err(ViewError::Unavailable)
    );
}

#[test]
fn stored_text_stays_until_it_expires() {
    let mut store = store();
    let source = EventId::new("e".to_string());
    let text = "kept".to_string();
    let reference = store.put(&scope(50), &source, &text, 0).unwrap();
    store.put(&scope(20), &EventId::new("f".to_string()), &"gone".to_string(), 1).unwrap();
    store.purge_expired(30);
    store.put(&scope(60), &EventId::new("g".to_string()), &"new".to_string(), 31).unwrap();
    assert!(store.put(&scope(60), &EventId::new("h".to_string()), &"more".to_string(), 32).is_err());
    assert_eq!(store.read(&reference, &scope(50), 49, 0, 8).unwrap().text, "kept");
    assert!(store.read(&reference, &scope(50), 50, 0, 8).is_err());
    store.purge_expired(50);
    assert!(store.put(&scope(60), &EventId::new("h".to_string()), &"more".to_string(), 51).is_ok());
}
