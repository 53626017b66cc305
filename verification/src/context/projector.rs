//! The conversation that a session's log holds.
//!
//! Nothing here reads a file or asks a model. Every event of a log is either part of
//! a group of messages or listed as left out, and a log that is not sound, or whose
//! work is not confirmed, is refused as a whole.

use crate::context::vocabulary::{
    ConversationProjection, ConversationProjectionView, LegacyReplyPolicy, OmissionReason, OmittedEvent,
    OmittedEventView, ProjectedTurn, ProjectedTurnState, ProjectedTurnView, ProjectionConfig, ProjectionError,
    ProjectionErrorView, ProjectionGroup, ProjectionGroupKind, ProjectionGroupView,
};
use crate::generation::{ModelMessage, ModelMessageView, ModelToolCall, ModelToolCallView};
use crate::id::{MessageId, ProviderToolCallId, SessionId};
use crate::json::{decimal, decimal_text};
use crate::record::{holds, Record};
use crate::session::event::{
    DoneStatus, SessionEvent, SessionEventKind, SessionEventKindView, SessionEventView,
};
use crate::session::log::{log_fault, sound_log, validate_physical_log};
use crate::session::outcome_text::{outcome_json, outcome_json_of};
use crate::text::{blank, is_blank};
use vstd::prelude::*;

verus! {

/// The events that open and close work, by the identity that ties them together.
#[derive(Clone, Copy, Debug, PartialEq, Eq, Structural)]
pub enum Mark {
    ToolCall,
    ToolResult,
    ModelRequest,
    ModelResult,
}

/// The identity of the work that an event opens or closes.
pub open spec fn mark_id(event: SessionEventView, mark: Mark) -> Option<Seq<char>> {
    match (mark, event.kind) {
        (Mark::ToolCall, SessionEventKindView::ToolCall { call }) => Some(call.id),
        (Mark::ToolResult, SessionEventKindView::ToolResult { result }) => Some(result.call_id),
        (Mark::ModelRequest, SessionEventKindView::ModelRequest { request }) => Some(
            request.call_id,
        ),
        (Mark::ModelResult, SessionEventKindView::ModelResult { result }) => Some(result.call_id),
        _ => None,
    }
}

/// One of the events from `a` up to `b` opens or closes the work `id`.
pub open spec fn any_mark(
    events: Seq<SessionEventView>,
    a: int,
    b: int,
    mark: Mark,
    id: Seq<char>,
) -> bool {
    exists|j: int| a <= j < b && mark_id(#[trigger] events[j], mark) == Some(id)
}

pub open spec fn any_user(events: Seq<SessionEventView>, a: int, b: int) -> bool {
    exists|j: int| a <= j < b && (#[trigger] events[j]).kind is UserMessage
}

pub open spec fn any_reply(events: Seq<SessionEventView>, a: int, b: int) -> bool {
    exists|j: int| a <= j < b && (#[trigger] events[j]).kind is AssistantMessage
}

pub open spec fn any_terminal(events: Seq<SessionEventView>, a: int, b: int) -> bool {
    exists|j: int| a <= j < b && (#[trigger] events[j]).is_terminal()
}

/// Work that a complete reply puts an end to.
pub open spec fn is_conversation_work(kind: SessionEventKindView) -> bool {
    kind is UserMessage || kind is AssistantDelta || kind is ModelRequest || kind is ModelResult
        || kind is ToolCall || kind is ToolResult
}

/// Work that only a user message can start.
pub open spec fn needs_user(kind: SessionEventKindView) -> bool {
    kind is AssistantMessage || kind is AssistantDelta || kind is ToolCall || kind is ModelRequest
}

/// What is wrong with the `i`th event, given the events of its turn before it and the
/// identities of the replies of earlier turns.
pub open spec fn event_fault(
    events: Seq<SessionEventView>,
    start: int,
    i: int,
    taken: Seq<Seq<char>>,
) -> Option<Seq<char>> {
    let event = events[i];
    let own = match event.kind {
        SessionEventKindView::UserMessage { .. } => if any_user(events, start, i) {
            Some("multiple user messages in a Turn"@)
        } else {
            None
        },
        SessionEventKindView::AssistantMessage { .. } => match event.message_id {
            None => Some("complete reply lacks MessageId"@),
            Some(id) => if is_blank(id) || taken.contains(id) || any_reply(events, start, i) {
                Some("duplicate complete reply or MessageId"@)
            } else {
                None
            },
        },
        SessionEventKindView::ToolCall { call } => if is_blank(call.id) || is_blank(call.name)
            || any_mark(events, start, i, Mark::ToolCall, call.id) {
            Some("empty or duplicate tool call identity"@)
        } else {
            None
        },
        SessionEventKindView::ToolResult { result } => if !any_mark(
            events,
            start,
            i,
            Mark::ToolCall,
            result.call_id,
        ) {
            Some("orphan or cross-Turn tool result"@)
        } else if any_mark(events, start, i, Mark::ToolResult, result.call_id) {
            Some("duplicate tool result"@)
        } else {
            None
        },
        SessionEventKindView::ModelRequest { request } => if is_blank(request.call_id) || any_mark(
            events,
            start,
            i,
            Mark::ModelRequest,
            request.call_id,
        ) {
            Some("empty or duplicate model call"@)
        } else {
            None
        },
        SessionEventKindView::ModelResult { result } => if !any_mark(
            events,
            start,
            i,
            Mark::ModelRequest,
            result.call_id,
        ) {
            Some("orphan or cross-Turn model result"@)
        } else if any_mark(events, start, i, Mark::ModelResult, result.call_id) {
            Some("duplicate model result"@)
        } else {
            None
        },
        _ => None,
    };
    if is_blank(event.event_id) {
        Some("empty event ID"@)
    } else if any_terminal(events, start, i) {
        Some("event follows terminal"@)
    } else if any_reply(events, start, i) && is_conversation_work(event.kind) {
        Some("conversation work follows complete reply"@)
    } else if own is Some {
        own
    } else if !any_user(events, start, i) && needs_user(event.kind) {
        Some("conversation work precedes user message"@)
    } else {
        None
    }
}

/// The first fault among the events from `i` up to `end`.
pub open spec fn events_fault(
    events: Seq<SessionEventView>,
    start: int,
    i: int,
    end: int,
    taken: Seq<Seq<char>>,
) -> Option<ProjectionErrorView>
    decreases end - i,
{
    if i >= end {
        None
    } else {
        match event_fault(events, start, i, taken) {
            Some(reason) => Some(
                ProjectionErrorView::Malformed { event_id: events[i].event_id, reason },
            ),
            None => events_fault(events, start, i + 1, end, taken),
        }
    }
}

/// Work is opened and not closed.
pub open spec fn unanswered(
    events: Seq<SessionEventView>,
    start: int,
    end: int,
    open: Mark,
    close: Mark,
) -> bool {
    exists|i: int|
        start <= i < end && mark_id(#[trigger] events[i], open) is Some && !any_mark(
            events,
            start,
            end,
            close,
            mark_id(events[i], open)->0,
        )
}

/// How the turn ended: by its terminal, which is its last event.
pub open spec fn state_of(events: Seq<SessionEventView>, start: int, end: int) -> ProjectedTurnState {
    match events[end - 1].kind {
        SessionEventKindView::Done { status, .. } => match status {
            DoneStatus::Completed => ProjectedTurnState::Completed,
            DoneStatus::WaitingForInput => ProjectedTurnState::WaitingForInput,
            DoneStatus::Cancelled => ProjectedTurnState::Cancelled,
        },
        SessionEventKindView::Error { .. } => ProjectedTurnState::Failed,
        _ => ProjectedTurnState::Open,
    }
}

pub open spec fn is_success(state: ProjectedTurnState) -> bool {
    state == ProjectedTurnState::Completed || state == ProjectedTurnState::WaitingForInput
}

/// The turn has work that nothing confirms.
pub open spec fn is_unconfirmed(events: Seq<SessionEventView>, start: int, end: int) -> bool {
    ||| unanswered(events, start, end, Mark::ToolCall, Mark::ToolResult)
    ||| unanswered(events, start, end, Mark::ModelRequest, Mark::ModelResult)
    ||| state_of(events, start, end) == ProjectedTurnState::Open && exists|i: int|
        start <= i < end && !((#[trigger] events[i]).kind is UserMessage)
}

/// The first event from `a` up to `b` that carries the mark, or `b`.
pub open spec fn first_mark(
    events: Seq<SessionEventView>,
    a: int,
    b: int,
    mark: Mark,
    id: Seq<char>,
) -> int
    decreases b - a,
{
    if a >= b {
        b
    } else if mark_id(events[a], mark) == Some(id) {
        a
    } else {
        first_mark(events, a + 1, b, mark, id)
    }
}

/// The name under which a model sees the call that event `seq` recorded.
pub open spec fn call_name(seq: u64) -> Seq<char> {
    "jw_tool_"@ + decimal(seq as nat)
}

/// A tool call and its result, as messages.
pub open spec fn exchange(events: Seq<SessionEventView>, i: int, answer: int) -> ProjectionGroupView {
    let call = events[i].kind->ToolCall_call;
    let outcome = events[answer].kind->ToolResult_result.outcome;
    ProjectionGroupView {
        turn_id: events[i].turn_id,
        kind: ProjectionGroupKind::ToolExchange,
        source_events: seq![events[i].event_id, events[answer].event_id],
        messages: seq![
            ModelMessageView::Assistant {
                content: None,
                tool_calls: seq![
                    ModelToolCallView {
                        id: call_name(events[i].seq),
                        name: call.name,
                        arguments: call.arguments,
                    },
                ],
            },
            ModelMessageView::Tool {
                call_id: call_name(events[i].seq),
                content: outcome_json_of(outcome),
            },
        ],
    }
}

/// A message of one event.
pub open spec fn single(event: SessionEventView, kind: ProjectionGroupKind, message: ModelMessageView) -> ProjectionGroupView {
    ProjectionGroupView {
        turn_id: event.turn_id,
        kind,
        source_events: seq![event.event_id],
        messages: seq![message],
    }
}

/// The user messages among the events from `start` up to `i`.
pub open spec fn user_groups(events: Seq<SessionEventView>, start: int, i: int) -> Seq<ProjectionGroupView>
    decreases i - start,
{
    if i <= start {
        Seq::empty()
    } else {
        let before = user_groups(events, start, i - 1);
        match events[i - 1].kind {
            SessionEventKindView::UserMessage { text } => before.push(
                single(
                    events[i - 1],
                    ProjectionGroupKind::User,
                    ModelMessageView::User { content: text },
                ),
            ),
            _ => before,
        }
    }
}

/// The tool exchanges among the events from `start` up to `i`, in the order of the
/// calls, whatever the order of the results.
pub open spec fn tool_groups(events: Seq<SessionEventView>, start: int, i: int, end: int) -> Seq<
    ProjectionGroupView,
>
    decreases i - start,
{
    if i <= start {
        Seq::empty()
    } else {
        let before = tool_groups(events, start, i - 1, end);
        match mark_id(events[i - 1], Mark::ToolCall) {
            Some(id) => before.push(
                exchange(
                    events,
                    i - 1,
                    first_mark(events, start, end, Mark::ToolResult, id),
                ),
            ),
            None => before,
        }
    }
}

/// The complete replies among the events from `start` up to `i`.
pub open spec fn reply_groups(events: Seq<SessionEventView>, start: int, i: int) -> Seq<ProjectionGroupView>
    decreases i - start,
{
    if i <= start {
        Seq::empty()
    } else {
        let before = reply_groups(events, start, i - 1);
        match events[i - 1].kind {
            SessionEventKindView::AssistantMessage { text } => before.push(
                single(
                    events[i - 1],
                    ProjectionGroupKind::Assistant,
                    ModelMessageView::Assistant { content: Some(text), tool_calls: Seq::empty() },
                ),
            ),
            _ => before,
        }
    }
}

/// The groups of a turn: what the user said, what tools did, what was replied. Only a
/// turn that ended well has a reply.
pub open spec fn turn_groups(events: Seq<SessionEventView>, start: int, end: int) -> Seq<ProjectionGroupView> {
    user_groups(events, start, end) + tool_groups(events, start, end, end) + if is_success(
        state_of(events, start, end),
    ) {
        reply_groups(events, start, end)
    } else {
        Seq::empty()
    }
}

/// How many messages the groups hold.
pub open spec fn message_total(groups: Seq<ProjectionGroupView>) -> nat
    decreases groups.len(),
{
    if groups.len() == 0 {
        0
    } else {
        message_total(groups.drop_last()) + groups.last().messages.len()
    }
}

/// Why an event of a turn is left out, if it is.
pub open spec fn omission(kind: SessionEventKindView, successful: bool) -> Option<OmissionReason> {
    match kind {
        SessionEventKindView::UserMessage { .. } => None,
        SessionEventKindView::ToolCall { .. } => None,
        SessionEventKindView::ToolResult { .. } => None,
        SessionEventKindView::AssistantMessage { .. } => if successful {
            None
        } else {
            Some(OmissionReason::UnsuccessfulReply)
        },
        SessionEventKindView::AssistantDelta { .. } => Some(OmissionReason::StreamDelta),
        SessionEventKindView::ModelRequest { .. } => Some(OmissionReason::ModelAudit),
        SessionEventKindView::ModelResult { .. } => Some(OmissionReason::ModelAudit),
        _ => Some(OmissionReason::Audit),
    }
}

/// The events left out from `start` up to `i`, in order.
pub open spec fn omissions(events: Seq<SessionEventView>, start: int, i: int, successful: bool) -> Seq<
    OmittedEventView,
>
    decreases i - start,
{
    if i <= start {
        Seq::empty()
    } else {
        let before = omissions(events, start, i - 1, successful);
        match omission(events[i - 1].kind, successful) {
            Some(reason) => before.push(
                OmittedEventView {
                    event_id: events[i - 1].event_id,
                    seq: events[i - 1].seq,
                    reason,
                },
            ),
            None => before,
        }
    }
}

/// The turn ended well and has no complete reply.
pub open spec fn lacks_reply(events: Seq<SessionEventView>, start: int, end: int) -> bool {
    is_success(state_of(events, start, end)) && !any_reply(events, start, end)
}

pub open spec fn turn_of(events: Seq<SessionEventView>, start: int, end: int) -> ProjectedTurnView {
    ProjectedTurnView {
        turn_id: events[start].turn_id,
        state: state_of(events, start, end),
        terminal_event: if events[end - 1].is_terminal() {
            Some(events[end - 1].event_id)
        } else {
            None
        },
        missing_complete_reply: lacks_reply(events, start, end),
    }
}

/// The identities of the replies among the events from `start` up to `i`.
pub open spec fn reply_ids(events: Seq<SessionEventView>, start: int, i: int) -> Seq<Seq<char>>
    decreases i - start,
{
    if i <= start {
        Seq::empty()
    } else {
        let before = reply_ids(events, start, i - 1);
        if events[i - 1].kind is AssistantMessage && events[i - 1].message_id is Some {
            before.push(events[i - 1].message_id->0)
        } else {
            before
        }
    }
}

/// Why a turn cannot be projected, if so.
pub open spec fn turn_fault(
    events: Seq<SessionEventView>,
    start: int,
    end: int,
    taken: Seq<Seq<char>>,
    count: nat,
    config: ProjectionConfig,
) -> Option<ProjectionErrorView> {
    match events_fault(events, start, start, end, taken) {
        Some(fault) => Some(fault),
        None => if is_unconfirmed(events, start, end) {
            Some(ProjectionErrorView::Unconfirmed(events[start].turn_id))
        } else if lacks_reply(events, start, end) && config.legacy_replies
            == LegacyReplyPolicy::Reject {
            Some(ProjectionErrorView::MissingReply(events[start].turn_id))
        } else if count + message_total(turn_groups(events, start, end)) > config.max_messages {
            Some(ProjectionErrorView::Limit("messages"@))
        } else {
            None
        },
    }
}

/// What was projected so far.
pub struct Progress {
    pub groups: Seq<ProjectionGroupView>,
    pub turns: Seq<ProjectedTurnView>,
    pub omitted: Seq<OmittedEventView>,
    pub taken: Seq<Seq<char>>,
    pub count: nat,
}

impl Progress {
    pub open spec fn none() -> Progress {
        Progress {
            groups: Seq::empty(),
            turns: Seq::empty(),
            omitted: Seq::empty(),
            taken: Seq::empty(),
            count: 0,
        }
    }

    /// One more turn.
    pub open spec fn with_turn(self, events: Seq<SessionEventView>, start: int, end: int) -> Progress {
        Progress {
            groups: self.groups + turn_groups(events, start, end),
            turns: self.turns.push(turn_of(events, start, end)),
            omitted: self.omitted + omissions(
                events,
                start,
                end,
                is_success(state_of(events, start, end)),
            ),
            taken: self.taken + reply_ids(events, start, end),
            count: self.count + message_total(turn_groups(events, start, end)),
        }
    }

    /// A turn with this identity was projected.
    pub open spec fn has_turn(self, turn: Seq<char>) -> bool {
        exists|k: int| 0 <= k < self.turns.len() && (#[trigger] self.turns[k]).turn_id == turn
    }
}

/// Where the turn that begins at `start` ends.
pub open spec fn turn_end(events: Seq<SessionEventView>, start: int, i: int) -> int
    decreases events.len() - i,
{
    if i >= events.len() || events[i].turn_id != events[start].turn_id {
        i
    } else {
        turn_end(events, start, i + 1)
    }
}

pub proof fn turn_end_is_further(events: Seq<SessionEventView>, start: int, i: int)
    requires
        0 <= start <= i <= events.len(),
    ensures
        i <= turn_end(events, start, i) <= events.len(),
        forall|k: int|
            i <= k < turn_end(events, start, i) ==> (#[trigger] events[k]).turn_id
                == events[start].turn_id,
    decreases events.len() - i,
{
    if i < events.len() && events[i].turn_id == events[start].turn_id {
        turn_end_is_further(events, start, i + 1);
    }
}

/// The turns from `start` on, added to what was projected before.
pub open spec fn project_from(
    events: Seq<SessionEventView>,
    start: int,
    done: Progress,
    config: ProjectionConfig,
) -> Result<Progress, ProjectionErrorView>
    decreases events.len() - start,
    when 0 <= start
{
    if start >= events.len() {
        Ok(done)
    } else if is_blank(events[start].turn_id) || done.has_turn(events[start].turn_id) {
        Err(
            ProjectionErrorView::Malformed {
                event_id: events[start].event_id,
                reason: "empty or noncontiguous Turn identity"@,
            },
        )
    } else {
        proof {
            turn_end_is_further(events, start, start + 1);
        }
        let end = turn_end(events, start, start + 1);
        match turn_fault(events, start, end, done.taken, done.count, config) {
            Some(fault) => Err(fault),
            None => if end < events.len() && state_of(events, start, end)
                == ProjectedTurnState::Open {
                Err(ProjectionErrorView::Unconfirmed(events[start].turn_id))
            } else {
                project_from(events, end, done.with_turn(events, start, end), config)
            },
        }
    }
}

/// What projecting a log gives. `input_bytes` is the serialized size of the events.
pub open spec fn projection_of(
    session: Seq<char>,
    events: Seq<SessionEventView>,
    input_bytes: nat,
    config: ProjectionConfig,
) -> Result<ConversationProjectionView, ProjectionErrorView> {
    if is_blank(session) || config.max_events == 0 || config.max_input_bytes == 0
        || config.max_messages == 0 {
        Err(ProjectionErrorView::InvalidConfig)
    } else if events.len() > config.max_events {
        Err(ProjectionErrorView::Limit("events"@))
    } else if input_bytes > config.max_input_bytes {
        Err(ProjectionErrorView::Limit("input bytes"@))
    } else {
        match log_fault(events, session) {
            Some(fault) => Err(ProjectionErrorView::Physical(fault)),
            None => match project_from(events, 0, Progress::none(), config) {
                Err(fault) => Err(fault),
                Ok(done) => Ok(
                    ConversationProjectionView {
                        algorithm_version: 1,
                        session_id: session,
                        source_tail: if events.len() == 0 {
                            None
                        } else {
                            Some(events.last().event_id)
                        },
                        source_event_count: events.len() as usize,
                        config,
                        groups: done.groups,
                        turns: done.turns,
                        omitted: done.omitted,
                    },
                ),
            },
        }
    }
}

/// The identity of the work that an event opens or closes.
fn mark_of(event: &SessionEvent, mark: Mark) -> (id: Option<&str>)
    ensures
        match id {
            Some(text) => mark_id(event@, mark) == Some(text@),
            None => mark_id(event@, mark) is None,
        },
{
    match (mark, &event.kind) {
        (Mark::ToolCall, SessionEventKind::ToolCall { call }) => Some(call.id.as_str()),
        (Mark::ToolResult, SessionEventKind::ToolResult { result }) => Some(
            result.call_id.as_str(),
        ),
        (Mark::ModelRequest, SessionEventKind::ModelRequest { request }) => Some(
            request.call_id.as_str(),
        ),
        (Mark::ModelResult, SessionEventKind::ModelResult { result }) => Some(
            result.call_id.as_str(),
        ),
        _ => None,
    }
}

/// The first event from `a` up to `b` that carries the mark, or `b`.
fn find_mark(events: &Vec<SessionEvent>, a: usize, b: usize, mark: Mark, id: &str) -> (at: usize)
    requires
        a <= b <= events@.len(),
    ensures
        at == first_mark(events.deep_view(), a as int, b as int, mark, id@),
        a <= at <= b,
        (at < b) == any_mark(events.deep_view(), a as int, b as int, mark, id@),
        at < b ==> mark_id(events.deep_view()[at as int], mark) == Some(id@),
{
    let ghost views = events.deep_view();
    let mut i: usize = a;
    while i < b
        invariant
            a <= i <= b <= events@.len(),
            views == events.deep_view(),
            first_mark(views, a as int, b as int, mark, id@) == first_mark(
                views,
                i as int,
                b as int,
                mark,
                id@,
            ),
            forall|j: int| a <= j < i ==> mark_id(#[trigger] views[j], mark) != Some(id@),
        decreases b - i,
    {
        assert(views[i as int] == events@[i as int]@);
        match mark_of(&events[i], mark) {
            Some(other) => {
                if crate::text::same_text(other, id) {
                    return i;
                }
            },
            None => {},
        }
        i = i + 1;
    }
    i
}

/// The fault of one event, if any. `user`, `reply` and `terminal` say what came before
/// it in its turn.
fn check_event(
    events: &Vec<SessionEvent>,
    start: usize,
    i: usize,
    user: bool,
    reply: bool,
    terminal: bool,
    taken: &Vec<MessageId>,
) -> (fault: Option<&'static str>)
    requires
        start <= i < events@.len(),
        user == any_user(events.deep_view(), start as int, i as int),
        reply == any_reply(events.deep_view(), start as int, i as int),
        terminal == any_terminal(events.deep_view(), start as int, i as int),
    ensures
        match fault {
            Some(reason) => event_fault(
                events.deep_view(),
                start as int,
                i as int,
                taken.deep_view(),
            ) == Some(reason@),
            None => event_fault(
                events.deep_view(),
                start as int,
                i as int,
                taken.deep_view(),
            ) is None,
        },
{
    let ghost views = events.deep_view();
    assert(views[i as int] == events@[i as int]@);
    let event = &events[i];
    if blank(event.event_id.as_str()) {
        return Some("empty event ID");
    }
    if terminal {
        return Some("event follows terminal");
    }
    if reply {
        match &event.kind {
            SessionEventKind::UserMessage { .. }
            | SessionEventKind::AssistantDelta { .. }
            | SessionEventKind::ModelRequest { .. }
            | SessionEventKind::ModelResult { .. }
            | SessionEventKind::ToolCall { .. }
            | SessionEventKind::ToolResult { .. } => {
                return Some("conversation work follows complete reply");
            },
            _ => {},
        }
    }
    match &event.kind {
        SessionEventKind::UserMessage { .. } => {
            if user {
                return Some("multiple user messages in a Turn");
            }
        },
        SessionEventKind::AssistantMessage { .. } => {
            match &event.message_id {
                None => {
                    return Some("complete reply lacks MessageId");
                },
                Some(id) => {
                    if blank(id.as_str()) || holds(taken, id) || reply {
                        return Some("duplicate complete reply or MessageId");
                    }
                },
            }
            if !user {
                return Some("conversation work precedes user message");
            }
        },
        SessionEventKind::AssistantDelta { .. } => {
            if !user {
                return Some("conversation work precedes user message");
            }
        },
        SessionEventKind::ToolCall { call } => {
            if blank(call.id.as_str()) || blank(call.name.as_str()) || find_mark(
                events,
                start,
                i,
                Mark::ToolCall,
                call.id.as_str(),
            ) < i {
                return Some("empty or duplicate tool call identity");
            }
            if !user {
                return Some("conversation work precedes user message");
            }
        },
        SessionEventKind::ToolResult { result } => {
            let id = result.call_id.as_str();
            if find_mark(events, start, i, Mark::ToolCall, id) >= i {
                return Some("orphan or cross-Turn tool result");
            }
            if find_mark(events, start, i, Mark::ToolResult, id) < i {
                return Some("duplicate tool result");
            }
        },
        SessionEventKind::ModelRequest { request } => {
            let id = request.call_id.as_str();
            if blank(id) || find_mark(events, start, i, Mark::ModelRequest, id) < i {
                return Some("empty or duplicate model call");
            }
            if !user {
                return Some("conversation work precedes user message");
            }
        },
        SessionEventKind::ModelResult { result } => {
            let id = result.call_id.as_str();
            if find_mark(events, start, i, Mark::ModelRequest, id) >= i {
                return Some("orphan or cross-Turn model result");
            }
            if find_mark(events, start, i, Mark::ModelResult, id) < i {
                return Some("duplicate model result");
            }
        },
        _ => {},
    }
    None
}

fn ends_turn(event: &SessionEvent) -> (answer: bool)
    ensures
        answer == event@.is_terminal(),
{
    match &event.kind {
        SessionEventKind::Done { .. } | SessionEventKind::Error { .. } => true,
        _ => false,
    }
}

/// Checks every event of a turn. The answer says whether it has a complete reply.
fn check_events(events: &Vec<SessionEvent>, start: usize, end: usize, taken: &Vec<MessageId>) -> (result: Result<
    bool,
    ProjectionError,
>)
    requires
        start <= end <= events@.len(),
    ensures
        match result {
            Ok(reply) => {
                &&& events_fault(
                    events.deep_view(),
                    start as int,
                    start as int,
                    end as int,
                    taken.deep_view(),
                ) is None
                &&& reply == any_reply(events.deep_view(), start as int, end as int)
            },
            Err(e) => events_fault(
                events.deep_view(),
                start as int,
                start as int,
                end as int,
                taken.deep_view(),
            ) == Some(e@),
        },
{
    let ghost views = events.deep_view();
    let ghost ids = taken.deep_view();
    let mut user: bool = false;
    let mut reply: bool = false;
    let mut terminal: bool = false;
    let mut i: usize = start;
    while i < end
        invariant
            start <= i <= end <= events@.len(),
            views == events.deep_view(),
            ids == taken.deep_view(),
            user == any_user(views, start as int, i as int),
            reply == any_reply(views, start as int, i as int),
            terminal == any_terminal(views, start as int, i as int),
            events_fault(views, start as int, start as int, end as int, ids) == events_fault(
                views,
                start as int,
                i as int,
                end as int,
                ids,
            ),
        decreases end - i,
    {
        assert(views[i as int] == events@[i as int]@);
        match check_event(events, start, i, user, reply, terminal, taken) {
            Some(reason) => {
                return Err(
                    ProjectionError::Malformed { event_id: events[i].event_id.duplicate(), reason },
                );
            },
            None => {},
        }
        let is_user: bool = match &events[i].kind {
            SessionEventKind::UserMessage { .. } => true,
            _ => false,
        };
        let is_reply: bool = match &events[i].kind {
            SessionEventKind::AssistantMessage { .. } => true,
            _ => false,
        };
        let is_terminal: bool = ends_turn(&events[i]);
        proof {
            extend_any(views, start as int, i as int);
        }
        user = user || is_user;
        reply = reply || is_reply;
        terminal = terminal || is_terminal;
        i = i + 1;
    }
    Ok(reply)
}

proof fn extend_any(events: Seq<SessionEventView>, a: int, i: int)
    requires
        a <= i,
    ensures
        any_user(events, a, i + 1) == (any_user(events, a, i) || events[i].kind is UserMessage),
        any_reply(events, a, i + 1) == (any_reply(events, a, i) || events[i].kind
            is AssistantMessage),
        any_terminal(events, a, i + 1) == (any_terminal(events, a, i) || events[i].is_terminal()),
{
}

/// Whether work is opened and not closed.
fn has_unanswered(events: &Vec<SessionEvent>, start: usize, end: usize, open: Mark, close: Mark) -> (answer: bool)
    requires
        start <= end <= events@.len(),
    ensures
        answer == unanswered(events.deep_view(), start as int, end as int, open, close),
{
    let ghost views = events.deep_view();
    let mut i: usize = start;
    while i < end
        invariant
            start <= i <= end <= events@.len(),
            views == events.deep_view(),
            forall|k: int|
                start <= k < i && mark_id(#[trigger] views[k], open) is Some ==> any_mark(
                    views,
                    start as int,
                    end as int,
                    close,
                    mark_id(views[k], open)->0,
                ),
        decreases end - i,
    {
        assert(views[i as int] == events@[i as int]@);
        match mark_of(&events[i], open) {
            Some(id) => {
                if find_mark(events, start, end, close, id) >= end {
                    return true;
                }
            },
            None => {},
        }
        i = i + 1;
    }
    false
}

/// Whether there is an event that is no user message.
fn has_other_work(events: &Vec<SessionEvent>, start: usize, end: usize) -> (answer: bool)
    requires
        start <= end <= events@.len(),
    ensures
        answer == exists|i: int|
            start <= i < end && !((#[trigger] events.deep_view()[i]).kind is UserMessage),
{
    let ghost views = events.deep_view();
    let mut i: usize = start;
    while i < end
        invariant
            start <= i <= end <= events@.len(),
            views == events.deep_view(),
            forall|k: int| start <= k < i ==> (#[trigger] views[k]).kind is UserMessage,
        decreases end - i,
    {
        assert(views[i as int] == events@[i as int]@);
        match &events[i].kind {
            SessionEventKind::UserMessage { .. } => {},
            _ => {
                return true;
            },
        }
        i = i + 1;
    }
    false
}

fn turn_state(event: &SessionEvent) -> (state: ProjectedTurnState)
    ensures
        state == state_of(seq![event@], 0, 1),
{
    match &event.kind {
        SessionEventKind::Done { status, .. } => match *status {
            DoneStatus::Completed => ProjectedTurnState::Completed,
            DoneStatus::WaitingForInput => ProjectedTurnState::WaitingForInput,
            DoneStatus::Cancelled => ProjectedTurnState::Cancelled,
        },
        SessionEventKind::Error { .. } => ProjectedTurnState::Failed,
        _ => ProjectedTurnState::Open,
    }
}

fn successful(state: ProjectedTurnState) -> (answer: bool)
    ensures
        answer == is_success(state),
{
    match state {
        ProjectedTurnState::Completed | ProjectedTurnState::WaitingForInput => true,
        _ => false,
    }
}

/// A group of one message.
fn lone(event: &SessionEvent, kind: ProjectionGroupKind, message: ModelMessage) -> (group: ProjectionGroup)
    ensures
        group@ == single(event@, kind, message@),
{
    let mut source_events = Vec::new();
    source_events.push(event.event_id.duplicate());
    let mut messages = Vec::new();
    messages.push(message);
    let group = ProjectionGroup { turn_id: event.turn_id.duplicate(), kind, source_events, messages };
    assert(group@.source_events =~= seq![event@.event_id]);
    assert(group@.messages =~= seq![message@]);
    group
}

/// A tool call and its result as a group.
fn exchange_group(events: &Vec<SessionEvent>, i: usize, answer: usize) -> (group: ProjectionGroup)
    requires
        i < events@.len(),
        answer < events@.len(),
        events.deep_view()[i as int].kind is ToolCall,
        events.deep_view()[answer as int].kind is ToolResult,
    ensures
        group@ == exchange(events.deep_view(), i as int, answer as int),
{
    let ghost views = events.deep_view();
    assert(views[i as int] == events@[i as int]@);
    assert(views[answer as int] == events@[answer as int]@);
    let event = &events[i];
    let mut name = "jw_tool_".to_owned();
    name.push_str(decimal_text(event.seq).as_str());
    let mut source_events = Vec::new();
    source_events.push(event.event_id.duplicate());
    source_events.push(events[answer].event_id.duplicate());
    let mut messages = Vec::new();
    match (&event.kind, &events[answer].kind) {
        (SessionEventKind::ToolCall { call }, SessionEventKind::ToolResult { result }) => {
            let proposed = ModelToolCall {
                id: ProviderToolCallId::new(name.clone()),
                name: call.name.clone(),
                arguments: call.arguments.duplicate(),
            };
            let mut tool_calls = Vec::new();
            tool_calls.push(proposed);
            assert(tool_calls.deep_view() =~= seq![proposed@]);
            messages.push(ModelMessage::Assistant { content: None, tool_calls });
            messages.push(
                ModelMessage::Tool {
                    call_id: ProviderToolCallId::new(name),
                    content: outcome_json(&result.outcome),
                },
            );
        },
        _ => {},
    }
    let group = ProjectionGroup {
        turn_id: event.turn_id.duplicate(),
        kind: ProjectionGroupKind::ToolExchange,
        source_events,
        messages,
    };
    proof {
        let wanted = exchange(views, i as int, answer as int);
        assert(group@.source_events =~= wanted.source_events);
        assert(group@.messages =~= wanted.messages);
    }
    group
}

proof fn message_total_of_push(groups: Seq<ProjectionGroupView>, group: ProjectionGroupView)
    ensures
        message_total(groups.push(group)) == message_total(groups) + group.messages.len(),
{
    assert(groups.push(group).drop_last() =~= groups);
}

/// The groups of a checked turn, and how many messages they hold.
fn build_groups(events: &Vec<SessionEvent>, start: usize, end: usize, replied: bool) -> (built: (
    Vec<ProjectionGroup>,
    u128,
))
    requires
        start < end <= events@.len(),
        !unanswered(events.deep_view(), start as int, end as int, Mark::ToolCall, Mark::ToolResult),
        replied == is_success(state_of(events.deep_view(), start as int, end as int)),
    ensures
        built.0.deep_view() == turn_groups(events.deep_view(), start as int, end as int),
        built.1 == message_total(turn_groups(events.deep_view(), start as int, end as int)),
        built.1 <= 4 * (end - start),
{
    let ghost views = events.deep_view();
    let mut groups: Vec<ProjectionGroup> = Vec::new();
    let mut total: u128 = 0;
    let mut i: usize = start;
    assert(groups.deep_view() =~= Seq::empty());
    while i < end
        invariant
            start <= i <= end <= events@.len(),
            views == events.deep_view(),
            groups.deep_view() == user_groups(views, start as int, i as int),
            total == message_total(groups.deep_view()),
            total <= i - start,
        decreases end - i,
    {
        assert(views[i as int] == events@[i as int]@);
        match &events[i].kind {
            SessionEventKind::UserMessage { text } => {
                let group = lone(
                    &events[i],
                    ProjectionGroupKind::User,
                    ModelMessage::User { content: text.clone() },
                );
                let ghost before = groups.deep_view();
                groups.push(group);
                proof {
                    assert(groups.deep_view() =~= before.push(group@));
                    message_total_of_push(before, group@);
                }
                total = total + 1;
            },
            _ => {},
        }
        i = i + 1;
    }
    let ghost users = user_groups(views, start as int, end as int);
    let mut i: usize = start;
    assert(users + tool_groups(views, start as int, start as int, end as int) =~= users);
    while i < end
        invariant
            start <= i <= end <= events@.len(),
            views == events.deep_view(),
            !unanswered(views, start as int, end as int, Mark::ToolCall, Mark::ToolResult),
            groups.deep_view() == users + tool_groups(views, start as int, i as int, end as int),
            total == message_total(groups.deep_view()),
            total <= (end - start) + 2 * (i - start),
        decreases end - i,
    {
        assert(views[i as int] == events@[i as int]@);
        match mark_of(&events[i], Mark::ToolCall) {
            Some(id) => {
                let answer = find_mark(events, start, end, Mark::ToolResult, id);
                assert(any_mark(views, start as int, end as int, Mark::ToolResult, id@));
                let group = exchange_group(events, i, answer);
                let ghost before = groups.deep_view();
                groups.push(group);
                proof {
                    assert(groups.deep_view() =~= before.push(group@));
                    message_total_of_push(before, group@);
                    assert(groups.deep_view() =~= users + tool_groups(
                        views,
                        start as int,
                        i + 1,
                        end as int,
                    ));
                }
                total = total + 2;
            },
            None => {},
        }
        i = i + 1;
    }
    let ghost worked = users + tool_groups(views, start as int, end as int, end as int);
    if replied {
        let mut i: usize = start;
        assert(worked + reply_groups(views, start as int, start as int) =~= worked);
        while i < end
            invariant
                start <= i <= end <= events@.len(),
                views == events.deep_view(),
                groups.deep_view() == worked + reply_groups(views, start as int, i as int),
                total == message_total(groups.deep_view()),
                total <= 3 * (end - start) + (i - start),
            decreases end - i,
        {
            assert(views[i as int] == events@[i as int]@);
            match &events[i].kind {
                SessionEventKind::AssistantMessage { text } => {
                    let tool_calls: Vec<ModelToolCall> = Vec::new();
                    assert(tool_calls.deep_view() =~= Seq::empty());
                    let group = lone(
                        &events[i],
                        ProjectionGroupKind::Assistant,
                        ModelMessage::Assistant { content: Some(text.clone()), tool_calls },
                    );
                    let ghost before = groups.deep_view();
                    groups.push(group);
                    proof {
                        assert(groups.deep_view() =~= before.push(group@));
                        message_total_of_push(before, group@);
                        assert(groups.deep_view() =~= worked + reply_groups(
                            views,
                            start as int,
                            i + 1,
                        ));
                    }
                    total = total + 1;
                },
                _ => {},
            }
            i = i + 1;
        }
    } else {
        assert(worked + Seq::<ProjectionGroupView>::empty() =~= worked);
    }
    (groups, total)
}

/// The events of a turn that are left out, in order.
fn list_omissions(events: &Vec<SessionEvent>, start: usize, end: usize, replied: bool) -> (omitted: Vec<
    OmittedEvent,
>)
    requires
        start <= end <= events@.len(),
    ensures
        omitted.deep_view() == omissions(events.deep_view(), start as int, end as int, replied),
{
    let ghost views = events.deep_view();
    let mut omitted: Vec<OmittedEvent> = Vec::new();
    assert(omitted.deep_view() =~= Seq::empty());
    let mut i: usize = start;
    while i < end
        invariant
            start <= i <= end <= events@.len(),
            views == events.deep_view(),
            omitted.deep_view() == omissions(views, start as int, i as int, replied),
        decreases end - i,
    {
        assert(views[i as int] == events@[i as int]@);
        let reason = match &events[i].kind {
            SessionEventKind::UserMessage { .. }
            | SessionEventKind::ToolCall { .. }
            | SessionEventKind::ToolResult { .. } => None,
            SessionEventKind::AssistantMessage { .. } => if replied {
                None
            } else {
                Some(OmissionReason::UnsuccessfulReply)
            },
            SessionEventKind::AssistantDelta { .. } => Some(OmissionReason::StreamDelta),
            SessionEventKind::ModelRequest { .. } | SessionEventKind::ModelResult { .. } => Some(
                OmissionReason::ModelAudit,
            ),
            _ => Some(OmissionReason::Audit),
        };
        match reason {
            Some(reason) => {
                let left = OmittedEvent {
                    event_id: events[i].event_id.duplicate(),
                    seq: events[i].seq,
                    reason,
                };
                let ghost before = omitted.deep_view();
                omitted.push(left);
                assert(omitted.deep_view() =~= before.push(left@));
            },
            None => {},
        }
        i = i + 1;
    }
    omitted
}

/// Adds the identities of a turn's replies to those taken.
fn take_reply_ids(events: &Vec<SessionEvent>, start: usize, end: usize, taken: &mut Vec<MessageId>)
    requires
        start <= end <= events@.len(),
    ensures
        final(taken).deep_view() == old(taken).deep_view() + reply_ids(
            events.deep_view(),
            start as int,
            end as int,
        ),
{
    let ghost views = events.deep_view();
    let ghost first = taken.deep_view();
    let mut i: usize = start;
    assert(first + reply_ids(views, start as int, start as int) =~= first);
    while i < end
        invariant
            start <= i <= end <= events@.len(),
            views == events.deep_view(),
            taken.deep_view() == first + reply_ids(views, start as int, i as int),
        decreases end - i,
    {
        assert(views[i as int] == events@[i as int]@);
        match (&events[i].kind, &events[i].message_id) {
            (SessionEventKind::AssistantMessage { .. }, Some(id)) => {
                let ghost before = taken.deep_view();
                let copy = id.duplicate();
                taken.push(copy);
                assert(taken.deep_view() =~= before.push(id@));
                assert(taken.deep_view() =~= first + reply_ids(views, start as int, i + 1));
            },
            _ => {},
        }
        i = i + 1;
    }
}

impl ConversationProjection {
    /// The messages of the conversation, in order.
    pub open spec fn all_messages(groups: Seq<ProjectionGroupView>) -> Seq<ModelMessageView>
        decreases groups.len(),
    {
        if groups.len() == 0 {
            Seq::empty()
        } else {
            Self::all_messages(groups.drop_last()) + groups.last().messages
        }
    }

    /// The messages of the conversation, in order.
    pub fn messages(&self) -> (messages: Vec<ModelMessage>)
        ensures
            messages.deep_view() == Self::all_messages(self@.groups),
    {
        let ghost views = self@.groups;
        let mut messages: Vec<ModelMessage> = Vec::new();
        assert(messages.deep_view() =~= Seq::empty());
        assert(views.take(0) =~= Seq::empty());
        let mut i: usize = 0;
        while i < self.groups.len()
            invariant
                i <= self.groups@.len(),
                views == self.groups.deep_view(),
                messages.deep_view() == Self::all_messages(views.take(i as int)),
            decreases self.groups@.len() - i,
        {
            let mut more = self.groups[i].messages.duplicate();
            proof {
                assert(views[i as int] == self.groups@[i as int]@);
                assert(views.take(i + 1).drop_last() =~= views.take(i as int));
                assert(views.take(i + 1).last() == views[i as int]);
            }
            let ghost before = messages.deep_view();
            let ghost added = more.deep_view();
            messages.append(&mut more);
            assert(messages.deep_view() =~= before + added);
            i = i + 1;
        }
        assert(views.take(views.len() as int) =~= views);
        messages
    }

    spec fn progress(&self, taken: &Vec<MessageId>, count: usize) -> Progress {
        Progress {
            groups: self@.groups,
            turns: self@.turns,
            omitted: self@.omitted,
            taken: taken.deep_view(),
            count: count as nat,
        }
    }

    /// Whether a turn with this identity was projected.
    fn has_turn(&self, turn: &crate::id::TurnId) -> (answer: bool)
        ensures
            answer == exists|k: int|
                0 <= k < self@.turns.len() && (#[trigger] self@.turns[k]).turn_id == turn@,
    {
        let ghost views = self@.turns;
        let mut k: usize = 0;
        while k < self.turns.len()
            invariant
                k <= self.turns@.len(),
                views == self.turns.deep_view(),
                forall|m: int| 0 <= m < k ==> (#[trigger] views[m]).turn_id != turn@,
            decreases self.turns@.len() - k,
        {
            assert(views[k as int] == self.turns@[k as int]@);
            if self.turns[k].turn_id.is_same(turn) {
                return true;
            }
            k = k + 1;
        }
        false
    }

    /// Adds one turn: the events from `start` up to `end`.
    fn project_turn(
        &mut self,
        events: &Vec<SessionEvent>,
        start: usize,
        end: usize,
        taken: &mut Vec<MessageId>,
        count: &mut usize,
    ) -> (result: Result<ProjectedTurnState, ProjectionError>)
        requires
            start < end <= events@.len(),
            *old(count) <= old(self).config.max_messages,
        ensures
            match turn_fault(
                events.deep_view(),
                start as int,
                end as int,
                old(taken).deep_view(),
                *old(count) as nat,
                old(self).config,
            ) {
                Some(fault) => result is Err && result->Err_0@ == fault,
                None => {
                    &&& result == Ok::<ProjectedTurnState, ProjectionError>(
                        state_of(events.deep_view(), start as int, end as int),
                    )
                    &&& final(self)@ == (ConversationProjectionView {
                        groups: final(self)@.groups,
                        turns: final(self)@.turns,
                        omitted: final(self)@.omitted,
                        ..old(self)@
                    })
                    &&& final(self).progress(final(taken), *final(count)) == old(self).progress(
                        old(taken),
                        *old(count),
                    ).with_turn(events.deep_view(), start as int, end as int)
                    &&& *final(count) <= old(self).config.max_messages
                },
            },
    {
        let ghost views = events.deep_view();
        let ghost before = self.progress(taken, *count);
        let ghost frame = self@;
        let replied: bool = match check_events(events, start, end, taken) {
            Ok(reply) => reply,
            Err(error) => {
                return Err(error);
            },
        };
        let state = turn_state(&events[end - 1]);
        assert(views[end - 1] == events@[end - 1]@);
        if has_unanswered(events, start, end, Mark::ToolCall, Mark::ToolResult) || has_unanswered(
            events,
            start,
            end,
            Mark::ModelRequest,
            Mark::ModelResult,
        ) || (state == ProjectedTurnState::Open && has_other_work(events, start, end)) {
            assert(views[start as int] == events@[start as int]@);
            return Err(ProjectionError::Unconfirmed(events[start].turn_id.duplicate()));
        }
        assert(views[start as int] == events@[start as int]@);
        let good: bool = successful(state);
        let missing: bool = good && !replied;
        if missing && self.config.legacy_replies == LegacyReplyPolicy::Reject {
            return Err(ProjectionError::MissingReply(events[start].turn_id.duplicate()));
        }
        let (mut groups, total) = build_groups(events, start, end, good);
        if *count as u128 + total > self.config.max_messages as u128 {
            return Err(ProjectionError::Limit("messages"));
        }
        let mut omitted = list_omissions(events, start, end, good);
        let turn = ProjectedTurn {
            turn_id: events[start].turn_id.duplicate(),
            state,
            terminal_event: if ends_turn(&events[end - 1]) {
                Some(events[end - 1].event_id.duplicate())
            } else {
                None
            },
            missing_complete_reply: missing,
        };
        assert(turn@ == turn_of(views, start as int, end as int));
        let ghost new_groups = groups.deep_view();
        let ghost new_omitted = omitted.deep_view();
        self.groups.append(&mut groups);
        self.turns.push(turn);
        self.omitted.append(&mut omitted);
        *count = (*count as u128 + total) as usize;
        take_reply_ids(events, start, end, taken);
        proof {
            let after = before.with_turn(views, start as int, end as int);
            assert(self@.groups =~= frame.groups + new_groups);
            assert(self@.turns =~= frame.turns.push(turn@));
            assert(self@.omitted =~= frame.omitted + new_omitted);
        }
        Ok(state)
    }
}

/// Projects conversations as the log has them.
#[derive(Clone, Copy, Debug, PartialEq, Eq, Structural)]
pub struct CanonicalConversationProjector;

impl CanonicalConversationProjector {
    /// The conversation of a session. `input_bytes` is the serialized size of the events.
    pub fn project(
        &self,
        session: &SessionId,
        events: &Vec<SessionEvent>,
        input_bytes: usize,
        config: ProjectionConfig,
    ) -> (result: Result<ConversationProjection, ProjectionError>)
        ensures
            match result {
                Ok(projection) => projection_of(
                    session@,
                    events.deep_view(),
                    input_bytes as nat,
                    config,
                ) == Ok::<ConversationProjectionView, ProjectionErrorView>(projection@),
                Err(e) => projection_of(session@, events.deep_view(), input_bytes as nat, config)
                    == Err::<ConversationProjectionView, ProjectionErrorView>(e@),
            },
    {
        let ghost views = events.deep_view();
        if blank(session.as_str()) || config.max_events == 0 || config.max_input_bytes == 0
            || config.max_messages == 0 {
            return Err(ProjectionError::InvalidConfig);
        }
        if events.len() > config.max_events {
            return Err(ProjectionError::Limit("events"));
        }
        if input_bytes > config.max_input_bytes {
            return Err(ProjectionError::Limit("input bytes"));
        }
        match validate_physical_log(session, events) {
            Err(fault) => {
                return Err(ProjectionError::Physical(fault));
            },
            Ok(_) => {},
        }
        let n: usize = events.len();
        let source_tail = if n == 0 {
            None
        } else {
            assert(views.last() == events@[n - 1]@);
            Some(events[n - 1].event_id.duplicate())
        };
        let mut projection = ConversationProjection {
            algorithm_version: 1,
            session_id: session.duplicate(),
            source_tail,
            source_event_count: n,
            config,
            groups: Vec::new(),
            turns: Vec::new(),
            omitted: Vec::new(),
        };
        let ghost frame = projection@;
        let mut taken: Vec<MessageId> = Vec::new();
        let mut count: usize = 0;
        let mut start: usize = 0;
        proof {
            let first = projection.progress(&taken, count);
            assert(first.groups =~= Seq::empty());
            assert(first.turns =~= Seq::empty());
            assert(first.omitted =~= Seq::empty());
            assert(first.taken =~= Seq::empty());
            assert(first == Progress::none());
        }
        while start < n
            invariant
                start <= n == events@.len(),
                views == events.deep_view(),
                projection.config == config,
                projection@ == (ConversationProjectionView {
                    groups: projection@.groups,
                    turns: projection@.turns,
                    omitted: projection@.omitted,
                    ..frame
                }),
                count <= config.max_messages,
                frame == (ConversationProjectionView {
                    algorithm_version: 1,
                    session_id: session@,
                    source_tail: if views.len() == 0 {
                        None
                    } else {
                        Some(views.last().event_id)
                    },
                    source_event_count: views.len() as usize,
                    config,
                    ..frame
                }),
                !(is_blank(session@) || config.max_events == 0 || config.max_input_bytes == 0
                    || config.max_messages == 0),
                views.len() <= config.max_events,
                input_bytes <= config.max_input_bytes,
                log_fault(views, session@) is None,
                project_from(views, 0, Progress::none(), config) == project_from(
                    views,
                    start as int,
                    projection.progress(&taken, count),
                    config,
                ),
            decreases n - start,
        {
            assert(views[start as int] == events@[start as int]@);
            let turn = &events[start].turn_id;
            if blank(turn.as_str()) || projection.has_turn(turn) {
                return Err(
                    ProjectionError::Malformed {
                        event_id: events[start].event_id.duplicate(),
                        reason: "empty or noncontiguous Turn identity",
                    },
                );
            }
            let mut end: usize = start + 1;
            while end < n && events[end].turn_id.is_same(turn)
                invariant
                    start < end <= n == events@.len(),
                    views == events.deep_view(),
                    turn@ == views[start as int].turn_id,
                    turn_end(views, start as int, start + 1) == turn_end(
                        views,
                        start as int,
                        end as int,
                    ),
                decreases n - end,
            {
                assert(views[end as int] == events@[end as int]@);
                end = end + 1;
            }
            assert(end < n ==> views[end as int] == events@[end as int]@);
            assert(end == turn_end(views, start as int, start + 1));
            let state = match projection.project_turn(events, start, end, &mut taken, &mut count) {
                Ok(state) => state,
                Err(error) => {
                    return Err(error);
                },
            };
            if end < n && state == ProjectedTurnState::Open {
                return Err(ProjectionError::Unconfirmed(events[start].turn_id.duplicate()));
            }
            start = end;
        }
        Ok(projection)
    }
}

pub(crate) proof fn no_fault_up_to(
    events: Seq<SessionEventView>,
    start: int,
    i: int,
    end: int,
    taken: Seq<Seq<char>>,
    k: int,
)
    requires
        events_fault(events, start, i, end, taken) is None,
        i <= k < end,
    ensures
        event_fault(events, start, k, taken) is None,
    decreases end - i,
{
    if i < k {
        no_fault_up_to(events, start, i + 1, end, taken, k);
    }
}

proof fn users_are_grouped(events: Seq<SessionEventView>, start: int, k: int, i: int) -> (g: int)
    requires
        start <= k < i,
        events[k].kind is UserMessage,
    ensures
        0 <= g < user_groups(events, start, i).len(),
        user_groups(events, start, i)[g].source_events == seq![events[k].event_id],
    decreases i - start,
{
    if k == i - 1 {
        user_groups(events, start, i).len() - 1
    } else {
        users_are_grouped(events, start, k, i - 1)
    }
}

proof fn replies_are_grouped(events: Seq<SessionEventView>, start: int, k: int, i: int) -> (g: int)
    requires
        start <= k < i,
        events[k].kind is AssistantMessage,
    ensures
        0 <= g < reply_groups(events, start, i).len(),
        reply_groups(events, start, i)[g].source_events == seq![events[k].event_id],
    decreases i - start,
{
    if k == i - 1 {
        reply_groups(events, start, i).len() - 1
    } else {
        replies_are_grouped(events, start, k, i - 1)
    }
}

pub(crate) proof fn calls_are_grouped(events: Seq<SessionEventView>, start: int, k: int, i: int, end: int, id: Seq<char>) -> (g:
    int)
    requires
        start <= k < i,
        mark_id(events[k], Mark::ToolCall) == Some(id),
    ensures
        0 <= g < tool_groups(events, start, i, end).len(),
        tool_groups(events, start, i, end)[g] == exchange(
            events,
            k,
            first_mark(events, start, end, Mark::ToolResult, id),
        ),
    decreases i - start,
{
    if k == i - 1 {
        tool_groups(events, start, i, end).len() - 1
    } else {
        calls_are_grouped(events, start, k, i - 1, end, id)
    }
}

proof fn omitted_are_listed(events: Seq<SessionEventView>, start: int, k: int, i: int, good: bool) -> (g: int)
    requires
        start <= k < i,
        omission(events[k].kind, good) is Some,
    ensures
        0 <= g < omissions(events, start, i, good).len(),
        omissions(events, start, i, good)[g].event_id == events[k].event_id,
    decreases i - start,
{
    if k == i - 1 {
        omissions(events, start, i, good).len() - 1
    } else {
        omitted_are_listed(events, start, k, i - 1, good)
    }
}

pub(crate) proof fn first_is_only(events: Seq<SessionEventView>, a: int, b: int, mark: Mark, id: Seq<char>, k: int)
    requires
        a <= k < b,
        mark_id(events[k], mark) == Some(id),
        !any_mark(events, a, k, mark, id),
    ensures
        first_mark(events, a, b, mark, id) == k,
    decreases b - a,
{
    if a < k {
        assert(mark_id(events[a], mark) != Some(id));
        assert(!any_mark(events, a + 1, k, mark, id));
        first_is_only(events, a + 1, b, mark, id, k);
    }
}

/// One of the groups rests on the event.
pub open spec fn is_source(groups: Seq<ProjectionGroupView>, event: Seq<char>) -> bool {
    exists|g: int| 0 <= g < groups.len() && (#[trigger] groups[g]).source_events.contains(event)
}

/// The event is listed as left out.
pub open spec fn is_omitted(omitted: Seq<OmittedEventView>, event: Seq<char>) -> bool {
    exists|g: int| 0 <= g < omitted.len() && (#[trigger] omitted[g]).event_id == event
}

/// Nothing of a projected turn is lost: each of its events is the source of a group or
/// is listed as left out.
pub proof fn every_event_is_accounted_for(
    events: Seq<SessionEventView>,
    start: int,
    end: int,
    taken: Seq<Seq<char>>,
    count: nat,
    config: ProjectionConfig,
    k: int,
)
    requires
        0 <= start <= k < end <= events.len(),
        turn_fault(events, start, end, taken, count, config) is None,
    ensures
        is_source(turn_groups(events, start, end), events[k].event_id) || is_omitted(
            omissions(events, start, end, is_success(state_of(events, start, end))),
            events[k].event_id,
        ),
{
    let good = is_success(state_of(events, start, end));
    let users = user_groups(events, start, end);
    let tools = tool_groups(events, start, end, end);
    let groups = turn_groups(events, start, end);
    no_fault_up_to(events, start, start, end, taken, k);
    if omission(events[k].kind, good) is Some {
        let g = omitted_are_listed(events, start, k, end, good);
        assert(omissions(events, start, end, good)[g].event_id == events[k].event_id);
    } else if events[k].kind is UserMessage {
        let g = users_are_grouped(events, start, k, end);
        assert(groups[g] == users[g]);
        assert(groups[g].source_events[0] == events[k].event_id);
    } else if events[k].kind is AssistantMessage {
        let g = replies_are_grouped(events, start, k, end);
        let replies = reply_groups(events, start, end);
        assert(groups[users.len() + tools.len() + g] == replies[g]);
        assert(groups[users.len() + tools.len() + g].source_events[0] == events[k].event_id);
    } else if events[k].kind is ToolCall {
        let id = mark_id(events[k], Mark::ToolCall)->0;
        let g = calls_are_grouped(events, start, k, end, end, id);
        assert(groups[users.len() + g] == tools[g]);
        assert(groups[users.len() + g].source_events[0] == events[k].event_id);
    } else {
        assert(events[k].kind is ToolResult);
        let id = mark_id(events[k], Mark::ToolResult)->0;
        let c = choose|c: int|
            start <= c < k && mark_id(#[trigger] events[c], Mark::ToolCall) == Some(id);
        let g = calls_are_grouped(events, start, c, end, end, id);
        first_is_only(events, start, end, Mark::ToolResult, id, k);
        assert(groups[users.len() + g] == tools[g]);
        assert(groups[users.len() + g].source_events[1] == events[k].event_id);
    }
}

/// The parts that the events of a turn are sorted into.
enum Part {
    User,
    Call,
    Reply,
    /// Left out of a turn that ended well or not.
    Left(bool),
}

spec fn is_part(event: SessionEventView, part: Part) -> bool {
    match part {
        Part::User => event.kind is UserMessage,
        Part::Call => event.kind is ToolCall,
        Part::Reply => event.kind is AssistantMessage,
        Part::Left(good) => omission(event.kind, good) is Some,
    }
}

/// Where the events of a part stand, from `start` up to `i`.
spec fn places(events: Seq<SessionEventView>, start: int, i: int, part: Part) -> Seq<int>
    decreases i - start,
{
    if i <= start {
        Seq::empty()
    } else if is_part(events[i - 1], part) {
        places(events, start, i - 1, part).push(i - 1)
    } else {
        places(events, start, i - 1, part)
    }
}

proof fn places_ascend(events: Seq<SessionEventView>, start: int, i: int, part: Part)
    ensures
        forall|g: int|
            #![trigger places(events, start, i, part)[g]]
            0 <= g < places(events, start, i, part).len() ==> start <= places(
                events,
                start,
                i,
                part,
            )[g] < i && is_part(events[places(events, start, i, part)[g]], part),
        forall|g: int, h: int|
            0 <= g < h < places(events, start, i, part).len() ==> #[trigger] places(
                events,
                start,
                i,
                part,
            )[g] < #[trigger] places(events, start, i, part)[h],
    decreases i - start,
{
    if i > start {
        places_ascend(events, start, i - 1, part);
        let rest = places(events, start, i - 1, part);
        let all = places(events, start, i, part);
        assert forall|g: int| #![trigger all[g]] 0 <= g < all.len() implies start <= all[g] < i
            && is_part(events[all[g]], part) by {
            if g < rest.len() {
                assert(all[g] == rest[g]);
            }
        }
        assert forall|g: int, h: int| 0 <= g < h < all.len() implies #[trigger] all[g]
            < #[trigger] all[h] by {
            assert(all[g] == rest[g]);
            if h < rest.len() {
                assert(all[h] == rest[h]);
            }
        }
    }
}

/// Groups and omissions follow the places of their events.
proof fn lists_follow_places(events: Seq<SessionEventView>, start: int, i: int, end: int, good: bool)
    ensures
        user_groups(events, start, i).len() == places(events, start, i, Part::User).len(),
        forall|g: int|
            0 <= g < user_groups(events, start, i).len() ==> (#[trigger] user_groups(
                events,
                start,
                i,
            )[g]).source_events == seq![events[places(events, start, i, Part::User)[g]].event_id],
        reply_groups(events, start, i).len() == places(events, start, i, Part::Reply).len(),
        forall|g: int|
            0 <= g < reply_groups(events, start, i).len() ==> (#[trigger] reply_groups(
                events,
                start,
                i,
            )[g]).source_events == seq![events[places(events, start, i, Part::Reply)[g]].event_id],
        tool_groups(events, start, i, end).len() == places(events, start, i, Part::Call).len(),
        forall|g: int|
            0 <= g < tool_groups(events, start, i, end).len() ==> (#[trigger] tool_groups(
                events,
                start,
                i,
                end,
            )[g]).source_events == seq![
                events[places(events, start, i, Part::Call)[g]].event_id,
                events[answer_place(
                    events,
                    start,
                    end,
                    places(events, start, i, Part::Call)[g],
                )].event_id,
            ],
        omissions(events, start, i, good).len() == places(
            events,
            start,
            i,
            Part::Left(good),
        ).len(),
        forall|g: int|
            0 <= g < omissions(events, start, i, good).len() ==> (#[trigger] omissions(
                events,
                start,
                i,
                good,
            )[g]).event_id == events[places(events, start, i, Part::Left(good))[g]].event_id,
    decreases i - start,
{
    if i > start {
        lists_follow_places(events, start, i - 1, end, good);
    }
}

/// Where the result of the call at `k` stands.
spec fn answer_place(events: Seq<SessionEventView>, start: int, end: int, k: int) -> int {
    first_mark(events, start, end, Mark::ToolResult, mark_id(events[k], Mark::ToolCall)->0)
}

pub(crate) proof fn first_mark_is_marked(events: Seq<SessionEventView>, a: int, b: int, mark: Mark, id: Seq<char>)
    requires
        any_mark(events, a, b, mark, id),
    ensures
        a <= first_mark(events, a, b, mark, id) < b,
        mark_id(events[first_mark(events, a, b, mark, id)], mark) == Some(id),
    decreases b - a,
{
    let j = choose|j: int| a <= j < b && mark_id(#[trigger] events[j], mark) == Some(id);
    if mark_id(events[a], mark) != Some(id) {
        assert(a + 1 <= j < b);
        first_mark_is_marked(events, a + 1, b, mark, id);
    }
}

/// One of the events from `a` up to `b` has this identity.
pub open spec fn is_event(events: Seq<SessionEventView>, a: int, b: int, id: Seq<char>) -> bool {
    exists|k: int| a <= k < b && (#[trigger] events[k]).event_id == id
}

/// No event is named twice: not within a group, nor by two groups, nor by two
/// omissions, nor by a group and an omission.
pub open spec fn is_named_once(groups: Seq<ProjectionGroupView>, omitted: Seq<OmittedEventView>) -> bool {
    &&& forall|g: int|
        0 <= g < groups.len() ==> (#[trigger] groups[g]).source_events.no_duplicates()
    &&& forall|g: int, h: int, m: int, n: int|
        #![trigger groups[g].source_events[m], groups[h].source_events[n]]
        0 <= g < h < groups.len() && 0 <= m < groups[g].source_events.len() && 0 <= n
            < groups[h].source_events.len() ==> groups[g].source_events[m]
            != groups[h].source_events[n]
    &&& forall|g: int, h: int|
        0 <= g < h < omitted.len() ==> (#[trigger] omitted[g]).event_id != (
        #[trigger] omitted[h]).event_id
    &&& forall|g: int, m: int, h: int|
        #![trigger groups[g].source_events[m], omitted[h]]
        0 <= g < groups.len() && 0 <= m < groups[g].source_events.len() && 0 <= h < omitted.len()
            ==> groups[g].source_events[m] != omitted[h].event_id
}

/// Nothing is named but events from `a` up to `b`.
pub open spec fn names_only(
    groups: Seq<ProjectionGroupView>,
    omitted: Seq<OmittedEventView>,
    events: Seq<SessionEventView>,
    a: int,
    b: int,
) -> bool {
    &&& forall|g: int, m: int|
        #![trigger groups[g].source_events[m]]
        0 <= g < groups.len() && 0 <= m < groups[g].source_events.len() ==> is_event(
            events,
            a,
            b,
            groups[g].source_events[m],
        )
    &&& forall|h: int|
        0 <= h < omitted.len() ==> is_event(events, a, b, (#[trigger] omitted[h]).event_id)
}

/// Every event from `a` up to `b` is named.
pub open spec fn names_all(
    groups: Seq<ProjectionGroupView>,
    omitted: Seq<OmittedEventView>,
    events: Seq<SessionEventView>,
    a: int,
    b: int,
) -> bool {
    forall|k: int|
        a <= k < b ==> is_source(groups, (#[trigger] events[k]).event_id) || is_omitted(
            omitted,
            events[k].event_id,
        )
}

/// The events all have identities of their own.
spec fn are_distinct(events: Seq<SessionEventView>) -> bool {
    forall|i: int, j: int|
        0 <= i < j < events.len() ==> (#[trigger] events[i]).event_id != (
        #[trigger] events[j]).event_id
}

/// The place of the event behind the `m`th source of the `g`th group of a turn.
spec fn source_place(events: Seq<SessionEventView>, start: int, end: int, g: int, m: int) -> int {
    let users = places(events, start, end, Part::User);
    let calls = places(events, start, end, Part::Call);
    if g < users.len() {
        users[g]
    } else if g < users.len() + calls.len() {
        if m == 0 {
            calls[g - users.len()]
        } else {
            answer_place(events, start, end, calls[g - users.len()])
        }
    } else {
        places(events, start, end, Part::Reply)[g - users.len() - calls.len()]
    }
}

/// The events behind the sources of a turn's groups: each is one of the turn's, and one
/// that the turn shows.
proof fn sources_have_places(
    events: Seq<SessionEventView>,
    start: int,
    end: int,
    taken: Seq<Seq<char>>,
    count: nat,
    config: ProjectionConfig,
    g: int,
    m: int,
)
    requires
        0 <= start < end <= events.len(),
        turn_fault(events, start, end, taken, count, config) is None,
        0 <= g < turn_groups(events, start, end).len(),
        0 <= m < turn_groups(events, start, end)[g].source_events.len(),
    ensures
        ({
            let users = places(events, start, end, Part::User).len();
            let calls = places(events, start, end, Part::Call).len();
            let k = source_place(events, start, end, g, m);
            &&& start <= k < end
            &&& turn_groups(events, start, end)[g].source_events[m] == events[k].event_id
            &&& omission(events[k].kind, is_success(state_of(events, start, end))) is None
            &&& if g < users {
                m == 0 && events[k].kind is UserMessage
            } else if g < users + calls {
                let call = places(events, start, end, Part::Call)[g - users];
                &&& start <= call < end
                &&& events[call].kind is ToolCall
                &&& if m == 0 {
                    k == call
                } else {
                    &&& m == 1
                    &&& mark_id(events[k], Mark::ToolResult) == mark_id(
                        events[call],
                        Mark::ToolCall,
                    )
                    &&& events[k].kind is ToolResult
                }
            } else {
                m == 0 && events[k].kind is AssistantMessage
            }
        }),
{
    let good = is_success(state_of(events, start, end));
    let users = places(events, start, end, Part::User);
    let calls = places(events, start, end, Part::Call);
    lists_follow_places(events, start, end, end, good);
    places_ascend(events, start, end, Part::User);
    places_ascend(events, start, end, Part::Call);
    places_ascend(events, start, end, Part::Reply);
    let groups = turn_groups(events, start, end);
    if g < users.len() {
        assert(groups[g] == user_groups(events, start, end)[g]);
    } else if g < users.len() + calls.len() {
        let c = g - users.len();
        assert(groups[g] == tool_groups(events, start, end, end)[c]);
        let id = mark_id(events[calls[c]], Mark::ToolCall)->0;
        assert(is_part(events[calls[c]], Part::Call));
        assert(any_mark(events, start, end, Mark::ToolResult, id));
        first_mark_is_marked(events, start, end, Mark::ToolResult, id);
    } else {
        let c = g - users.len() - calls.len();
        assert(groups[g] == reply_groups(events, start, end)[c]);
    }
}

/// Two sources of a turn's groups rest on two events.
proof fn source_places_differ(
    events: Seq<SessionEventView>,
    start: int,
    end: int,
    taken: Seq<Seq<char>>,
    count: nat,
    config: ProjectionConfig,
    g: int,
    m: int,
    h: int,
    n: int,
)
    requires
        0 <= start < end <= events.len(),
        turn_fault(events, start, end, taken, count, config) is None,
        0 <= g < turn_groups(events, start, end).len(),
        0 <= m < turn_groups(events, start, end)[g].source_events.len(),
        0 <= h < turn_groups(events, start, end).len(),
        0 <= n < turn_groups(events, start, end)[h].source_events.len(),
        g != h || m != n,
    ensures
        source_place(events, start, end, g, m) != source_place(events, start, end, h, n),
{
    let users = places(events, start, end, Part::User);
    let calls = places(events, start, end, Part::Call);
    sources_have_places(events, start, end, taken, count, config, g, m);
    sources_have_places(events, start, end, taken, count, config, h, n);
    places_ascend(events, start, end, Part::User);
    places_ascend(events, start, end, Part::Call);
    places_ascend(events, start, end, Part::Reply);
    lists_follow_places(events, start, end, end, is_success(state_of(events, start, end)));
    let replies = places(events, start, end, Part::Reply);
    let shown = users.len() + calls.len();
    if g < users.len() && h < users.len() {
        assert(users[g] < users[h] || users[h] < users[g]);
    } else if g >= shown && h >= shown {
        assert(replies[g - shown] < replies[h - shown] || replies[h - shown] < replies[g - shown]);
    } else if users.len() <= g < shown && users.len() <= h < shown && g != h {
        let a = calls[g - users.len()];
        let b = calls[h - users.len()];
        assert(a < b || b < a);
        let (a, b) = if a < b {
            (a, b)
        } else {
            (b, a)
        };
        no_fault_up_to(events, start, start, end, taken, b);
        assert(mark_id(events[a], Mark::ToolCall) != mark_id(events[b], Mark::ToolCall)) by {
            if mark_id(events[a], Mark::ToolCall) == mark_id(events[b], Mark::ToolCall) {
                let id = mark_id(events[b], Mark::ToolCall)->0;
                assert(any_mark(events, start, b, Mark::ToolCall, id));
            }
        }
    }
}

/// A turn names each of its events once.
proof fn turns_name_once(
    events: Seq<SessionEventView>,
    start: int,
    end: int,
    taken: Seq<Seq<char>>,
    count: nat,
    config: ProjectionConfig,
)
    requires
        0 <= start < end <= events.len(),
        turn_fault(events, start, end, taken, count, config) is None,
        are_distinct(events),
    ensures
        ({
            let groups = turn_groups(events, start, end);
            let omitted = omissions(events, start, end, is_success(state_of(events, start, end)));
            &&& is_named_once(groups, omitted)
            &&& names_only(groups, omitted, events, start, end)
            &&& names_all(groups, omitted, events, start, end)
        }),
{
    let good = is_success(state_of(events, start, end));
    let groups = turn_groups(events, start, end);
    let omitted = omissions(events, start, end, good);
    let left = places(events, start, end, Part::Left(good));
    lists_follow_places(events, start, end, end, good);
    places_ascend(events, start, end, Part::Left(good));
    assert forall|g: int| 0 <= g < groups.len() implies (
    #[trigger] groups[g]).source_events.no_duplicates() by {
        assert forall|m: int, n: int|
            0 <= m < groups[g].source_events.len() && 0 <= n < groups[g].source_events.len() && m
                != n implies groups[g].source_events[m] != groups[g].source_events[n] by {
            sources_have_places(events, start, end, taken, count, config, g, m);
            sources_have_places(events, start, end, taken, count, config, g, n);
            source_places_differ(events, start, end, taken, count, config, g, m, g, n);
        }
    }
    assert forall|g: int, h: int, m: int, n: int|
        #![trigger groups[g].source_events[m], groups[h].source_events[n]]
        0 <= g < h < groups.len() && 0 <= m < groups[g].source_events.len() && 0 <= n
            < groups[h].source_events.len() implies groups[g].source_events[m]
        != groups[h].source_events[n] by {
        sources_have_places(events, start, end, taken, count, config, g, m);
        sources_have_places(events, start, end, taken, count, config, h, n);
        source_places_differ(events, start, end, taken, count, config, g, m, h, n);
    }
    assert forall|g: int, m: int, h: int|
        #![trigger groups[g].source_events[m], omitted[h]]
        0 <= g < groups.len() && 0 <= m < groups[g].source_events.len() && 0 <= h
            < omitted.len() implies groups[g].source_events[m] != omitted[h].event_id by {
        sources_have_places(events, start, end, taken, count, config, g, m);
        assert(is_part(events[left[h]], Part::Left(good)));
    }
    assert forall|g: int, m: int|
        #![trigger groups[g].source_events[m]]
        0 <= g < groups.len() && 0 <= m < groups[g].source_events.len() implies is_event(
        events,
        start,
        end,
        groups[g].source_events[m],
    ) by {
        sources_have_places(events, start, end, taken, count, config, g, m);
    }
    assert forall|h: int| 0 <= h < omitted.len() implies is_event(
        events,
        start,
        end,
        (#[trigger] omitted[h]).event_id,
    ) by {
        assert(events[left[h]].event_id == omitted[h].event_id);
    }
    assert forall|k: int| start <= k < end implies is_source(
        groups,
        (#[trigger] events[k]).event_id,
    ) || is_omitted(omitted, events[k].event_id) by {
        every_event_is_accounted_for(events, start, end, taken, count, config, k);
    }
}

/// What names the events up to `b` and what names those after it together name them all.
proof fn names_join(
    g1: Seq<ProjectionGroupView>,
    o1: Seq<OmittedEventView>,
    g2: Seq<ProjectionGroupView>,
    o2: Seq<OmittedEventView>,
    events: Seq<SessionEventView>,
    b: int,
    c: int,
)
    requires
        0 <= b <= c <= events.len(),
        are_distinct(events),
        is_named_once(g1, o1),
        names_only(g1, o1, events, 0, b),
        names_all(g1, o1, events, 0, b),
        is_named_once(g2, o2),
        names_only(g2, o2, events, b, c),
        names_all(g2, o2, events, b, c),
    ensures
        is_named_once(g1 + g2, o1 + o2),
        names_only(g1 + g2, o1 + o2, events, 0, c),
        names_all(g1 + g2, o1 + o2, events, 0, c),
{
    let groups = g1 + g2;
    let omitted = o1 + o2;
    assert forall|x: Seq<char>|
        !(#[trigger] is_event(events, 0, b, x) && is_event(events, b, c, x)) by {
        if is_event(events, 0, b, x) && is_event(events, b, c, x) {
            let i = choose|k: int| 0 <= k < b && (#[trigger] events[k]).event_id == x;
            let j = choose|k: int| b <= k < c && (#[trigger] events[k]).event_id == x;
            assert(events[i].event_id != events[j].event_id);
        }
    }
    assert forall|x: Seq<char>|
        is_event(events, 0, b, x) || is_event(events, b, c, x) implies #[trigger] is_event(
        events,
        0,
        c,
        x,
    ) by {
        if is_event(events, 0, b, x) {
            let i = choose|k: int| 0 <= k < b && (#[trigger] events[k]).event_id == x;
            assert(events[i].event_id == x);
        } else {
            let j = choose|k: int| b <= k < c && (#[trigger] events[k]).event_id == x;
            assert(events[j].event_id == x);
        }
    }
    assert forall|g: int, h: int, m: int, n: int|
        #![trigger groups[g].source_events[m], groups[h].source_events[n]]
        0 <= g < h < groups.len() && 0 <= m < groups[g].source_events.len() && 0 <= n
            < groups[h].source_events.len() implies groups[g].source_events[m]
        != groups[h].source_events[n] by {
        if h < g1.len() {
            assert(g1[g].source_events[m] != g1[h].source_events[n]);
        } else if g >= g1.len() {
            assert(g2[g - g1.len()].source_events[m] != g2[h - g1.len()].source_events[n]);
        } else {
            assert(is_event(events, 0, b, g1[g].source_events[m]));
            assert(is_event(events, b, c, g2[h - g1.len()].source_events[n]));
        }
    }
    assert forall|g: int, h: int| 0 <= g < h < omitted.len() implies (
    #[trigger] omitted[g]).event_id != (#[trigger] omitted[h]).event_id by {
        if h < o1.len() {
            assert(o1[g].event_id != o1[h].event_id);
        } else if g >= o1.len() {
            assert(o2[g - o1.len()].event_id != o2[h - o1.len()].event_id);
        } else {
            assert(is_event(events, 0, b, o1[g].event_id));
            assert(is_event(events, b, c, o2[h - o1.len()].event_id));
        }
    }
    assert forall|g: int, m: int, h: int|
        #![trigger groups[g].source_events[m], omitted[h]]
        0 <= g < groups.len() && 0 <= m < groups[g].source_events.len() && 0 <= h
            < omitted.len() implies groups[g].source_events[m] != omitted[h].event_id by {
        if g < g1.len() {
            assert(is_event(events, 0, b, g1[g].source_events[m]));
            if h < o1.len() {
                assert(g1[g].source_events[m] != o1[h].event_id);
            } else {
                assert(is_event(events, b, c, o2[h - o1.len()].event_id));
            }
        } else {
            assert(is_event(events, b, c, g2[g - g1.len()].source_events[m]));
            if h < o1.len() {
                assert(is_event(events, 0, b, o1[h].event_id));
            } else {
                assert(g2[g - g1.len()].source_events[m] != o2[h - o1.len()].event_id);
            }
        }
    }
    assert forall|g: int, m: int|
        #![trigger groups[g].source_events[m]]
        0 <= g < groups.len() && 0 <= m < groups[g].source_events.len() implies is_event(
        events,
        0,
        c,
        groups[g].source_events[m],
    ) by {
        if g < g1.len() {
            assert(is_event(events, 0, b, g1[g].source_events[m]));
        } else {
            assert(is_event(events, b, c, g2[g - g1.len()].source_events[m]));
        }
    }
    assert forall|h: int| 0 <= h < omitted.len() implies is_event(
        events,
        0,
        c,
        (#[trigger] omitted[h]).event_id,
    ) by {
        if h < o1.len() {
            assert(is_event(events, 0, b, o1[h].event_id));
        } else {
            assert(is_event(events, b, c, o2[h - o1.len()].event_id));
        }
    }
    assert forall|k: int| 0 <= k < c implies is_source(groups, (#[trigger] events[k]).event_id)
        || is_omitted(omitted, events[k].event_id) by {
        let e = events[k].event_id;
        if k < b {
            if is_source(g1, e) {
                let g = choose|g: int|
                    0 <= g < g1.len() && (#[trigger] g1[g]).source_events.contains(e);
                assert(groups[g].source_events.contains(e));
            } else {
                let h = choose|h: int| 0 <= h < o1.len() && (#[trigger] o1[h]).event_id == e;
                assert(omitted[h].event_id == e);
            }
        } else {
            if is_source(g2, e) {
                let g = choose|g: int|
                    0 <= g < g2.len() && (#[trigger] g2[g]).source_events.contains(e);
                assert(groups[g1.len() + g].source_events.contains(e));
            } else {
                let h = choose|h: int| 0 <= h < o2.len() && (#[trigger] o2[h]).event_id == e;
                assert(omitted[o1.len() + h].event_id == e);
            }
        }
    }
}

proof fn turns_join(
    events: Seq<SessionEventView>,
    start: int,
    done: Progress,
    config: ProjectionConfig,
    result: Progress,
)
    requires
        0 <= start <= events.len(),
        are_distinct(events),
        is_named_once(done.groups, done.omitted),
        names_only(done.groups, done.omitted, events, 0, start),
        names_all(done.groups, done.omitted, events, 0, start),
        project_from(events, start, done, config) == Ok::<Progress, ProjectionErrorView>(result),
    ensures
        is_named_once(result.groups, result.omitted),
        names_only(result.groups, result.omitted, events, 0, events.len() as int),
        names_all(result.groups, result.omitted, events, 0, events.len() as int),
    decreases events.len() - start,
{
    if start < events.len() {
        turn_end_is_further(events, start, start + 1);
        let end = turn_end(events, start, start + 1);
        turns_name_once(events, start, end, done.taken, done.count, config);
        names_join(
            done.groups,
            done.omitted,
            turn_groups(events, start, end),
            omissions(events, start, end, is_success(state_of(events, start, end))),
            events,
            start,
            end,
        );
        turns_join(events, end, done.with_turn(events, start, end), config, result);
    }
}

/// A projection names every event of its log exactly once, as the source of a group or
/// as left out, and names nothing else.
pub proof fn every_event_is_named_once(
    session: Seq<char>,
    events: Seq<SessionEventView>,
    input_bytes: nat,
    config: ProjectionConfig,
    projection: ConversationProjectionView,
)
    requires
        projection_of(session, events, input_bytes, config) == Ok::<
            ConversationProjectionView,
            ProjectionErrorView,
        >(projection),
    ensures
        is_named_once(projection.groups, projection.omitted),
        names_only(projection.groups, projection.omitted, events, 0, events.len() as int),
        names_all(projection.groups, projection.omitted, events, 0, events.len() as int),
{
    sound_log(events, session);
    let done = project_from(events, 0, Progress::none(), config)->Ok_0;
    turns_join(events, 0, Progress::none(), config, done);
}

/// A projection never makes system text: every message of a turn's groups comes from
/// the user, the model or a tool.
pub proof fn projections_hold_no_system_text(
    events: Seq<SessionEventView>,
    start: int,
    end: int,
    g: int,
    m: int,
)
    requires
        start <= end,
        0 <= g < turn_groups(events, start, end).len(),
        0 <= m < turn_groups(events, start, end)[g].messages.len(),
    ensures
        !(turn_groups(events, start, end)[g].messages[m] is System),
{
    user_groups_are_user(events, start, end);
    tool_groups_are_tool(events, start, end, end);
    reply_groups_are_replies(events, start, end);
}

proof fn user_groups_are_user(events: Seq<SessionEventView>, start: int, i: int)
    ensures
        forall|g: int, m: int|
            0 <= g < user_groups(events, start, i).len() && 0 <= m < user_groups(
                events,
                start,
                i,
            )[g].messages.len() ==> (#[trigger] user_groups(events, start, i)[g].messages[m])
                is User,
    decreases i - start,
{
    if i > start {
        user_groups_are_user(events, start, i - 1);
    }
}

proof fn tool_groups_are_tool(events: Seq<SessionEventView>, start: int, i: int, end: int)
    ensures
        forall|g: int, m: int|
            0 <= g < tool_groups(events, start, i, end).len() && 0 <= m < tool_groups(
                events,
                start,
                i,
                end,
            )[g].messages.len() ==> !((#[trigger] tool_groups(events, start, i, end)[g].messages[m])
                is System),
    decreases i - start,
{
    if i > start {
        tool_groups_are_tool(events, start, i - 1, end);
    }
}

proof fn reply_groups_are_replies(events: Seq<SessionEventView>, start: int, i: int)
    ensures
        forall|g: int, m: int|
            0 <= g < reply_groups(events, start, i).len() && 0 <= m < reply_groups(
                events,
                start,
                i,
            )[g].messages.len() ==> (#[trigger] reply_groups(events, start, i)[g].messages[m])
                is Assistant,
    decreases i - start,
{
    if i > start {
        reply_groups_are_replies(events, start, i - 1);
    }
}

/// Where the first event of each group stands, from `a` up to `b`, each further on than the
/// one before.
pub open spec fn stand_at(
    groups: Seq<ProjectionGroupView>,
    at: Seq<int>,
    events: Seq<SessionEventView>,
    a: int,
    b: int,
) -> bool {
    &&& at.len() == groups.len()
    &&& forall|g: int|
        0 <= g < groups.len() ==> a <= #[trigger] at[g] < b && groups[g].source_events.len() > 0
            && groups[g].source_events[0] == events[at[g]].event_id
    &&& forall|g: int, h: int| 0 <= g < h < groups.len() ==> #[trigger] at[g] < #[trigger] at[h]
}

proof fn turn_keeps_order(
    events: Seq<SessionEventView>,
    start: int,
    end: int,
    taken: Seq<Seq<char>>,
    count: nat,
    config: ProjectionConfig,
) -> (at: Seq<int>)
    requires
        0 <= start < end <= events.len(),
        turn_fault(events, start, end, taken, count, config) is None,
    ensures
        stand_at(turn_groups(events, start, end), at, events, start, end),
{
    let good = is_success(state_of(events, start, end));
    let users = places(events, start, end, Part::User);
    let calls = places(events, start, end, Part::Call);
    let replies = places(events, start, end, Part::Reply);
    let groups = turn_groups(events, start, end);
    lists_follow_places(events, start, end, end, good);
    places_ascend(events, start, end, Part::User);
    places_ascend(events, start, end, Part::Call);
    places_ascend(events, start, end, Part::Reply);
    let at = Seq::new(groups.len(), |g: int| source_place(events, start, end, g, 0));
    assert forall|g: int| 0 <= g < groups.len() implies start <= #[trigger] at[g] < end
        && groups[g].source_events.len() > 0 && groups[g].source_events[0]
        == events[at[g]].event_id by {
        if g < users.len() {
            assert(groups[g] == user_groups(events, start, end)[g]);
        } else if g < users.len() + calls.len() {
            assert(groups[g] == tool_groups(events, start, end, end)[g - users.len()]);
        } else {
            assert(groups[g] == reply_groups(events, start, end)[g - users.len() - calls.len()]);
        }
        sources_have_places(events, start, end, taken, count, config, g, 0);
    }
    assert forall|g: int, h: int| 0 <= g < h < groups.len() implies #[trigger] at[g]
        < #[trigger] at[h] by {
        sources_have_places(events, start, end, taken, count, config, g, 0);
        sources_have_places(events, start, end, taken, count, config, h, 0);
        no_fault_up_to(events, start, start, end, taken, at[g]);
        no_fault_up_to(events, start, start, end, taken, at[h]);
        if g < users.len() && h >= users.len() {
            if at[h] < at[g] {
                if events[at[h]].kind is ToolCall || events[at[h]].kind is AssistantMessage {
                    assert(any_user(events, start, at[h]));
                    let u = choose|u: int|
                        start <= u < at[h] && (#[trigger] events[u]).kind is UserMessage;
                    assert(any_user(events, start, at[g]));
                }
            }
        } else if g < users.len() + calls.len() && h >= users.len() + calls.len() {
            if at[h] < at[g] {
                assert(any_reply(events, start, at[g]));
            }
        }
    }
    at
}

proof fn turns_keep_order(
    events: Seq<SessionEventView>,
    start: int,
    done: Progress,
    config: ProjectionConfig,
    result: Progress,
    at: Seq<int>,
) -> (all: Seq<int>)
    requires
        0 <= start <= events.len(),
        stand_at(done.groups, at, events, 0, start),
        project_from(events, start, done, config) == Ok::<Progress, ProjectionErrorView>(result),
    ensures
        stand_at(result.groups, all, events, 0, events.len() as int),
    decreases events.len() - start,
{
    if start < events.len() {
        turn_end_is_further(events, start, start + 1);
        let end = turn_end(events, start, start + 1);
        let more = turn_keeps_order(events, start, end, done.taken, done.count, config);
        let next = done.with_turn(events, start, end);
        let both = at + more;
        assert forall|g: int| 0 <= g < next.groups.len() implies 0 <= #[trigger] both[g] < end
            && next.groups[g].source_events.len() > 0 && next.groups[g].source_events[0]
            == events[both[g]].event_id by {
            if g < at.len() {
                assert(both[g] == at[g]);
            } else {
                assert(both[g] == more[g - at.len()]);
            }
        }
        assert forall|g: int, h: int| 0 <= g < h < next.groups.len() implies #[trigger] both[g]
            < #[trigger] both[h] by {
            if h < at.len() {
                assert(both[g] == at[g] && both[h] == at[h]);
            } else if g < at.len() {
                assert(both[g] == at[g] && both[h] == more[h - at.len()]);
            } else {
                assert(both[g] == more[g - at.len()] && both[h] == more[h - at.len()]);
            }
        }
        turns_keep_order(events, end, next, config, result, both)
    } else {
        at
    }
}

/// A projection keeps the order of the log: of two groups the later one rests on the later
/// events.
pub proof fn projections_keep_the_order(
    session: Seq<char>,
    events: Seq<SessionEventView>,
    input_bytes: nat,
    config: ProjectionConfig,
    projection: ConversationProjectionView,
)
    requires
        projection_of(session, events, input_bytes, config) == Ok::<
            ConversationProjectionView,
            ProjectionErrorView,
        >(projection),
    ensures
        exists|at: Seq<int>| #[trigger]
            stand_at(projection.groups, at, events, 0, events.len() as int),
{
    let done = project_from(events, 0, Progress::none(), config)->Ok_0;
    assert(stand_at(Progress::none().groups, Seq::empty(), events, 0, 0));
    let at = turns_keep_order(events, 0, Progress::none(), config, done, Seq::empty());
    assert(stand_at(projection.groups, at, events, 0, events.len() as int));
}

} // verus!
