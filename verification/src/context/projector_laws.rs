//! What a projection tells of the log that it was made from.

use crate::context::projector::{
    any_mark, any_terminal, call_name, calls_are_grouped, exchange, first_is_only, first_mark,
    first_mark_is_marked, is_success, mark_id, no_fault_up_to, omission, omissions, project_from, projection_of,
    reply_groups, state_of, tool_groups, turn_end, turn_end_is_further, turn_fault, turn_groups, user_groups,
    Mark, Progress,
};
use crate::context::vocabulary::{
    ConversationProjectionView, OmissionReason, OmittedEventView, ProjectionConfig, ProjectionErrorView,
    ProjectionGroupKind, ProjectionGroupView,
};
use crate::generation::ModelMessageView;
use crate::json::decimal;
use crate::json_reading::{number_is_spelled, read_json};
use crate::session::event::{DoneStatus, SessionEventKindView, SessionEventView};
use crate::session::outcome_laws::{recorded_outcomes_can_be_read, says_recorded};
use crate::session::tool_record::ToolCallView;
use vstd::prelude::*;

verus! {

/// The group is the user's message, as it was said.
pub open spec fn tells_user(group: ProjectionGroupView, event: SessionEventView, text: Seq<char>) -> bool {
    &&& group.turn_id == event.turn_id
    &&& group.kind == ProjectionGroupKind::User
    &&& group.source_events == seq![event.event_id]
    &&& group.messages.len() == 1
    &&& group.messages[0] == (ModelMessageView::User { content: text })
}

/// The group is the reply, as it was given.
pub open spec fn tells_reply(group: ProjectionGroupView, event: SessionEventView, text: Seq<char>) -> bool {
    &&& group.turn_id == event.turn_id
    &&& group.kind == ProjectionGroupKind::Assistant
    &&& group.source_events == seq![event.event_id]
    &&& group.messages.len() == 1
    &&& group.messages[0] matches ModelMessageView::Assistant { content, tool_calls }
    &&& content == Some(text)
    &&& tool_calls.len() == 0
}

/// The group is the call with its own name and arguments, followed by the outcome that was
/// recorded for it, as the answer to that call.
pub open spec fn tells_call(
    group: ProjectionGroupView,
    event: SessionEventView,
    call: ToolCallView,
    answer: SessionEventView,
) -> bool {
    &&& group.turn_id == event.turn_id
    &&& group.kind == ProjectionGroupKind::ToolExchange
    &&& group.source_events == seq![event.event_id, answer.event_id]
    &&& group.messages.len() == 2
    &&& group.messages[0] matches ModelMessageView::Assistant { content, tool_calls }
    &&& content is None
    &&& tool_calls.len() == 1
    &&& tool_calls[0].name == call.name
    &&& tool_calls[0].arguments == call.arguments
    &&& group.messages[1] matches ModelMessageView::Tool { call_id, content: told }
    &&& call_id == tool_calls[0].id
    &&& answer.turn_id == event.turn_id
    &&& answer.kind matches SessionEventKindView::ToolResult { result }
    &&& result.call_id == call.id
    &&& read_json(told) matches Some(value)
    &&& says_recorded(value, result.outcome)
}

/// The turn of the event goes on without interruption to an end in success.
pub open spec fn ends_well(events: Seq<SessionEventView>, k: int, j: int) -> bool {
    &&& k <= j < events.len()
    &&& forall|i: int| k <= i <= j ==> (#[trigger] events[i]).turn_id == events[k].turn_id
    &&& events[j].kind matches SessionEventKindView::Done { status, .. }
    &&& status == DoneStatus::Completed || status == DoneStatus::WaitingForInput
}

/// The event is listed as left out for this reason.
pub open spec fn is_left_out(
    omitted: Seq<OmittedEventView>,
    event: SessionEventView,
    reason: OmissionReason,
) -> bool {
    exists|g: int|
        0 <= g < omitted.len() && (#[trigger] omitted[g]).event_id == event.event_id
            && omitted[g].seq == event.seq && omitted[g].reason == reason
}

/// What becomes of an event: what was said, called and answered is told as it was, and
/// everything else is left out for a reason.
pub open spec fn is_told(
    groups: Seq<ProjectionGroupView>,
    omitted: Seq<OmittedEventView>,
    events: Seq<SessionEventView>,
    k: int,
) -> bool {
    match events[k].kind {
        SessionEventKindView::UserMessage { text } => exists|g: int|
            0 <= g < groups.len() && tells_user(#[trigger] groups[g], events[k], text),
        SessionEventKindView::ToolCall { call } => exists|g: int, r: int|
            0 <= g < groups.len() && k < r < events.len() && tells_call(
                #[trigger] groups[g],
                events[k],
                call,
                #[trigger] events[r],
            ),
        SessionEventKindView::ToolResult { result } => exists|g: int, c: int|
            0 <= g < groups.len() && 0 <= c < k && (events[c].kind matches SessionEventKindView::ToolCall {
                call,
            } && call.id == result.call_id && tells_call(
                #[trigger] groups[g],
                #[trigger] events[c],
                call,
                events[k],
            )),
        SessionEventKindView::AssistantMessage { text } => {
            &&& (exists|j: int| ends_well(events, k, j)) ==> exists|g: int|
                0 <= g < groups.len() && tells_reply(#[trigger] groups[g], events[k], text)
            &&& (forall|j: int| !ends_well(events, k, j)) ==> is_left_out(
                omitted,
                events[k],
                OmissionReason::UnsuccessfulReply,
            )
        },
        SessionEventKindView::AssistantDelta { .. } => is_left_out(
            omitted,
            events[k],
            OmissionReason::StreamDelta,
        ),
        SessionEventKindView::ModelRequest { .. } => is_left_out(
            omitted,
            events[k],
            OmissionReason::ModelAudit,
        ),
        SessionEventKindView::ModelResult { .. } => is_left_out(
            omitted,
            events[k],
            OmissionReason::ModelAudit,
        ),
        _ => is_left_out(omitted, events[k], OmissionReason::Audit),
    }
}

proof fn telling_goes_on(
    groups: Seq<ProjectionGroupView>,
    omitted: Seq<OmittedEventView>,
    first: Seq<ProjectionGroupView>,
    left: Seq<OmittedEventView>,
    at: int,
    left_at: int,
    events: Seq<SessionEventView>,
    k: int,
)
    requires
        is_told(first, left, events, k),
        0 <= at <= at + first.len() <= groups.len(),
        0 <= left_at <= left_at + left.len() <= omitted.len(),
        forall|g: int| 0 <= g < first.len() ==> #[trigger] first[g] == groups[at + g],
        forall|g: int| 0 <= g < left.len() ==> #[trigger] left[g] == omitted[left_at + g],
    ensures
        is_told(groups, omitted, events, k),
{
    assert forall|reason: OmissionReason| is_left_out(left, events[k], reason) implies is_left_out(
        omitted,
        events[k],
        reason,
    ) by {
        let g = choose|g: int|
            0 <= g < left.len() && (#[trigger] left[g]).event_id == events[k].event_id
                && left[g].seq == events[k].seq && left[g].reason == reason;
        assert(omitted[left_at + g] == left[g]);
    }
    match events[k].kind {
        SessionEventKindView::UserMessage { text } => {
            let g = choose|g: int|
                0 <= g < first.len() && tells_user(#[trigger] first[g], events[k], text);
            assert(tells_user(groups[at + g], events[k], text));
        },
        SessionEventKindView::ToolCall { call } => {
            let (g, r) = choose|g: int, r: int|
                0 <= g < first.len() && k < r < events.len() && tells_call(
                    #[trigger] first[g],
                    events[k],
                    call,
                    #[trigger] events[r],
                );
            assert(tells_call(groups[at + g], events[k], call, events[r]));
        },
        SessionEventKindView::ToolResult { result } => {
            let (g, c) = choose|g: int, c: int|
                0 <= g < first.len() && 0 <= c < k && (events[c].kind
                    matches SessionEventKindView::ToolCall { call } && call.id == result.call_id
                    && tells_call(#[trigger] first[g], #[trigger] events[c], call, events[k]));
            let call = events[c].kind->ToolCall_call;
            assert(tells_call(groups[at + g], events[c], call, events[k]));
        },
        SessionEventKindView::AssistantMessage { text } => {
            if exists|j: int| ends_well(events, k, j) {
                let g = choose|g: int|
                    0 <= g < first.len() && tells_reply(#[trigger] first[g], events[k], text);
                assert(tells_reply(groups[at + g], events[k], text));
            }
        },
        _ => {},
    }
}

proof fn user_is_told(
    events: Seq<SessionEventView>,
    start: int,
    k: int,
    i: int,
    text: Seq<char>,
) -> (g: int)
    requires
        start <= k < i,
        events[k].kind == (SessionEventKindView::UserMessage { text }),
    ensures
        0 <= g < user_groups(events, start, i).len(),
        tells_user(user_groups(events, start, i)[g], events[k], text),
    decreases i - start,
{
    if k == i - 1 {
        user_groups(events, start, i).len() - 1
    } else {
        user_is_told(events, start, k, i - 1, text)
    }
}

proof fn reply_is_told(
    events: Seq<SessionEventView>,
    start: int,
    k: int,
    i: int,
    text: Seq<char>,
) -> (g: int)
    requires
        start <= k < i,
        events[k].kind == (SessionEventKindView::AssistantMessage { text }),
    ensures
        0 <= g < reply_groups(events, start, i).len(),
        tells_reply(reply_groups(events, start, i)[g], events[k], text),
    decreases i - start,
{
    if k == i - 1 {
        reply_groups(events, start, i).len() - 1
    } else {
        reply_is_told(events, start, k, i - 1, text)
    }
}

proof fn omission_is_told(events: Seq<SessionEventView>, start: int, k: int, i: int, good: bool) -> (g: int)
    requires
        start <= k < i,
        omission(events[k].kind, good) is Some,
    ensures
        0 <= g < omissions(events, start, i, good).len(),
        omissions(events, start, i, good)[g].event_id == events[k].event_id,
        omissions(events, start, i, good)[g].seq == events[k].seq,
        omissions(events, start, i, good)[g].reason == omission(events[k].kind, good)->0,
    decreases i - start,
{
    if k == i - 1 {
        omissions(events, start, i, good).len() - 1
    } else {
        omission_is_told(events, start, k, i - 1, good)
    }
}

proof fn exchange_is_told(events: Seq<SessionEventView>, c: int, r: int, call: ToolCallView)
    requires
        0 <= c < events.len(),
        0 <= r < events.len(),
        events[c].kind == (SessionEventKindView::ToolCall { call }),
        mark_id(events[r], Mark::ToolResult) == Some(call.id),
        events[r].turn_id == events[c].turn_id,
    ensures
        tells_call(exchange(events, c, r), events[c], call, events[r]),
{
    recorded_outcomes_can_be_read(events[r].kind->ToolResult_result.outcome);
}

proof fn turn_is_told(
    events: Seq<SessionEventView>,
    start: int,
    end: int,
    taken: Seq<Seq<char>>,
    count: nat,
    config: ProjectionConfig,
    k: int,
)
    requires
        0 <= start <= k < end <= events.len(),
        turn_fault(events, start, end, taken, count, config) is None,
        forall|i: int|
            start <= i < end ==> (#[trigger] events[i]).turn_id == events[start].turn_id,
        end < events.len() ==> events[end].turn_id != events[start].turn_id,
    ensures
        is_told(
            turn_groups(events, start, end),
            omissions(events, start, end, is_success(state_of(events, start, end))),
            events,
            k,
        ),
{
    let good = is_success(state_of(events, start, end));
    let users = user_groups(events, start, end);
    let tools = tool_groups(events, start, end, end);
    let groups = turn_groups(events, start, end);
    let left = omissions(events, start, end, good);
    no_fault_up_to(events, start, start, end, taken, k);
    if omission(events[k].kind, good) is Some {
        let g = omission_is_told(events, start, k, end, good);
        assert(left[g].event_id == events[k].event_id);
        assert(is_left_out(left, events[k], omission(events[k].kind, good)->0));
    }
    match events[k].kind {
        SessionEventKindView::UserMessage { text } => {
            let g = user_is_told(events, start, k, end, text);
            assert(groups[g] == users[g]);
            assert(tells_user(groups[g], events[k], text));
        },
        SessionEventKindView::ToolCall { call } => {
            assert(mark_id(events[k], Mark::ToolCall) == Some(call.id));
            assert(any_mark(events, start, end, Mark::ToolResult, call.id));
            first_mark_is_marked(events, start, end, Mark::ToolResult, call.id);
            let r = first_mark(events, start, end, Mark::ToolResult, call.id);
            no_fault_up_to(events, start, start, end, taken, r);
            let c = choose|c: int|
                start <= c < r && mark_id(#[trigger] events[c], Mark::ToolCall) == Some(call.id);
            assert(c >= k);
            let g = calls_are_grouped(events, start, k, end, end, call.id);
            assert(groups[users.len() + g] == tools[g]);
            exchange_is_told(events, k, r, call);
            assert(tells_call(groups[users.len() + g], events[k], call, events[r]));
        },
        SessionEventKindView::ToolResult { result } => {
            let id = result.call_id;
            let c = choose|c: int|
                start <= c < k && mark_id(#[trigger] events[c], Mark::ToolCall) == Some(id);
            let call = events[c].kind->ToolCall_call;
            first_is_only(events, start, end, Mark::ToolResult, id, k);
            let g = calls_are_grouped(events, start, c, end, end, id);
            assert(groups[users.len() + g] == tools[g]);
            exchange_is_told(events, c, k, call);
            assert(tells_call(groups[users.len() + g], events[c], call, events[k]));
        },
        SessionEventKindView::AssistantMessage { text } => {
            if exists|j: int| ends_well(events, k, j) {
                let j = choose|j: int| ends_well(events, k, j);
                if j >= end {
                    assert(events[end].turn_id == events[k].turn_id);
                }
                if j < end - 1 {
                    no_fault_up_to(events, start, start, end, taken, j + 1);
                    assert(any_terminal(events, start, j + 1)) by {
                        assert(events[j].is_terminal());
                    }
                }
                assert(good);
            }
            if good {
                assert(ends_well(events, k, end - 1));
                let g = reply_is_told(events, start, k, end, text);
                let replies = reply_groups(events, start, end);
                assert(groups[users.len() + tools.len() + g] == replies[g]);
                assert(tells_reply(groups[users.len() + tools.len() + g], events[k], text));
            }
        },
        _ => {},
    }
}

proof fn turns_are_told(
    events: Seq<SessionEventView>,
    start: int,
    done: Progress,
    config: ProjectionConfig,
    result: Progress,
)
    requires
        0 <= start <= events.len(),
        forall|k: int| 0 <= k < start ==> is_told(done.groups, done.omitted, events, k),
        project_from(events, start, done, config) == Ok::<Progress, ProjectionErrorView>(result),
    ensures
        forall|k: int| 0 <= k < events.len() ==> is_told(result.groups, result.omitted, events, k),
    decreases events.len() - start,
{
    if start < events.len() {
        turn_end_is_further(events, start, start + 1);
        let end = turn_end(events, start, start + 1);
        turn_end_stops(events, start, start + 1);
        let next = done.with_turn(events, start, end);
        let left = omissions(events, start, end, is_success(state_of(events, start, end)));
        assert forall|k: int| 0 <= k < end implies is_told(next.groups, next.omitted, events, k) by {
            if k < start {
                telling_goes_on(
                    next.groups,
                    next.omitted,
                    done.groups,
                    done.omitted,
                    0,
                    0,
                    events,
                    k,
                );
            } else {
                turn_is_told(events, start, end, done.taken, done.count, config, k);
                telling_goes_on(
                    next.groups,
                    next.omitted,
                    turn_groups(events, start, end),
                    left,
                    done.groups.len() as int,
                    done.omitted.len() as int,
                    events,
                    k,
                );
            }
        }
        turns_are_told(events, end, next, config, result);
    }
}

proof fn turn_end_stops(events: Seq<SessionEventView>, start: int, i: int)
    requires
        0 <= start <= i <= events.len(),
    ensures
        turn_end(events, start, i) < events.len() ==> events[turn_end(events, start, i)].turn_id
            != events[start].turn_id,
    decreases events.len() - i,
{
    if i < events.len() && events[i].turn_id == events[start].turn_id {
        turn_end_stops(events, start, i + 1);
    }
}

/// A projection tells the log as it was: every user message with its words, every tool
/// call with its own name and arguments and the outcome recorded for that call, every
/// reply of a turn that ended well with its words. Everything else is listed as left out,
/// with the reason.
pub proof fn projections_tell_the_log(
    session: Seq<char>,
    events: Seq<SessionEventView>,
    input_bytes: nat,
    config: ProjectionConfig,
    projection: ConversationProjectionView,
    k: int,
)
    requires
        projection_of(session, events, input_bytes, config) == Ok::<
            ConversationProjectionView,
            ProjectionErrorView,
        >(projection),
        0 <= k < events.len(),
    ensures
        is_told(projection.groups, projection.omitted, events, k),
{
    let done = project_from(events, 0, Progress::none(), config)->Ok_0;
    turns_are_told(events, 0, Progress::none(), config, done);
}

/// Calls that were recorded by different events are never taken for one another.
pub proof fn call_names_differ(a: u64, b: u64)
    requires
        call_name(a) == call_name(b),
    ensures
        a == b,
{
    number_is_spelled(a as nat);
    number_is_spelled(b as nat);
    let n = "jw_tool_"@.len() as int;
    assert(call_name(a).skip(n) =~= decimal(a as nat));
    assert(call_name(b).skip(n) =~= decimal(b as nat));
}

} // verus!
