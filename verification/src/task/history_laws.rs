//! What a task's history says of its work.

use crate::budget::sealed::CheckpointView;
use crate::session::event::{DoneStatus, SessionEventKindView, SessionEventView};
use crate::task::history::{
    boundary_of, is_pending_step, opens, settled_before, settled_steps_of, settles, step_of, steps_before,
    unresolved_before, unresolved_of, BoundaryView, TaskOperationKind,
};
use crate::task::snapshot::{
    capture_fault, captured, last_reply, phase_of, CompatibilityView, PayloadView, PhaseView,
};
use vstd::prelude::*;

verus! {

/// The event begins a call, of a model or of a tool.
pub open spec fn begins(event: SessionEventView, kind: TaskOperationKind, id: Seq<char>) -> bool {
    match event.kind {
        SessionEventKindView::ModelRequest { request } => kind == TaskOperationKind::Model
            && request.call_id == id,
        SessionEventKindView::ToolCall { call } => kind == TaskOperationKind::Tool && call.id == id,
        _ => false,
    }
}

/// The event is the result of the call.
pub open spec fn ends(event: SessionEventView, kind: TaskOperationKind, id: Seq<char>) -> bool {
    match event.kind {
        SessionEventKindView::ModelResult { result } => kind == TaskOperationKind::Model
            && result.call_id == id,
        SessionEventKindView::ToolResult { result } => kind == TaskOperationKind::Tool
            && result.call_id == id,
        _ => false,
    }
}

/// The call has a result somewhere in the history.
pub open spec fn has_end(events: Seq<SessionEventView>, kind: TaskOperationKind, id: Seq<char>) -> bool {
    exists|r: int| 0 <= r < events.len() && ends(#[trigger] events[r], kind, id)
}

/// The step of a task that an event is part of.
pub open spec fn is_of_step(event: SessionEventView, task: Seq<char>, step: Seq<char>) -> bool {
    match event.kind {
        SessionEventKindView::ModelRequest { request } => request.options.context is Some
            && request.options.context->0.task_id == task && request.options.context->0.step_id == step,
        SessionEventKindView::ToolCall { call } => call.action is Some
            && call.action->0.decision.task_id == task && call.action->0.decision.step_id == step,
        _ => false,
    }
}

proof fn settled_is_ended(events: Seq<SessionEventView>, kind: TaskOperationKind, id: Seq<char>, n: int)
    requires
        0 <= n <= events.len(),
    ensures
        settled_before(events, (kind, id), n) <==> exists|r: int|
            0 <= r < n && ends(#[trigger] events[r], kind, id),
    decreases n,
{
    if n > 0 {
        settled_is_ended(events, kind, id, n - 1);
        assert(settles(events[n - 1]) == Some((kind, id)) <==> ends(events[n - 1], kind, id));
    }
}

proof fn unresolved_is_listed(
    events: Seq<SessionEventView>,
    task: Seq<char>,
    k: int,
    n: int,
    kind: TaskOperationKind,
    id: Seq<char>,
)
    requires
        0 <= k < n <= events.len(),
        begins(events[k], kind, id),
        !has_end(events, kind, id),
    ensures
        exists|u: int|
            0 <= u < unresolved_before(events, task, n).len() && (#[trigger] unresolved_before(events, task, n)[u]).kind
                == kind && unresolved_before(events, task, n)[u].call_id == id && unresolved_before(
                events,
                task,
                n,
            )[u].step_id == step_of(events[k], task),
    decreases n,
{
    let all = unresolved_before(events, task, n);
    settled_is_ended(events, kind, id, events.len() as int);
    assert(opens(events[k]) == Some((kind, id)));
    if k == n - 1 {
        assert(all[all.len() - 1].call_id == id);
    } else {
        unresolved_is_listed(events, task, k, n - 1, kind, id);
        let before = unresolved_before(events, task, n - 1);
        let u = choose|u: int|
            0 <= u < before.len() && (#[trigger] before[u]).kind == kind && before[u].call_id == id
                && before[u].step_id == step_of(events[k], task);
        assert(all[u] == before[u]);
    }
}

proof fn listed_is_unresolved(events: Seq<SessionEventView>, task: Seq<char>, n: int, u: int) -> (k: int)
    requires
        0 <= n <= events.len(),
        0 <= u < unresolved_before(events, task, n).len(),
    ensures
        ({
            let entry = unresolved_before(events, task, n)[u];
            &&& 0 <= k < n
            &&& begins(events[k], entry.kind, entry.call_id)
            &&& !has_end(events, entry.kind, entry.call_id)
            &&& entry.step_id == step_of(events[k], task)
            &&& entry.intent == events[k].cursor()
        }),
    decreases n,
{
    let all = unresolved_before(events, task, n);
    let before = unresolved_before(events, task, n - 1);
    if u < before.len() {
        assert(all[u] == before[u]);
        listed_is_unresolved(events, task, n - 1, u)
    } else {
        let operation = opens(events[n - 1])->0;
        settled_is_ended(events, operation.0, operation.1, events.len() as int);
        n - 1
    }
}

/// Every call without a result is listed as unfinished, and nothing else is: what is
/// listed has begun where it is said to have begun, and no result of it is on record.
pub proof fn unfinished_calls_are_listed(events: Seq<SessionEventView>, task: Seq<char>)
    ensures
        forall|k: int, kind: TaskOperationKind, id: Seq<char>|
            0 <= k < events.len() && #[trigger] begins(events[k], kind, id) && !has_end(events, kind, id)
                ==> exists|u: int|
                0 <= u < unresolved_of(events, task).len() && (#[trigger] unresolved_of(events, task)[u]).kind
                    == kind && unresolved_of(events, task)[u].call_id == id,
        forall|u: int|
            0 <= u < unresolved_of(events, task).len() ==> exists|k: int|
                0 <= k < events.len() && begins(
                    #[trigger] events[k],
                    (#[trigger] unresolved_of(events, task)[u]).kind,
                    unresolved_of(events, task)[u].call_id,
                ) && !has_end(
                    events,
                    unresolved_of(events, task)[u].kind,
                    unresolved_of(events, task)[u].call_id,
                ) && unresolved_of(events, task)[u].intent == events[k].cursor(),
{
    let n = events.len() as int;
    let all = unresolved_of(events, task);
    assert forall|k: int, kind: TaskOperationKind, id: Seq<char>|
        0 <= k < events.len() && #[trigger] begins(events[k], kind, id) && !has_end(events, kind, id)
            implies exists|u: int| 0 <= u < all.len() && (#[trigger] all[u]).kind == kind && all[u].call_id
        == id by {
        unresolved_is_listed(events, task, k, n, kind, id);
    }
    assert forall|u: int| 0 <= u < all.len() implies exists|k: int|
        0 <= k < events.len() && begins(#[trigger] events[k], (#[trigger] all[u]).kind, all[u].call_id)
            && !has_end(events, all[u].kind, all[u].call_id) && all[u].intent == events[k].cursor() by {
        let k = listed_is_unresolved(events, task, n, u);
        assert(begins(events[k], all[u].kind, all[u].call_id));
    }
}

proof fn steps_are_seen(events: Seq<SessionEventView>, task: Seq<char>, n: int, step: Seq<char>)
    requires
        0 <= n <= events.len(),
    ensures
        steps_before(events, task, n).contains(step) <==> exists|k: int|
            0 <= k < n && is_of_step(#[trigger] events[k], task, step),
    decreases n,
{
    if n > 0 {
        steps_are_seen(events, task, n - 1, step);
        let before = steps_before(events, task, n - 1);
        let all = steps_before(events, task, n);
        assert(step_of(events[n - 1], task) == Some(step) <==> is_of_step(events[n - 1], task, step));
        if before.contains(step) {
            let i = before.index_of(step);
            assert(all[i] == step);
        }
        if all.contains(step) && !before.contains(step) {
            let i = all.index_of(step);
            if i < before.len() {
                assert(before[i] == step);
            }
        }
        if step_of(events[n - 1], task) == Some(step) && !before.contains(step) {
            assert(all[all.len() - 1] == step);
        }
    }
}

proof fn kept_are_kept(steps: Seq<Seq<char>>, keeps: spec_fn(Seq<char>) -> bool, step: Seq<char>)
    ensures
        steps.filter(keeps).contains(step) <==> steps.contains(step) && keeps(step),
    decreases steps.len(),
{
    reveal(Seq::filter);
    if steps.len() > 0 {
        let front = steps.drop_last();
        let kept = front.filter(keeps);
        let all = steps.filter(keeps);
        kept_are_kept(front, keeps, step);
        if kept.contains(step) {
            let i = kept.index_of(step);
            assert(all[i] == step);
            let j = front.index_of(step);
            assert(steps[j] == step);
        }
        if all.contains(step) && !kept.contains(step) {
            let i = all.index_of(step);
            if i < kept.len() {
                assert(kept[i] == step);
            }
            assert(steps[steps.len() - 1] == step);
        }
        if steps.contains(step) && keeps(step) && !kept.contains(step) {
            let j = steps.index_of(step);
            if j < front.len() {
                assert(front[j] == step);
            }
            assert(all[all.len() - 1] == step);
        }
    }
}

/// A step is settled exactly where the task took it and every call of it has a result.
pub proof fn steps_are_settled_by_results(events: Seq<SessionEventView>, task: Seq<char>, step: Seq<char>)
    ensures
        settled_steps_of(events, task).contains(step) <==> {
            &&& exists|k: int| 0 <= k < events.len() && is_of_step(#[trigger] events[k], task, step)
            &&& forall|k: int, kind: TaskOperationKind, id: Seq<char>|
                0 <= k < events.len() && is_of_step(events[k], task, step) && #[trigger] begins(
                    events[k],
                    kind,
                    id,
                ) ==> has_end(events, kind, id)
        },
{
    let n = events.len() as int;
    let list = unresolved_of(events, task);
    steps_are_seen(events, task, n, step);
    kept_are_kept(
        steps_before(events, task, n),
        |s: Seq<char>| !is_pending_step(list, s),
        step,
    );
    if is_pending_step(list, step) {
        let u = choose|u: int| 0 <= u < list.len() && (#[trigger] list[u]).step_id == Some(step);
        let k = listed_is_unresolved(events, task, n, u);
        assert(is_of_step(events[k], task, step));
        assert(begins(events[k], list[u].kind, list[u].call_id));
    } else {
        assert forall|k: int, kind: TaskOperationKind, id: Seq<char>|
            0 <= k < events.len() && is_of_step(events[k], task, step) && #[trigger] begins(
                events[k],
                kind,
                id,
            ) implies has_end(events, kind, id) by {
            if !has_end(events, kind, id) {
                unresolved_is_listed(events, task, k, n, kind, id);
                let u = choose|u: int|
                    0 <= u < list.len() && (#[trigger] list[u]).kind == kind && list[u].call_id == id
                        && list[u].step_id == step_of(events[k], task);
                assert(list[u].step_id == Some(step));
            }
        }
    }
}

/// A history is closed where its last event ends a turn, open in the turn of its last event
/// where it does not, and empty where nothing was recorded.
pub proof fn boundaries_are_where_the_log_ends(events: Seq<SessionEventView>)
    ensures
        boundary_of(events) is Empty <==> events.len() == 0,
        boundary_of(events) is Closed <==> events.len() > 0 && (events.last().kind is Done
            || events.last().kind is Error),
        boundary_of(events) matches BoundaryView::Open(turn) ==> turn == events.last().turn_id,
{
}

proof fn reply_is_the_last(events: Seq<SessionEventView>, turn: Seq<char>, n: int)
    requires
        0 <= n <= events.len(),
    ensures
        last_reply(events, turn, n) matches Some(text) ==> exists|k: int|
            0 <= k < n && (#[trigger] events[k]).kind == (SessionEventKindView::AssistantMessage { text })
                && events[k].turn_id == turn && forall|m: int|
                k < m < n ==> (#[trigger] events[m]).turn_id == turn && !(events[m].kind
                    is AssistantMessage),
    decreases n,
{
    if n > 0 && events[n - 1].turn_id == turn {
        match events[n - 1].kind {
            SessionEventKindView::AssistantMessage { text } => {
                assert(events[n - 1].kind == (SessionEventKindView::AssistantMessage { text }));
            },
            _ => {
                reply_is_the_last(events, turn, n - 1);
                if last_reply(events, turn, n - 1) is Some {
                    let text = last_reply(events, turn, n - 1)->0;
                    let k = choose|k: int|
                        0 <= k < n - 1 && (#[trigger] events[k]).kind == (
                        SessionEventKindView::AssistantMessage { text }) && events[k].turn_id == turn && forall|
                            m: int,
                        |
                            k < m < n - 1 ==> (#[trigger] events[m]).turn_id == turn && !(events[m].kind
                                is AssistantMessage);
                    assert(events[k].turn_id == turn);
                }
            },
        }
    }
}

/// The phase of a task is what its last turn left: nothing happened yet, it completed, it
/// waits with the question that it asked last, or it was stopped for the reason that its
/// report gives.
pub proof fn phases_are_what_the_last_turn_left(events: Seq<SessionEventView>)
    ensures
        phase_of(events) matches Ok(phase) ==> {
            &&& phase is Created <==> events.len() == 0
            &&& phase is Completed <==> events.len() > 0 && (events.last().kind matches SessionEventKindView::Done {
                status,
                ..
            } && status == DoneStatus::Completed)
            &&& phase is WaitingForInput <==> events.len() > 0 && (events.last().kind
                matches SessionEventKindView::Done { status, .. } && status == DoneStatus::WaitingForInput)
            &&& phase matches PhaseView::WaitingForInput { question } ==> exists|k: int|
                0 <= k < events.len() && (#[trigger] events[k]).kind == (
                SessionEventKindView::AssistantMessage { text: question }) && events[k].turn_id
                    == events.last().turn_id && forall|m: int|
                    k < m < events.len() ==> !((#[trigger] events[m]).kind is AssistantMessage)
            &&& phase matches PhaseView::Stopped { reason } ==> exists|k: int|
                0 <= k < events.len() && ((#[trigger] events[k]).kind matches SessionEventKindView::TaskRunReport {
                    report,
                } && report.stop == reason)
        },
{
    if events.len() > 0 {
        reply_is_the_last(events, events.last().turn_id, events.len() as int);
        if phase_of(events) is Ok && phase_of(events)->Ok_0 is WaitingForInput {
            let text = last_reply(events, events.last().turn_id, events.len() as int)->0;
            let k = choose|k: int|
                0 <= k < events.len() && (#[trigger] events[k]).kind == (
                SessionEventKindView::AssistantMessage { text }) && events[k].turn_id
                    == events.last().turn_id && forall|m: int|
                    k < m < events.len() ==> (#[trigger] events[m]).turn_id == events.last().turn_id
                        && !(events[m].kind is AssistantMessage);
            assert(events[k].kind == (SessionEventKindView::AssistantMessage { text }));
        }
        let i = if events.len() >= 2 {
            events.len() - 2
        } else {
            0
        };
        if phase_of(events) is Ok && phase_of(events)->Ok_0 is Stopped {
            assert(events[i].kind is TaskRunReport);
        }
    }
}

/// A snapshot is taken only of a task at rest: every call of its history has a result and
/// its last turn is over. It holds the charges of the ledger, the place in the history
/// that the ledger vouches for and the application's own state, as they are.
pub proof fn snapshots_are_taken_at_rest(
    expected_revision: u64,
    compatibility: CompatibilityView,
    payloads: Seq<PayloadView>,
    budget: CheckpointView,
    events: Seq<SessionEventView>,
)
    requires
        capture_fault(expected_revision, budget, events) is None,
    ensures
        forall|k: int, kind: TaskOperationKind, id: Seq<char>|
            0 <= k < events.len() && #[trigger] begins(events[k], kind, id) ==> has_end(events, kind, id),
        events.len() > 0 ==> events.last().kind is Done || events.last().kind is Error,
        ({
            let taken = captured(expected_revision, compatibility, payloads, budget, events);
            &&& taken.revision == expected_revision + 1
            &&& taken.budget.charged == budget.image.report.charged
            &&& taken.budget.revision == budget.image.revision
            &&& taken.cursor == budget.image.anchor
            &&& taken.payloads == payloads
            &&& taken.compatibility == compatibility
            &&& taken.identity == budget.image.report.identity
        }),
{
    let task = budget.image.report.identity.task;
    unfinished_calls_are_listed(events, task);
    assert(unresolved_of(events, task).len() == 0);
    boundaries_are_where_the_log_ends(events);
    assert forall|k: int, kind: TaskOperationKind, id: Seq<char>|
        0 <= k < events.len() && #[trigger] begins(events[k], kind, id) implies has_end(events, kind, id) by {
        if !has_end(events, kind, id) {
            let u = choose|u: int|
                0 <= u < unresolved_of(events, task).len() && (#[trigger] unresolved_of(events, task)[u]).kind
                    == kind && unresolved_of(events, task)[u].call_id == id;
        }
    }
}

} // verus!
