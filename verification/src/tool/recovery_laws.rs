//! What a history must show before a tool call is tried again.

use crate::json::same_value;
use crate::session::event::{SessionEventKindView, SessionEventView};
use crate::session::tool_record::{
    ToolCallView, ToolEffect, ToolFailureCategory, ToolRecordedOutcomeView, ToolRetryReviewView,
    ToolReviewOutcome,
};
use crate::tool::recovery::{
    another_succeeded, attempt_before, attempts, call_before, call_of, evidence_fault, evidence_fault_from,
    history_fault, is_other_success, is_valid_review, recorded_result, result_before, retry_fault,
    status_of, ToolRecoveryStatus, ToolRetryError,
};
use vstd::prelude::*;

verus! {

/// The event at `r` is the only one that records a result of the call.
pub open spec fn only_result(
    events: Seq<SessionEventView>,
    r: int,
    call_id: Seq<char>,
    outcome: ToolRecordedOutcomeView,
) -> bool {
    &&& 0 <= r < events.len()
    &&& events[r].kind matches SessionEventKindView::ToolResult { result }
    &&& result.call_id == call_id
    &&& result.outcome == outcome
    &&& forall|i: int|
        0 <= i < events.len() && i != r ==> !has_result(#[trigger] events[i], call_id)
}

/// The event records a result of the call.
pub open spec fn has_result(event: SessionEventView, call_id: Seq<char>) -> bool {
    event.kind matches SessionEventKindView::ToolResult { result } && result.call_id == call_id
}

proof fn result_is_found(events: Seq<SessionEventView>, call_id: Seq<char>, n: int)
    requires
        0 <= n <= events.len(),
    ensures
        match result_before(events, call_id, n) {
            Some(r) => 0 <= r < n && has_result(events[r], call_id) && forall|i: int|
                r < i < n ==> !has_result(#[trigger] events[i], call_id),
            None => forall|i: int| 0 <= i < n ==> !has_result(#[trigger] events[i], call_id),
        },
    decreases n,
{
    if n > 0 {
        result_is_found(events, call_id, n - 1);
    }
}

proof fn call_is_found(events: Seq<SessionEventView>, call_id: Seq<char>, n: int)
    requires
        0 <= n <= events.len(),
    ensures
        match call_before(events, call_id, n) {
            Some(c) => 0 <= c < n && (events[c].kind matches SessionEventKindView::ToolCall { call }
                && call.id == call_id) && forall|i: int|
                c < i < n ==> !((#[trigger] events[i]).kind matches SessionEventKindView::ToolCall {
                    call,
                } && call.id == call_id),
            None => forall|i: int|
                0 <= i < n ==> !((#[trigger] events[i]).kind matches SessionEventKindView::ToolCall {
                    call,
                } && call.id == call_id),
        },
    decreases n,
{
    if n > 0 {
        call_is_found(events, call_id, n - 1);
    }
}

/// A recorded failure shows that the tool did not run only where its category is one that
/// is recorded before the tool is entered; a failure of any other category, and a call
/// without a result, leave open what happened. A recorded success is a completion.
pub proof fn only_refusals_show_that_nothing_ran(
    events: Seq<SessionEventView>,
    call_id: Seq<char>,
    r: int,
    outcome: ToolRecordedOutcomeView,
)
    requires
        only_result(events, r, call_id, outcome),
    ensures
        ({
            let status = status_of(recorded_result(events, call_id));
            &&& status == ToolRecoveryStatus::Completed <==> outcome is Succeeded
            &&& status == ToolRecoveryStatus::NotExecuted <==> (outcome is Failed && (
            outcome->category == ToolFailureCategory::Unavailable || outcome->category
                == ToolFailureCategory::InvalidArguments || outcome->category
                == ToolFailureCategory::Denied || outcome->category
                == ToolFailureCategory::GuardFault || outcome->category
                == ToolFailureCategory::ApprovalUnavailable || outcome->category
                == ToolFailureCategory::ApprovalDenied || outcome->category
                == ToolFailureCategory::ApprovalFault))
            &&& status == ToolRecoveryStatus::OutcomeUnknown <==> (outcome is Failed && (
            outcome->category == ToolFailureCategory::Timeout || outcome->category
                == ToolFailureCategory::Cancelled || outcome->category
                == ToolFailureCategory::BodyFailure || outcome->category
                == ToolFailureCategory::BodyPanic || outcome->category
                == ToolFailureCategory::OutputLimit || outcome->category
                == ToolFailureCategory::Budget))
        }),
{
    result_is_found(events, call_id, events.len() as int);
    assert(has_result(events[r], call_id));
}

/// A call without a recorded result may have run.
pub proof fn without_result_the_outcome_is_open(events: Seq<SessionEventView>, call_id: Seq<char>)
    requires
        forall|i: int| 0 <= i < events.len() ==> !has_result(#[trigger] events[i], call_id),
    ensures
        status_of(recorded_result(events, call_id)) == ToolRecoveryStatus::OutcomeUnknown,
{
    result_is_found(events, call_id, events.len() as int);
}

/// An event that is part of sound evidence has no fault of its own.
proof fn sound_at(events: Seq<SessionEventView>, k: int, i: int)
    requires
        0 <= k <= i < events.len(),
        evidence_fault_from(events, k) is None,
    ensures
        evidence_fault(events, i) is None,
    decreases i - k,
{
    if k < i {
        sound_at(events, k + 1, i);
    }
}

/// The event records the call.
pub open spec fn has_call(event: SessionEventView, call: ToolCallView) -> bool {
    event.kind matches SessionEventKindView::ToolCall { call: recorded } && recorded == call
}

proof fn call_is_the_only_one(events: Seq<SessionEventView>, c: int, call: ToolCallView)
    requires
        0 <= c < events.len(),
        has_call(events[c], call),
        evidence_fault_from(events, 0) is None,
    ensures
        call_before(events, call.id, events.len() as int) == Some(c),
{
    call_is_found(events, call.id, events.len() as int);
    let found = call_before(events, call.id, events.len() as int)->0;
    if found > c {
        sound_at(events, 0, found);
        call_is_found(events, call.id, found);
        assert(events[c].kind matches SessionEventKindView::ToolCall { call: k } && k.id == call.id);
    }
}

proof fn results_are_single(events: Seq<SessionEventView>, call_id: Seq<char>, r: int)
    requires
        0 <= r < events.len(),
        has_result(events[r], call_id),
        evidence_fault_from(events, 0) is None,
    ensures
        result_before(events, call_id, events.len() as int) == Some(r),
{
    result_is_found(events, call_id, events.len() as int);
    let found = result_before(events, call_id, events.len() as int)->0;
    if found > r {
        sound_at(events, 0, found);
        result_is_found(events, call_id, found);
    }
}

/// A failure of this category is recorded before the tool is entered.
pub open spec fn comes_before_the_tool(category: ToolFailureCategory) -> bool {
    ||| category == ToolFailureCategory::Unavailable
    ||| category == ToolFailureCategory::InvalidArguments
    ||| category == ToolFailureCategory::Denied
    ||| category == ToolFailureCategory::GuardFault
    ||| category == ToolFailureCategory::ApprovalUnavailable
    ||| category == ToolFailureCategory::ApprovalDenied
    ||| category == ToolFailureCategory::ApprovalFault
}

/// The event records a success of the call.
pub open spec fn has_success(event: SessionEventView, call_id: Seq<char>) -> bool {
    event.kind matches SessionEventKindView::ToolResult { result } && result.call_id == call_id
        && result.outcome is Succeeded
}

/// The event records that the call was turned down before its tool ran.
pub open spec fn has_refusal(event: SessionEventView, call_id: Seq<char>) -> bool {
    event.kind matches SessionEventKindView::ToolResult { result } && result.call_id == call_id && (
    result.outcome matches ToolRecordedOutcomeView::Failed { category, .. }
        && comes_before_the_tool(category))
}

/// On a sound history a call may be tried again exactly where it has a stable identity,
/// neither the record nor the review says that it completed, and it is harmless to
/// repeat, was turned down before its tool ran, or a review says that it did not run. A
/// call that fails this last condition alone needs a review.
pub proof fn retries_rest_on_the_record(
    events: Seq<SessionEventView>,
    bytes: usize,
    c: int,
    call: ToolCallView,
    review: Option<ToolRetryReviewView>,
)
    requires
        0 <= c < events.len(),
        has_call(events[c], call),
        history_fault(events, bytes, call.id) is None,
        review is Some ==> is_valid_review(review->0),
    ensures
        ({
            let completed = (exists|r: int|
                0 <= r < events.len() && has_success(#[trigger] events[r], call.id)) || (review
                is Some && review->0.outcome == ToolReviewOutcome::Completed);
            let harmless = call.operation is Some && (call.operation->0.contract.effect
                == ToolEffect::ReadOnly || call.operation->0.contract.effect
                == ToolEffect::Idempotent);
            let idle = (exists|r: int|
                0 <= r < events.len() && has_refusal(#[trigger] events[r], call.id)) || (review
                is Some && review->0.outcome == ToolReviewOutcome::NotExecuted);
            retry_fault(events, bytes, call.id, review) == if completed {
                Some(ToolRetryError::Completed)
            } else if call.operation is None {
                Some(ToolRetryError::LegacyCall)
            } else if harmless || idle {
                None
            } else {
                Some(ToolRetryError::NeedsReview)
            }
        }),
{
    let n = events.len() as int;
    assert(evidence_fault_from(events, 0) is None);
    call_is_the_only_one(events, c, call);
    result_is_found(events, call.id, n);
    match result_before(events, call.id, n) {
        Some(r) => {
            assert(has_result(events[r], call.id));
            assert forall|i: int|
                0 <= i < n && (has_success(#[trigger] events[i], call.id) || has_refusal(
                    events[i],
                    call.id,
                )) implies i == r by {
                results_are_single(events, call.id, i);
            }
            if has_success(events[r], call.id) {
            }
            if has_refusal(events[r], call.id) {
            }
        },
        None => {
            assert forall|i: int| 0 <= i < n implies !has_success(#[trigger] events[i], call.id)
                && !has_refusal(events[i], call.id) by {
                assert(!has_result(events[i], call.id));
            }
        },
    }
}

/// Only the last attempt at an operation is looked at, and none where another attempt at
/// it succeeded.
pub proof fn operations_are_not_repeated_behind_a_success(
    events: Seq<SessionEventView>,
    bytes: usize,
    c: int,
    call: ToolCallView,
    i: int,
    other: ToolCallView,
)
    requires
        0 <= c < events.len(),
        has_call(events[c], call),
        history_fault(events, bytes, call.id) is None,
        0 <= i < events.len(),
        has_call(events[i], other),
        call.operation is Some,
        other.operation is Some,
        other.operation->0.task_id == call.operation->0.task_id,
        other.operation->0.key == call.operation->0.key,
    ensures
        i <= c,
        other.name == call.name,
        same_value(other.arguments, call.arguments),
        other.operation->0.contract == call.operation->0.contract,
        i < c ==> forall|r: int| 0 <= r < events.len() ==> !has_success(#[trigger] events[r], other.id),
{
    let n = events.len() as int;
    let op = call.operation->0;
    call_is_the_only_one(events, c, call);
    call_is_the_only_one(events, i, other);
    assert(attempts(events[c], op.task_id, op.key));
    assert(attempts(events[i], op.task_id, op.key));
    attempt_is_last(events, op.task_id, op.key, n, i);
    attempt_is_last(events, op.task_id, op.key, n, c);
    let latest = attempt_before(events, op.task_id, op.key, n)->0;
    let last = call_of(events[latest])->0;
    call_is_the_only_one(events, latest, last);
    assert(latest == c);
    attempts_repeat_the_first(events, op.task_id, op.key, i, c);
    if i < c {
        assert(other.id != call.id);
        assert forall|r: int| 0 <= r < n implies !has_success(#[trigger] events[r], other.id) by {
            if has_success(events[r], other.id) {
                results_are_single(events, other.id, r);
                assert(is_other_success(events, call, i));
                assert(another_succeeded(events, call));
            }
        }
    }
}

proof fn attempt_is_last(events: Seq<SessionEventView>, task: Seq<char>, key: Seq<char>, n: int, i: int)
    requires
        0 <= i < n <= events.len(),
        attempts(events[i], task, key),
    ensures
        attempt_before(events, task, key, n) matches Some(p) && i <= p < n && attempts(
            events[p],
            task,
            key,
        ),
    decreases n,
{
    if !attempts(events[n - 1], task, key) {
        attempt_is_last(events, task, key, n - 1, i);
    }
}

/// Every later attempt at an operation is the same call.
proof fn attempts_repeat_the_first(
    events: Seq<SessionEventView>,
    task: Seq<char>,
    key: Seq<char>,
    i: int,
    j: int,
)
    requires
        0 <= i <= j < events.len(),
        attempts(events[i], task, key),
        attempts(events[j], task, key),
        evidence_fault_from(events, 0) is None,
    ensures
        ({
            let a = call_of(events[i])->0;
            let b = call_of(events[j])->0;
            &&& a.name == b.name
            &&& same_value(a.arguments, b.arguments)
            &&& a.operation->0.contract == b.operation->0.contract
        }),
    decreases j,
{
    if i < j {
        sound_at(events, 0, j);
        attempt_is_last(events, task, key, j, i);
        attempts_repeat_the_first(events, task, key, i, attempt_before(events, task, key, j)->0);
    }
}

} // verus!
