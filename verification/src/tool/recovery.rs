//! Which recorded tool calls may be tried again. Nothing is run here, and no permission
//! is given or cost refunded.

use crate::id::{EventId, SessionId, TaskId};
use crate::json::{same_value, Json};
use crate::record::Record;
use crate::session::event::{SessionEvent, SessionEventKind, SessionEventKindView, SessionEventView};
use crate::session::log;
use crate::session::tool_record::{
    ToolCall, ToolCallView, ToolEffect, ToolEffectContract, ToolFailureCategory, ToolOperation,
    ToolOperationView, ToolRecordedOutcome, ToolRecordedOutcomeView, ToolResult, ToolResultView,
    ToolRetryAudit, ToolRetryAuditView, ToolRetryReview, ToolRetryReviewView, ToolReviewOutcome,
};
use crate::text::{blank, byte_len, is_blank, same_text, size};
use crate::tool::vocabulary::MAX_TOOL_NAME_BYTES;
use vstd::prelude::*;

verus! {

#[derive(Clone, Copy, Debug, PartialEq, Eq, Structural)]
pub enum ToolRetryError {
    /// Recovery evidence is missing, malformed or too large.
    InvalidEvidence,
    /// The call has no stable operation identity.
    LegacyCall,
    /// The operation completed; it is not to be tried again.
    Completed,
    /// The outcome outside needs a host's review.
    NeedsReview,
    /// There is a newer attempt for this operation.
    NotLatestAttempt,
    /// Task, session, tool, arguments or effect contract changed.
    BindingChanged,
    /// The plan was used; current evidence is to be inspected again.
    Consumed,
}

#[derive(Clone, Copy, Debug, PartialEq, Eq, Structural)]
pub enum ToolRecoveryStatus {
    Completed,
    NotExecuted,
    OutcomeUnknown,
}

#[derive(Debug, PartialEq, Eq)]
pub struct ToolRecoveryAssessment {
    pub call: ToolCall,
    pub result: Option<ToolResult>,
    pub status: ToolRecoveryStatus,
}

pub const MAX_HISTORY_EVENTS: usize = 100_000;

pub const MAX_HISTORY_BYTES: usize = 16_777_216;

/// A text of at most this many bytes is kept as evidence.
pub const MAX_EVIDENCE_BYTES: usize = 1024;

/// Not blank, and not too long.
pub open spec fn is_valid_text(value: Seq<char>) -> bool {
    !is_blank(value) && byte_len(value) <= MAX_EVIDENCE_BYTES
}

pub fn text_valid(value: &str) -> (answer: bool)
    ensures
        answer == is_valid_text(value@),
{
    !blank(value) && size(value) <= MAX_EVIDENCE_BYTES
}

pub fn validate_tool_contract(contract: &ToolEffectContract) -> (result: Result<(), ToolRetryError>)
    ensures
        result == if is_valid_text(contract@.revision) {
            Ok::<(), ToolRetryError>(())
        } else {
            Err(ToolRetryError::InvalidEvidence)
        },
{
    if !text_valid(contract.revision.as_str()) {
        return Err(ToolRetryError::InvalidEvidence);
    }
    Ok(())
}

pub open spec fn is_valid_review(review: ToolRetryReviewView) -> bool {
    is_valid_text(review.actor) && is_valid_text(review.evidence)
}

pub open spec fn is_valid_operation(operation: ToolOperationView) -> bool {
    &&& is_valid_text(operation.contract.revision)
    &&& is_valid_text(operation.task_id)
    &&& is_valid_text(operation.key)
    &&& match operation.retry {
        Some(retry) => {
            &&& is_valid_text(retry.call_id)
            &&& is_valid_text(retry.event_id)
            &&& match retry.review {
                Some(review) => is_valid_review(review),
                None => true,
            }
        },
        None => true,
    }
}

pub fn validate_operation(operation: &ToolOperation) -> (result: Result<(), ToolRetryError>)
    ensures
        result == if is_valid_operation(operation@) {
            Ok::<(), ToolRetryError>(())
        } else {
            Err(ToolRetryError::InvalidEvidence)
        },
{
    match validate_tool_contract(&operation.contract) {
        Err(e) => {
            return Err(e);
        },
        Ok(_) => {},
    }
    if !text_valid(operation.task_id.as_str()) || !text_valid(operation.key.as_str()) {
        return Err(ToolRetryError::InvalidEvidence);
    }
    match &operation.retry {
        Some(retry) => {
            if !text_valid(retry.call_id.as_str()) || !text_valid(retry.event_id.as_str()) {
                return Err(ToolRetryError::InvalidEvidence);
            }
            match &retry.review {
                Some(review) => validate_review(review),
                None => Ok(()),
            }
        },
        None => Ok(()),
    }
}

pub fn validate_review(review: &ToolRetryReview) -> (result: Result<(), ToolRetryError>)
    ensures
        result == if is_valid_review(review@) {
            Ok::<(), ToolRetryError>(())
        } else {
            Err(ToolRetryError::InvalidEvidence)
        },
{
    if !text_valid(review.actor.as_str()) || !text_valid(review.evidence.as_str()) {
        return Err(ToolRetryError::InvalidEvidence);
    }
    Ok(())
}

// ---- what a history says of its calls ----

/// The call that an event records.
pub open spec fn call_of(event: SessionEventView) -> Option<ToolCallView> {
    match event.kind {
        SessionEventKindView::ToolCall { call } => Some(call),
        _ => None,
    }
}

/// The result that an event records.
pub open spec fn result_of(event: SessionEventView) -> Option<ToolResultView> {
    match event.kind {
        SessionEventKindView::ToolResult { result } => Some(result),
        _ => None,
    }
}

/// The last of the first `n` events that records the call of that identity.
pub open spec fn call_before(events: Seq<SessionEventView>, id: Seq<char>, n: int) -> Option<int>
    decreases n,
{
    if n <= 0 {
        None
    } else if call_of(events[n - 1]) is Some && call_of(events[n - 1])->0.id == id {
        Some(n - 1)
    } else {
        call_before(events, id, n - 1)
    }
}

/// The last of the first `n` events that records a result of the call.
pub open spec fn result_before(events: Seq<SessionEventView>, id: Seq<char>, n: int) -> Option<int>
    decreases n,
{
    if n <= 0 {
        None
    } else if result_of(events[n - 1]) is Some && result_of(events[n - 1])->0.call_id == id {
        Some(n - 1)
    } else {
        result_before(events, id, n - 1)
    }
}

/// The event records an attempt at the operation.
pub open spec fn attempts(event: SessionEventView, task: Seq<char>, key: Seq<char>) -> bool {
    match call_of(event) {
        Some(call) => match call.operation {
            Some(op) => op.task_id == task && op.key == key,
            None => false,
        },
        None => false,
    }
}

/// The last attempt at the operation among the first `n` events.
pub open spec fn attempt_before(events: Seq<SessionEventView>, task: Seq<char>, key: Seq<char>, n: int) -> Option<int>
    decreases n,
{
    if n <= 0 {
        None
    } else if attempts(events[n - 1], task, key) {
        Some(n - 1)
    } else {
        attempt_before(events, task, key, n - 1)
    }
}

/// Why the `k`th event cannot be, after those before it, if it cannot. An attempt names
/// the attempt before it and repeats it unchanged; a first attempt names none.
pub open spec fn evidence_fault(events: Seq<SessionEventView>, k: int) -> Option<ToolRetryError> {
    match events[k].kind {
        SessionEventKindView::ToolCall { call } => if !is_valid_text(call.id) || call.name.len()
            == 0 || byte_len(call.name) > MAX_TOOL_NAME_BYTES || call_before(events, call.id, k)
            is Some {
            Some(ToolRetryError::InvalidEvidence)
        } else {
            match call.operation {
                None => None,
                Some(op) => if !is_valid_operation(op) {
                    Some(ToolRetryError::InvalidEvidence)
                } else {
                    match attempt_before(events, op.task_id, op.key, k) {
                        Some(p) => {
                            let earlier = call_of(events[p])->0;
                            if earlier.name != call.name || !same_value(earlier.arguments, call.arguments)
                                || earlier.operation->0.contract != op.contract {
                                Some(ToolRetryError::BindingChanged)
                            } else if op.retry is None || op.retry->0.call_id != earlier.id
                                || op.retry->0.event_id != events[p].event_id {
                                Some(ToolRetryError::InvalidEvidence)
                            } else {
                                None
                            }
                        },
                        None => if op.retry is Some {
                            Some(ToolRetryError::InvalidEvidence)
                        } else {
                            None
                        },
                    }
                },
            }
        },
        SessionEventKindView::ToolResult { result } => match call_before(
            events,
            result.call_id,
            k,
        ) {
            None => Some(ToolRetryError::InvalidEvidence),
            Some(c) => if events[c].turn_id != events[k].turn_id || result_before(
                events,
                result.call_id,
                k,
            ) is Some {
                Some(ToolRetryError::InvalidEvidence)
            } else {
                None
            },
        },
        _ => None,
    }
}

/// The first fault from the `k`th event on.
pub open spec fn evidence_fault_from(events: Seq<SessionEventView>, k: int) -> Option<ToolRetryError>
    decreases events.len() - k,
{
    if k < 0 || k >= events.len() {
        None
    } else {
        match evidence_fault(events, k) {
            Some(fault) => Some(fault),
            None => evidence_fault_from(events, k + 1),
        }
    }
}

/// An attempt by another call at the same operation succeeded.
pub open spec fn another_succeeded(events: Seq<SessionEventView>, call: ToolCallView) -> bool {
    exists|i: int| 0 <= i < events.len() && #[trigger] is_other_success(events, call, i)
}

pub open spec fn is_other_success(events: Seq<SessionEventView>, call: ToolCallView, i: int) -> bool {
    &&& attempts(events[i], call.operation->0.task_id, call.operation->0.key)
    &&& call_of(events[i])->0.id != call.id
    &&& match result_before(events, call_of(events[i])->0.id, events.len() as int) {
        Some(r) => result_of(events[r])->0.outcome is Succeeded,
        None => false,
    }
}

/// The call is not shown by the history, or may not be tried again by what it shows.
pub open spec fn history_fault(events: Seq<SessionEventView>, bytes: usize, call_id: Seq<char>) -> Option<
    ToolRetryError,
> {
    if events.len() == 0 || events.len() > MAX_HISTORY_EVENTS || !is_valid_text(call_id) || bytes
        > MAX_HISTORY_BYTES || log::log_fault(events, events[0].session_id) is Some {
        Some(ToolRetryError::InvalidEvidence)
    } else if let Some(fault) = evidence_fault_from(events, 0) {
        Some(fault)
    } else {
        match call_before(events, call_id, events.len() as int) {
            None => Some(ToolRetryError::InvalidEvidence),
            Some(c) => {
                let call = call_of(events[c])->0;
                match call.operation {
                    None => None,
                    Some(op) => {
                        let latest = attempt_before(
                            events,
                            op.task_id,
                            op.key,
                            events.len() as int,
                        );
                        if latest is Some && call_of(events[latest->0])->0.id != call_id {
                            Some(ToolRetryError::NotLatestAttempt)
                        } else if another_succeeded(events, call) {
                            Some(ToolRetryError::Completed)
                        } else {
                            None
                        }
                    },
                }
            },
        }
    }
}

/// What the recorded result shows. That a failure calls itself retryable shows nothing.
pub open spec fn status_of(result: Option<ToolResultView>) -> ToolRecoveryStatus {
    match result {
        None => ToolRecoveryStatus::OutcomeUnknown,
        Some(result) => match result.outcome {
            ToolRecordedOutcomeView::Succeeded { .. } => ToolRecoveryStatus::Completed,
            ToolRecordedOutcomeView::Failed { category, .. } => if is_refusal(category) {
                ToolRecoveryStatus::NotExecuted
            } else {
                ToolRecoveryStatus::OutcomeUnknown
            },
        },
    }
}

/// The call was turned down before its tool could run.
pub open spec fn is_refusal(category: ToolFailureCategory) -> bool {
    match category {
        ToolFailureCategory::Unavailable => true,
        ToolFailureCategory::InvalidArguments => true,
        ToolFailureCategory::Denied => true,
        ToolFailureCategory::GuardFault => true,
        ToolFailureCategory::ApprovalUnavailable => true,
        ToolFailureCategory::ApprovalDenied => true,
        ToolFailureCategory::ApprovalFault => true,
        _ => false,
    }
}

/// The recorded result of a call, if any.
pub open spec fn recorded_result(events: Seq<SessionEventView>, call_id: Seq<char>) -> Option<ToolResultView> {
    match result_before(events, call_id, events.len() as int) {
        Some(r) => result_of(events[r]),
        None => None,
    }
}

fn recorded_call(event: &SessionEvent) -> (call: Option<&ToolCall>)
    ensures
        match call {
            Some(call) => call_of(event@) == Some(call@),
            None => call_of(event@) is None,
        },
{
    match &event.kind {
        SessionEventKind::ToolCall { call } => Some(call),
        _ => None,
    }
}

fn result_in(event: &SessionEvent) -> (result: Option<&ToolResult>)
    ensures
        match result {
            Some(result) => result_of(event@) == Some(result@),
            None => result_of(event@) is None,
        },
{
    match &event.kind {
        SessionEventKind::ToolResult { result } => Some(result),
        _ => None,
    }
}

fn find_call(history: &Vec<SessionEvent>, id: &str, n: usize) -> (found: Option<usize>)
    requires
        n <= history@.len(),
    ensures
        match found {
            Some(i) => call_before(history.deep_view(), id@, n as int) == Some(i as int) && i < n
                && call_of(history@[i as int]@) is Some && call_of(history@[i as int]@)->0.id == id@,
            None => call_before(history.deep_view(), id@, n as int) is None,
        },
{
    let ghost views = history.deep_view();
    let mut i: usize = n;
    while i > 0
        invariant
            i <= n <= history@.len(),
            views == history.deep_view(),
            call_before(views, id@, n as int) == call_before(views, id@, i as int),
        decreases i,
    {
        assert(views[i - 1] == history@[i - 1]@);
        match recorded_call(&history[i - 1]) {
            Some(call) => {
                if same_text(call.id.as_str(), id) {
                    return Some(i - 1);
                }
            },
            None => {},
        }
        i = i - 1;
    }
    None
}

fn find_result(history: &Vec<SessionEvent>, id: &str, n: usize) -> (found: Option<usize>)
    requires
        n <= history@.len(),
    ensures
        match found {
            Some(i) => result_before(history.deep_view(), id@, n as int) == Some(i as int) && i < n
                && result_of(history@[i as int]@) is Some,
            None => result_before(history.deep_view(), id@, n as int) is None,
        },
{
    let ghost views = history.deep_view();
    let mut i: usize = n;
    while i > 0
        invariant
            i <= n <= history@.len(),
            views == history.deep_view(),
            result_before(views, id@, n as int) == result_before(views, id@, i as int),
        decreases i,
    {
        assert(views[i - 1] == history@[i - 1]@);
        match result_in(&history[i - 1]) {
            Some(result) => {
                if same_text(result.call_id.as_str(), id) {
                    return Some(i - 1);
                }
            },
            None => {},
        }
        i = i - 1;
    }
    None
}

fn is_attempt(event: &SessionEvent, task: &TaskId, key: &str) -> (answer: bool)
    ensures
        answer == attempts(event@, task@, key@),
{
    match recorded_call(event) {
        Some(call) => match &call.operation {
            Some(op) => op.task_id.is_same(task) && same_text(op.key.as_str(), key),
            None => false,
        },
        None => false,
    }
}

fn find_attempt(history: &Vec<SessionEvent>, task: &TaskId, key: &str, n: usize) -> (found: Option<usize>)
    requires
        n <= history@.len(),
    ensures
        match found {
            Some(i) => attempt_before(history.deep_view(), task@, key@, n as int) == Some(i as int)
                && i < n && attempts(history@[i as int]@, task@, key@),
            None => attempt_before(history.deep_view(), task@, key@, n as int) is None,
        },
{
    let ghost views = history.deep_view();
    let mut i: usize = n;
    while i > 0
        invariant
            i <= n <= history@.len(),
            views == history.deep_view(),
            attempt_before(views, task@, key@, n as int) == attempt_before(
                views,
                task@,
                key@,
                i as int,
            ),
        decreases i,
    {
        assert(views[i - 1] == history@[i - 1]@);
        if is_attempt(&history[i - 1], task, key) {
            return Some(i - 1);
        }
        i = i - 1;
    }
    None
}

fn check_attempt(history: &Vec<SessionEvent>, call: &ToolCall, op: &ToolOperation, k: usize) -> (fault: Option<
    ToolRetryError,
>)
    requires
        k < history@.len(),
        call@.operation == Some(op@),
        is_valid_operation(op@),
    ensures
        fault == match attempt_before(history.deep_view(), op@.task_id, op@.key, k as int) {
            Some(p) => {
                let earlier = call_of(history.deep_view()[p])->0;
                if earlier.name != call@.name || !same_value(earlier.arguments, call@.arguments)
                    || earlier.operation->0.contract != op@.contract {
                    Some(ToolRetryError::BindingChanged)
                } else if op@.retry is None || op@.retry->0.call_id != earlier.id
                    || op@.retry->0.event_id != history.deep_view()[p].event_id {
                    Some(ToolRetryError::InvalidEvidence)
                } else {
                    None
                }
            },
            None => if op@.retry is Some {
                Some(ToolRetryError::InvalidEvidence)
            } else {
                None
            },
        },
{
    match find_attempt(history, &op.task_id, op.key.as_str(), k) {
        None => if op.retry.is_some() {
            Some(ToolRetryError::InvalidEvidence)
        } else {
            None
        },
        Some(p) => {
            assert(history.deep_view()[p as int] == history@[p as int]@);
            let earlier = match recorded_call(&history[p]) {
                Some(earlier) => earlier,
                None => {
                    return None;
                },
            };
            let contract_kept: bool = match &earlier.operation {
                Some(earlier_op) => earlier_op.contract.is_same(&op.contract),
                None => false,
            };
            if !same_text(earlier.name.as_str(), call.name.as_str()) || !earlier.arguments.is_same_value(
                &call.arguments,
            ) || !contract_kept {
                return Some(ToolRetryError::BindingChanged);
            }
            match &op.retry {
                None => Some(ToolRetryError::InvalidEvidence),
                Some(retry) => if !same_text(retry.call_id.as_str(), earlier.id.as_str())
                    || !retry.event_id.is_same(&history[p].event_id) {
                    Some(ToolRetryError::InvalidEvidence)
                } else {
                    None
                },
            }
        },
    }
}

fn is_empty_text(text: &str) -> (answer: bool)
    ensures
        answer == (text@.len() == 0),
{
    text.unicode_len() == 0
}

fn check_event(history: &Vec<SessionEvent>, k: usize) -> (fault: Option<ToolRetryError>)
    requires
        k < history@.len(),
    ensures
        fault == evidence_fault(history.deep_view(), k as int),
{
    let ghost views = history.deep_view();
    assert(views[k as int] == history@[k as int]@);
    match &history[k].kind {
        SessionEventKind::ToolCall { call } => {
            if !text_valid(call.id.as_str()) || is_empty_text(call.name.as_str()) || size(
                call.name.as_str(),
            ) > MAX_TOOL_NAME_BYTES || find_call(history, call.id.as_str(), k).is_some() {
                return Some(ToolRetryError::InvalidEvidence);
            }
            match &call.operation {
                None => None,
                Some(op) => {
                    if validate_operation(op).is_err() {
                        return Some(ToolRetryError::InvalidEvidence);
                    }
                    check_attempt(history, call, op, k)
                },
            }
        },
        SessionEventKind::ToolResult { result } => {
            match find_call(history, result.call_id.as_str(), k) {
                None => Some(ToolRetryError::InvalidEvidence),
                Some(c) => {
                    assert(views[c as int] == history@[c as int]@);
                    if !history[c].turn_id.is_same(&history[k].turn_id) || find_result(
                        history,
                        result.call_id.as_str(),
                        k,
                    ).is_some() {
                        Some(ToolRetryError::InvalidEvidence)
                    } else {
                        None
                    }
                },
            }
        },
        _ => None,
    }
}

fn check_events(history: &Vec<SessionEvent>) -> (fault: Option<ToolRetryError>)
    ensures
        fault == evidence_fault_from(history.deep_view(), 0),
{
    let ghost views = history.deep_view();
    let mut k: usize = 0;
    while k < history.len()
        invariant
            k <= history@.len(),
            views == history.deep_view(),
            evidence_fault_from(views, 0) == evidence_fault_from(views, k as int),
        decreases history@.len() - k,
    {
        match check_event(history, k) {
            Some(fault) => {
                return Some(fault);
            },
            None => {},
        }
        k = k + 1;
    }
    None
}

fn succeeded_elsewhere(history: &Vec<SessionEvent>, call: &ToolCall, op: &ToolOperation) -> (answer: bool)
    requires
        call@.operation == Some(op@),
    ensures
        answer == another_succeeded(history.deep_view(), call@),
{
    let ghost views = history.deep_view();
    let mut i: usize = 0;
    while i < history.len()
        invariant
            i <= history@.len(),
            views == history.deep_view(),
            call@.operation == Some(op@),
            forall|k: int| 0 <= k < i ==> !#[trigger] is_other_success(views, call@, k),
        decreases history@.len() - i,
    {
        assert(views[i as int] == history@[i as int]@);
        if is_attempt(&history[i], &op.task_id, op.key.as_str()) {
            match recorded_call(&history[i]) {
                Some(other) => {
                    if !same_text(other.id.as_str(), call.id.as_str()) {
                        match find_result(history, other.id.as_str(), history.len()) {
                            Some(r) => {
                                assert(views[r as int] == history@[r as int]@);
                                match result_in(&history[r]) {
                                    Some(result) => match &result.outcome {
                                        ToolRecordedOutcome::Succeeded { .. } => {
                                            assert(is_other_success(views, call@, i as int));
                                            return true;
                                        },
                                        _ => {},
                                    },
                                    None => {},
                                }
                            },
                            None => {},
                        }
                    }
                },
                None => {},
            }
        }
        i = i + 1;
    }
    false
}

/// Where the history shows the call and, if recorded, its result. The host passes how
/// many bytes the history takes when it is written out.
fn evidence(history: &Vec<SessionEvent>, bytes: usize, call_id: &str) -> (result: Result<
    (usize, Option<usize>),
    ToolRetryError,
>)
    ensures
        match result {
            Err(e) => history_fault(history.deep_view(), bytes, call_id@) == Some(e),
            Ok((c, r)) => {
                let views = history.deep_view();
                &&& history_fault(views, bytes, call_id@) is None
                &&& call_before(views, call_id@, views.len() as int) == Some(c as int)
                &&& c < history@.len()
                &&& call_of(history@[c as int]@) is Some
                &&& match r {
                    Some(r) => r < history@.len() && result_before(
                        views,
                        call_id@,
                        views.len() as int,
                    ) == Some(r as int) && result_of(history@[r as int]@) is Some,
                    None => result_before(views, call_id@, views.len() as int) is None,
                }
            },
        },
{
    let ghost views = history.deep_view();
    if history.len() == 0 || history.len() > MAX_HISTORY_EVENTS || !text_valid(call_id) {
        return Err(ToolRetryError::InvalidEvidence);
    }
    if bytes > MAX_HISTORY_BYTES {
        return Err(ToolRetryError::InvalidEvidence);
    }
    assert(views[0] == history@[0]@);
    if log::validate_physical_log(&history[0].session_id, history).is_err() {
        return Err(ToolRetryError::InvalidEvidence);
    }
    match check_events(history) {
        Some(fault) => {
            return Err(fault);
        },
        None => {},
    }
    let c: usize = match find_call(history, call_id, history.len()) {
        Some(c) => c,
        None => {
            return Err(ToolRetryError::InvalidEvidence);
        },
    };
    assert(views[c as int] == history@[c as int]@);
    match recorded_call(&history[c]) {
        Some(call) => match &call.operation {
            Some(op) => {
                match find_attempt(history, &op.task_id, op.key.as_str(), history.len()) {
                    Some(latest) => {
                        assert(views[latest as int] == history@[latest as int]@);
                        match recorded_call(&history[latest]) {
                            Some(newest) => {
                                if !same_text(newest.id.as_str(), call_id) {
                                    return Err(ToolRetryError::NotLatestAttempt);
                                }
                            },
                            None => {},
                        }
                    },
                    None => {},
                }
                if succeeded_elsewhere(history, call, op) {
                    return Err(ToolRetryError::Completed);
                }
            },
            None => {},
        },
        None => {},
    }
    Ok((c, find_result(history, call_id, history.len())))
}

/// What a full, confirmed history says of a call.
pub fn inspect_tool_recovery(history: &Vec<SessionEvent>, bytes: usize, call_id: &str) -> (result: Result<
    ToolRecoveryAssessment,
    ToolRetryError,
>)
    ensures
        match result {
            Err(e) => history_fault(history.deep_view(), bytes, call_id@) == Some(e),
            Ok(found) => {
                let views = history.deep_view();
                &&& history_fault(views, bytes, call_id@) is None
                &&& Some(found.call@) == call_of(
                    views[call_before(views, call_id@, views.len() as int)->0],
                )
                &&& found.result.deep_view() == recorded_result(views, call_id@)
                &&& found.status == status_of(recorded_result(views, call_id@))
            },
        },
{
    let (c, r) = match evidence(history, bytes, call_id) {
        Err(e) => {
            return Err(e);
        },
        Ok(found) => found,
    };
    let ghost views = history.deep_view();
    assert(views[c as int] == history@[c as int]@);
    let call = match recorded_call(&history[c]) {
        Some(call) => call.duplicate(),
        None => {
            return Err(ToolRetryError::InvalidEvidence);
        },
    };
    let found: Option<&ToolResult> = match r {
        Some(r) => {
            assert(views[r as int] == history@[r as int]@);
            result_in(&history[r])
        },
        None => None,
    };
    match found {
        None => Ok(
            ToolRecoveryAssessment { call, result: None, status: ToolRecoveryStatus::OutcomeUnknown },
        ),
        Some(found) => {
            let status = match &found.outcome {
                ToolRecordedOutcome::Succeeded { .. } => ToolRecoveryStatus::Completed,
                ToolRecordedOutcome::Failed { category, .. } => if refusal(*category) {
                    ToolRecoveryStatus::NotExecuted
                } else {
                    ToolRecoveryStatus::OutcomeUnknown
                },
            };
            Ok(ToolRecoveryAssessment { call, result: Some(found.duplicate()), status })
        },
    }
}

fn refusal(category: ToolFailureCategory) -> (answer: bool)
    ensures
        answer == is_refusal(category),
{
    match category {
        ToolFailureCategory::Unavailable => true,
        ToolFailureCategory::InvalidArguments => true,
        ToolFailureCategory::Denied => true,
        ToolFailureCategory::GuardFault => true,
        ToolFailureCategory::ApprovalUnavailable => true,
        ToolFailureCategory::ApprovalDenied => true,
        ToolFailureCategory::ApprovalFault => true,
        _ => false,
    }
}

/// Evidence that one more attempt may be made, once. It is no permission to run
/// anything.
#[derive(Debug, PartialEq, Eq)]
pub struct ToolRetryPlan {
    source: ToolCall,
    session: SessionId,
    source_event: EventId,
    review: Option<ToolRetryReview>,
    consumed: bool,
}

pub struct RetryPlanView {
    pub source: ToolCallView,
    pub session: Seq<char>,
    pub source_event: Seq<char>,
    pub review: Option<ToolRetryReviewView>,
    pub consumed: bool,
}

/// Why a review and a history do not allow one more attempt, if they do not.
pub open spec fn retry_fault(
    events: Seq<SessionEventView>,
    bytes: usize,
    call_id: Seq<char>,
    review: Option<ToolRetryReviewView>,
) -> Option<ToolRetryError> {
    if review is Some && !is_valid_review(review->0) {
        Some(ToolRetryError::InvalidEvidence)
    } else if let Some(fault) = history_fault(events, bytes, call_id) {
        Some(fault)
    } else {
        let call = call_of(events[call_before(events, call_id, events.len() as int)->0])->0;
        let status = status_of(recorded_result(events, call_id));
        if status == ToolRecoveryStatus::Completed || (review is Some && review->0.outcome
            == ToolReviewOutcome::Completed) {
            Some(ToolRetryError::Completed)
        } else if call.operation is None {
            Some(ToolRetryError::LegacyCall)
        } else if status != ToolRecoveryStatus::NotExecuted && !(review is Some && review->0.outcome
            == ToolReviewOutcome::NotExecuted) && call.operation->0.contract.effect
            != ToolEffect::ReadOnly && call.operation->0.contract.effect != ToolEffect::Idempotent {
            Some(ToolRetryError::NeedsReview)
        } else {
            None
        }
    }
}

impl ToolRetryPlan {
    pub closed spec fn view(&self) -> RetryPlanView {
        RetryPlanView {
            source: self.source@,
            session: self.session@,
            source_event: self.source_event@,
            review: self.review.deep_view(),
            consumed: self.consumed,
        }
    }

    /// Uses the plan for an attempt that repeats the call unchanged. A plan that was
    /// used stays used, whatever becomes of the attempt.
    pub fn take_operation(
        &mut self,
        session: &SessionId,
        task: &TaskId,
        name: &str,
        arguments: &Json,
        contract: &ToolEffectContract,
    ) -> (result: Result<ToolOperation, ToolRetryError>)
        ensures
            ({
                let plan = old(self)@;
                let op = plan.source.operation;
                if op is None {
                    result == Err::<ToolOperation, ToolRetryError>(ToolRetryError::LegacyCall)
                } else if plan.session != session@ || op->0.task_id != task@ || plan.source.name
                    != name@ || !same_value(plan.source.arguments, arguments@) || op->0.contract
                    != contract@ {
                    result == Err::<ToolOperation, ToolRetryError>(ToolRetryError::BindingChanged)
                } else if plan.consumed {
                    result == Err::<ToolOperation, ToolRetryError>(ToolRetryError::Consumed)
                } else {
                    result matches Ok(taken) && taken@ == (ToolOperationView {
                        retry: Some(
                            ToolRetryAuditView {
                                call_id: plan.source.id,
                                event_id: plan.source_event,
                                review: plan.review,
                            },
                        ),
                        ..op->0
                    })
                }
            }),
            final(self)@ == (RetryPlanView {
                consumed: old(self)@.consumed || result is Ok,
                ..old(self)@
            }),
    {
        match &self.source.operation {
            None => {
                return Err(ToolRetryError::LegacyCall);
            },
            Some(op) => {
                if !self.session.is_same(session) || !op.task_id.is_same(task) || !same_text(
                    self.source.name.as_str(),
                    name,
                ) || !self.source.arguments.is_same_value(arguments) || !op.contract.is_same(contract) {
                    return Err(ToolRetryError::BindingChanged);
                }
            },
        }
        if self.consumed {
            return Err(ToolRetryError::Consumed);
        }
        self.consumed = true;
        match &self.source.operation {
            None => Err(ToolRetryError::LegacyCall),
            Some(op) => {
                let mut taken = op.duplicate();
                taken.retry = Some(
                    ToolRetryAudit {
                        call_id: self.source.id.duplicate(),
                        event_id: self.source_event.duplicate(),
                        review: self.review.duplicate(),
                    },
                );
                Ok(taken)
            },
        }
    }
}

/// Prepares one more attempt at a call. What read only or may be repeated can be tried
/// again on doubt; anything else needs evidence that it did not run. Evidence of
/// completion always prevails.
pub fn prepare_tool_retry(
    history: &Vec<SessionEvent>,
    bytes: usize,
    call_id: &str,
    review: Option<ToolRetryReview>,
) -> (result: Result<ToolRetryPlan, ToolRetryError>)
    ensures
        match result {
            Err(e) => retry_fault(history.deep_view(), bytes, call_id@, review.deep_view()) == Some(e),
            Ok(plan) => {
                let views = history.deep_view();
                let c = call_before(views, call_id@, views.len() as int)->0;
                &&& retry_fault(views, bytes, call_id@, review.deep_view()) is None
                &&& plan@ == (RetryPlanView {
                    source: call_of(views[c])->0,
                    session: views[c].session_id,
                    source_event: views[c].event_id,
                    review: review.deep_view(),
                    consumed: false,
                })
            },
        },
{
    match &review {
        Some(review) => {
            if validate_review(review).is_err() {
                return Err(ToolRetryError::InvalidEvidence);
            }
        },
        None => {},
    }
    let assessment = match inspect_tool_recovery(history, bytes, call_id) {
        Err(e) => {
            return Err(e);
        },
        Ok(assessment) => assessment,
    };
    let reviewed: Option<ToolReviewOutcome> = match &review {
        Some(review) => Some(review.outcome),
        None => None,
    };
    if assessment.status == ToolRecoveryStatus::Completed || reviewed == Some(
        ToolReviewOutcome::Completed,
    ) {
        return Err(ToolRetryError::Completed);
    }
    match &assessment.call.operation {
        None => {
            return Err(ToolRetryError::LegacyCall);
        },
        Some(op) => {
            if assessment.status != ToolRecoveryStatus::NotExecuted && reviewed != Some(
                ToolReviewOutcome::NotExecuted,
            ) && op.contract.effect != ToolEffect::ReadOnly && op.contract.effect
                != ToolEffect::Idempotent {
                return Err(ToolRetryError::NeedsReview);
            }
        },
    }
    match evidence(history, bytes, call_id) {
        Err(e) => Err(e),
        Ok((c, _)) => {
            assert(history.deep_view()[c as int] == history@[c as int]@);
            Ok(
                ToolRetryPlan {
                    source: assessment.call,
                    session: history[c].session_id.duplicate(),
                    source_event: history[c].event_id.duplicate(),
                    review,
                    consumed: false,
                },
            )
        },
    }
}

/// Nothing that is known to have completed is tried again, and what may have taken
/// effect is tried again only where repeating it is harmless or a host vouches that it
/// did not run.
pub proof fn retries_are_safe(
    events: Seq<SessionEventView>,
    bytes: usize,
    call_id: Seq<char>,
    review: Option<ToolRetryReviewView>,
)
    requires
        retry_fault(events, bytes, call_id, review) is None,
    ensures
        ({
            let call = call_of(events[call_before(events, call_id, events.len() as int)->0])->0;
            let status = status_of(recorded_result(events, call_id));
            &&& call.operation is Some
            &&& status != ToolRecoveryStatus::Completed
            &&& !another_succeeded(events, call)
            &&& status == ToolRecoveryStatus::OutcomeUnknown ==> (review is Some
                && review->0.outcome == ToolReviewOutcome::NotExecuted)
                || call.operation->0.contract.effect == ToolEffect::ReadOnly
                || call.operation->0.contract.effect == ToolEffect::Idempotent
        }),
{
}

} // verus!
