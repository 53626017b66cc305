//! What the full history of a session says of a task: what is settled and what is open.

use crate::budget::checkpoint::{BudgetEventCursor, CursorView};
use crate::budget::execution::{cursor_of, is_terminal};
use crate::budget::vocabulary::{BudgetEventCounts, BudgetIdentity, IdentityView, TaskRunReport};
use crate::id::{StepId, TurnId};
use crate::record::Record;
use crate::session::event::{SessionEvent, SessionEventKind, SessionEventKindView, SessionEventView};
use crate::session::log;
use crate::text::{is_bounded_text, same_text, text_within};
use vstd::prelude::*;

verus! {

pub const MAX_TASK_HISTORY_EVENTS: usize = 100_000;

pub const MAX_TASK_STEPS: usize = 4096;

/// Texts that name something have at most this many bytes.
pub const MAX_TASK_TEXT_BYTES: usize = 4096;

#[derive(Debug, PartialEq, Eq)]
pub enum TaskStateError {
    Invalid(&'static str),
    /// The state exceeds its resource limit.
    Limit,
    /// The task identity differs.
    IdentityMismatch,
    /// Agent, policy, tool or payload schema contract differs.
    Incompatible,
    RevisionMismatch { expected: u64, actual: u64 },
    RevisionExhausted,
    /// The history contains unfinished work; host review is required.
    NeedsReview,
    /// The snapshot does not match canonical evidence.
    EvidenceMismatch,
    /// The budget boundary is rejected.
    Budget(crate::budget::execution::BudgetExecutionError),
    /// The snapshot cannot be decoded.
    Encoding,
}

#[derive(Clone, Copy, Debug, PartialEq, Eq, Structural)]
pub enum TaskOperationKind {
    Model,
    Tool,
}

/// An operation without a result: its outcome is unknown, and nothing permits running
/// it again.
#[derive(Debug, PartialEq, Eq)]
pub struct UnresolvedTaskOperation {
    pub kind: TaskOperationKind,
    pub call_id: String,
    pub intent: BudgetEventCursor,
    pub step_id: Option<StepId>,
}

pub struct UnresolvedView {
    pub kind: TaskOperationKind,
    pub call_id: Seq<char>,
    pub intent: CursorView,
    pub step_id: Option<Seq<char>>,
}

impl UnresolvedTaskOperation {
    pub open spec fn view(&self) -> UnresolvedView {
        UnresolvedView {
            kind: self.kind,
            call_id: self.call_id@,
            intent: self.intent@,
            step_id: self.step_id.deep_view(),
        }
    }
}

impl DeepView for UnresolvedTaskOperation {
    type V = UnresolvedView;

    open spec fn deep_view(&self) -> UnresolvedView {
        self@
    }
}

#[derive(Debug, PartialEq, Eq)]
pub enum TaskHistoryBoundary {
    Empty,
    Closed,
    Open { turn_id: TurnId },
}

pub enum BoundaryView {
    Empty,
    Closed,
    Open(Seq<char>),
}

impl TaskHistoryBoundary {
    pub open spec fn view(&self) -> BoundaryView {
        match self {
            TaskHistoryBoundary::Empty => BoundaryView::Empty,
            TaskHistoryBoundary::Closed => BoundaryView::Closed,
            TaskHistoryBoundary::Open { turn_id } => BoundaryView::Open(turn_id@),
        }
    }
}

#[derive(Debug, PartialEq, Eq)]
pub struct TaskHistoryAssessment {
    pub boundary: TaskHistoryBoundary,
    pub settled_steps: Vec<StepId>,
    pub unresolved: Vec<UnresolvedTaskOperation>,
}

// ---- single events ----

/// The text names something.
pub open spec fn is_naming(value: Seq<char>) -> bool {
    is_bounded_text(value, MAX_TASK_TEXT_BYTES as nat)
}

/// The error for a text that names nothing.
pub open spec fn unnamed() -> TaskStateError {
    TaskStateError::Invalid("empty or oversized identity/revision")
}

pub fn valid_text(value: &str) -> (result: Result<(), TaskStateError>)
    ensures
        result == if is_naming(value@) {
            Ok::<(), TaskStateError>(())
        } else {
            Err(unnamed())
        },
{
    if text_within(value, MAX_TASK_TEXT_BYTES) {
        Ok(())
    } else {
        Err(TaskStateError::Invalid("empty or oversized identity/revision"))
    }
}

/// The operation that an event starts.
pub open spec fn opens(event: SessionEventView) -> Option<(TaskOperationKind, Seq<char>)> {
    match event.kind {
        SessionEventKindView::ModelRequest { request } => Some(
            (TaskOperationKind::Model, request.call_id),
        ),
        SessionEventKindView::ToolCall { call } => Some((TaskOperationKind::Tool, call.id)),
        _ => None,
    }
}

/// The operation that an event settles.
pub open spec fn settles(event: SessionEventView) -> Option<(TaskOperationKind, Seq<char>)> {
    match event.kind {
        SessionEventKindView::ModelResult { result } => Some(
            (TaskOperationKind::Model, result.call_id),
        ),
        SessionEventKindView::ToolResult { result } => Some(
            (TaskOperationKind::Tool, result.call_id),
        ),
        _ => None,
    }
}

/// The step of the task that an operation belongs to.
pub open spec fn step_of(event: SessionEventView, task: Seq<char>) -> Option<Seq<char>> {
    match event.kind {
        SessionEventKindView::ModelRequest { request } => match request.options.context {
            Some(context) => if context.task_id == task {
                Some(context.step_id)
            } else {
                None
            },
            None => None,
        },
        SessionEventKindView::ToolCall { call } => match call.action {
            Some(action) => if action.decision.task_id == task {
                Some(action.decision.step_id)
            } else {
                None
            },
            None => None,
        },
        _ => None,
    }
}

fn opened_by(event: &SessionEvent) -> (opened: Option<(TaskOperationKind, &str)>)
    ensures
        match opened {
            Some((kind, id)) => opens(event@) == Some((kind, id@)),
            None => opens(event@) is None,
        },
{
    match &event.kind {
        SessionEventKind::ModelRequest { request } => Some(
            (TaskOperationKind::Model, request.call_id.as_str()),
        ),
        SessionEventKind::ToolCall { call } => Some((TaskOperationKind::Tool, call.id.as_str())),
        _ => None,
    }
}

fn settled_by(event: &SessionEvent) -> (settled: Option<(TaskOperationKind, &str)>)
    ensures
        match settled {
            Some((kind, id)) => settles(event@) == Some((kind, id@)),
            None => settles(event@) is None,
        },
{
    match &event.kind {
        SessionEventKind::ModelResult { result } => Some(
            (TaskOperationKind::Model, result.call_id.as_str()),
        ),
        SessionEventKind::ToolResult { result } => Some(
            (TaskOperationKind::Tool, result.call_id.as_str()),
        ),
        _ => None,
    }
}

fn step_in<'a>(event: &'a SessionEvent, identity: &BudgetIdentity) -> (step: Option<&'a StepId>)
    ensures
        match step {
            Some(step) => step_of(event@, identity@.task) == Some(step@),
            None => step_of(event@, identity@.task) is None,
        },
{
    match &event.kind {
        SessionEventKind::ModelRequest { request } => match &request.options.context {
            Some(context) => if context.task_id.is_same(&identity.task_id) {
                Some(&context.step_id)
            } else {
                None
            },
            None => None,
        },
        SessionEventKind::ToolCall { call } => match &call.action {
            Some(action) => if action.decision.task_id.is_same(&identity.task_id) {
                Some(&action.decision.step_id)
            } else {
                None
            },
            None => None,
        },
        _ => None,
    }
}

// ---- what went before ----

/// The last of the first `n` events that starts the operation.
pub open spec fn intent_before(events: Seq<SessionEventView>, operation: (TaskOperationKind, Seq<char>), n: int) -> Option<int>
    decreases n,
{
    if n <= 0 {
        None
    } else if opens(events[n - 1]) == Some(operation) {
        Some(n - 1)
    } else {
        intent_before(events, operation, n - 1)
    }
}

/// One of the first `n` events settles the operation.
pub open spec fn settled_before(events: Seq<SessionEventView>, operation: (TaskOperationKind, Seq<char>), n: int) -> bool
    decreases n,
{
    n > 0 && (settles(events[n - 1]) == Some(operation) || settled_before(events, operation, n - 1))
}

/// One of the first `n` events belongs to the turn.
pub open spec fn turn_before(events: Seq<SessionEventView>, turn: Seq<char>, n: int) -> bool
    decreases n,
{
    n > 0 && (events[n - 1].turn_id == turn || turn_before(events, turn, n - 1))
}

/// The event starts another turn than the one before it.
pub open spec fn starts_turn(events: Seq<SessionEventView>, k: int) -> bool {
    k == 0 || events[k - 1].turn_id != events[k].turn_id
}

/// Confirmed events of the turn of the `k`th, up to the `n`th.
pub open spec fn turn_counts(events: Seq<SessionEventView>, turn: Seq<char>, n: int) -> BudgetEventCounts
    decreases n,
{
    if n <= 0 {
        BudgetEventCounts::none()
    } else {
        let before = turn_counts(events, turn, n - 1);
        if events[n - 1].turn_id != turn {
            before
        } else {
            match events[n - 1].kind {
                SessionEventKindView::ModelRequest { .. } => BudgetEventCounts {
                    model_requests: (before.model_requests + 1) as u64,
                    ..before
                },
                SessionEventKindView::ModelResult { .. } => BudgetEventCounts {
                    model_results: (before.model_results + 1) as u64,
                    ..before
                },
                SessionEventKindView::ToolCall { .. } => BudgetEventCounts {
                    tool_calls: (before.tool_calls + 1) as u64,
                    ..before
                },
                SessionEventKindView::ToolResult { .. } => BudgetEventCounts {
                    tool_results: (before.tool_results + 1) as u64,
                    ..before
                },
                _ => before,
            }
        }
    }
}

/// The steps of the first `n` events, each once, in the order in which they were first
/// seen.
pub open spec fn steps_before(events: Seq<SessionEventView>, task: Seq<char>, n: int) -> Seq<Seq<char>>
    decreases n,
{
    if n <= 0 {
        Seq::empty()
    } else {
        let before = steps_before(events, task, n - 1);
        match step_of(events[n - 1], task) {
            Some(step) => if before.contains(step) {
                before
            } else {
                before.push(step)
            },
            None => before,
        }
    }
}

/// Whose event it is, how it is called and where it stands.
pub open spec fn address_fault(events: Seq<SessionEventView>, session: Seq<char>, k: int) -> Option<TaskStateError> {
    let event = events[k];
    if event.session_id != session {
        Some(TaskStateError::IdentityMismatch)
    } else if !is_naming(event.event_id) || !is_naming(event.turn_id) {
        Some(unnamed())
    } else if event.seq != k || log::id_repeats(events, k) {
        Some(TaskStateError::Invalid("physical event address"))
    } else {
        None
    }
}

/// Turns follow one another: each begins with what the user said, ends with its
/// terminal, and a final report is followed by the terminal alone.
pub open spec fn turn_fault(events: Seq<SessionEventView>, k: int) -> Option<TaskStateError> {
    let event = events[k];
    let closed = k == 0 || events[k - 1].is_terminal();
    if starts_turn(events, k) && (!closed || turn_before(events, event.turn_id, k)) {
        Some(TaskStateError::Invalid("interleaved or reopened turn"))
    } else if starts_turn(events, k) && !(event.kind is UserMessage) {
        Some(TaskStateError::Invalid("turn lacks user envelope"))
    } else if !starts_turn(events, k) && event.kind is UserMessage {
        Some(TaskStateError::Invalid("duplicate user envelope"))
    } else if !starts_turn(events, k) && closed {
        Some(TaskStateError::Invalid("event after terminal"))
    } else if !starts_turn(events, k) && events[k - 1].kind is TaskRunReport
        && !event.is_terminal() {
        Some(TaskStateError::Invalid("event after final report"))
    } else {
        None
    }
}

/// A result settles an open operation of its own turn, a report tells what the turn did,
/// and no operation is started twice.
pub open spec fn operation_fault(events: Seq<SessionEventView>, identity: IdentityView, k: int) -> Option<TaskStateError> {
    let event = events[k];
    if let Some(operation) = settles(event) {
        match intent_before(events, operation, k) {
            Some(i) => if settled_before(events, operation, k) {
                Some(TaskStateError::Invalid("unmatched or repeated result"))
            } else if events[i].turn_id != event.turn_id {
                Some(TaskStateError::Invalid("result crossed turn"))
            } else {
                None
            },
            None => Some(TaskStateError::Invalid("unmatched or repeated result")),
        }
    } else if let SessionEventKindView::TaskRunReport { report } = event.kind {
        if report.budget.identity.session != identity.session {
            Some(TaskStateError::IdentityMismatch)
        } else if report.budget.run is None || report.budget.run->0.turn != Some(event.turn_id)
            || report.budget.run->0.metrics.confirmed != turn_counts(events, event.turn_id, k) {
            Some(TaskStateError::Invalid("report counts or turn mismatch"))
        } else {
            None
        }
    } else if let Some(operation) = opens(event) {
        if !is_naming(operation.1) {
            Some(unnamed())
        } else if intent_before(events, operation, k) is Some {
            Some(TaskStateError::Invalid("duplicate call ID"))
        } else {
            match step_of(event, identity.task) {
                Some(step) => if !is_naming(step) {
                    Some(unnamed())
                } else if steps_before(events, identity.task, k + 1).len() > MAX_TASK_STEPS {
                    Some(TaskStateError::Limit)
                } else {
                    None
                },
                None => None,
            }
        }
    } else {
        None
    }
}

/// Why the `k`th event cannot be, after those before it, if it cannot.
pub open spec fn event_fault(events: Seq<SessionEventView>, identity: IdentityView, k: int) -> Option<TaskStateError> {
    match address_fault(events, identity.session, k) {
        Some(fault) => Some(fault),
        None => match turn_fault(events, k) {
            Some(fault) => Some(fault),
            None => operation_fault(events, identity, k),
        },
    }
}

pub open spec fn event_fault_from(events: Seq<SessionEventView>, identity: IdentityView, k: int) -> Option<TaskStateError>
    decreases events.len() - k,
{
    if k < 0 || k >= events.len() {
        None
    } else {
        match event_fault(events, identity, k) {
            Some(fault) => Some(fault),
            None => event_fault_from(events, identity, k + 1),
        }
    }
}

/// Why a history says nothing of the task, if so.
pub open spec fn assessment_fault(identity: IdentityView, events: Seq<SessionEventView>) -> Option<TaskStateError> {
    if events.len() > MAX_TASK_HISTORY_EVENTS {
        Some(TaskStateError::Limit)
    } else if !is_naming(identity.task) || !is_naming(identity.session) || !is_naming(
        identity.agent,
    ) {
        Some(unnamed())
    } else {
        event_fault_from(events, identity, 0)
    }
}

/// The operations of the first `n` events that no event settles.
pub open spec fn unresolved_before(events: Seq<SessionEventView>, task: Seq<char>, n: int) -> Seq<UnresolvedView>
    decreases n,
{
    if n <= 0 {
        Seq::empty()
    } else {
        let before = unresolved_before(events, task, n - 1);
        match opens(events[n - 1]) {
            Some(operation) => if settled_before(events, operation, events.len() as int) {
                before
            } else {
                before.push(
                    UnresolvedView {
                        kind: operation.0,
                        call_id: operation.1,
                        intent: events[n - 1].cursor(),
                        step_id: step_of(events[n - 1], task),
                    },
                )
            },
            None => before,
        }
    }
}

/// The operations of a history that nothing settles, in their order.
pub open spec fn unresolved_of(events: Seq<SessionEventView>, task: Seq<char>) -> Seq<UnresolvedView> {
    unresolved_before(events, task, events.len() as int)
}

/// The step waits for an operation.
pub open spec fn is_pending_step(unresolved: Seq<UnresolvedView>, step: Seq<char>) -> bool {
    exists|i: int| 0 <= i < unresolved.len() && (#[trigger] unresolved[i]).step_id == Some(step)
}

/// The first `n` steps without those that wait for an operation.
pub open spec fn settled_among(steps: Seq<Seq<char>>, unresolved: Seq<UnresolvedView>) -> Seq<Seq<char>> {
    steps.filter(|step: Seq<char>| !is_pending_step(unresolved, step))
}

pub open spec fn settled_steps_of(events: Seq<SessionEventView>, task: Seq<char>) -> Seq<Seq<char>> {
    settled_among(steps_before(events, task, events.len() as int), unresolved_of(events, task))
}

pub open spec fn boundary_of(events: Seq<SessionEventView>) -> BoundaryView {
    if events.len() == 0 {
        BoundaryView::Empty
    } else if events.last().is_terminal() {
        BoundaryView::Closed
    } else {
        BoundaryView::Open(events.last().turn_id)
    }
}

fn same_operation(kind: TaskOperationKind, id: &str, other_kind: TaskOperationKind, other_id: &str) -> (answer: bool)
    ensures
        answer == ((kind, id@) == (other_kind, other_id@)),
{
    kind == other_kind && same_text(id, other_id)
}

fn find_intent(history: &Vec<SessionEvent>, kind: TaskOperationKind, id: &str, n: usize) -> (found: Option<usize>)
    requires
        n <= history@.len(),
    ensures
        match found {
            Some(i) => i < n && intent_before(history.deep_view(), (kind, id@), n as int) == Some(
                i as int,
            ),
            None => intent_before(history.deep_view(), (kind, id@), n as int) is None,
        },
{
    let ghost views = history.deep_view();
    let mut i: usize = n;
    while i > 0
        invariant
            i <= n <= history@.len(),
            views == history.deep_view(),
            intent_before(views, (kind, id@), n as int) == intent_before(
                views,
                (kind, id@),
                i as int,
            ),
        decreases i,
    {
        assert(views[i - 1] == history@[i - 1]@);
        match opened_by(&history[i - 1]) {
            Some((other, other_id)) => {
                if same_operation(kind, id, other, other_id) {
                    return Some(i - 1);
                }
            },
            None => {},
        }
        i = i - 1;
    }
    None
}

fn is_settled(history: &Vec<SessionEvent>, kind: TaskOperationKind, id: &str, n: usize) -> (answer: bool)
    requires
        n <= history@.len(),
    ensures
        answer == settled_before(history.deep_view(), (kind, id@), n as int),
{
    let ghost views = history.deep_view();
    let mut i: usize = n;
    while i > 0
        invariant
            i <= n <= history@.len(),
            views == history.deep_view(),
            settled_before(views, (kind, id@), n as int) == settled_before(
                views,
                (kind, id@),
                i as int,
            ),
        decreases i,
    {
        assert(views[i - 1] == history@[i - 1]@);
        match settled_by(&history[i - 1]) {
            Some((other, other_id)) => {
                if same_operation(kind, id, other, other_id) {
                    return true;
                }
            },
            None => {},
        }
        i = i - 1;
    }
    false
}

fn turn_seen(history: &Vec<SessionEvent>, turn: &TurnId, n: usize) -> (answer: bool)
    requires
        n <= history@.len(),
    ensures
        answer == turn_before(history.deep_view(), turn@, n as int),
{
    let ghost views = history.deep_view();
    let mut i: usize = n;
    while i > 0
        invariant
            i <= n <= history@.len(),
            views == history.deep_view(),
            turn_before(views, turn@, n as int) == turn_before(views, turn@, i as int),
        decreases i,
    {
        assert(views[i - 1] == history@[i - 1]@);
        if history[i - 1].turn_id.is_same(turn) {
            return true;
        }
        i = i - 1;
    }
    false
}

fn count_turn(history: &Vec<SessionEvent>, turn: &TurnId, n: usize) -> (counts: BudgetEventCounts)
    requires
        n <= history@.len(),
        n <= MAX_TASK_HISTORY_EVENTS,
    ensures
        counts == turn_counts(history.deep_view(), turn@, n as int),
{
    let ghost views = history.deep_view();
    let mut counts = BudgetEventCounts {
        model_requests: 0,
        model_results: 0,
        tool_calls: 0,
        tool_results: 0,
    };
    let mut i: usize = 0;
    while i < n
        invariant
            i <= n <= history@.len(),
            n <= MAX_TASK_HISTORY_EVENTS,
            views == history.deep_view(),
            counts == turn_counts(views, turn@, i as int),
            counts.model_requests <= i,
            counts.model_results <= i,
            counts.tool_calls <= i,
            counts.tool_results <= i,
        decreases n - i,
    {
        assert(views[i as int] == history@[i as int]@);
        if history[i].turn_id.is_same(turn) {
            match &history[i].kind {
                SessionEventKind::ModelRequest { .. } => {
                    counts.model_requests = counts.model_requests + 1;
                },
                SessionEventKind::ModelResult { .. } => {
                    counts.model_results = counts.model_results + 1;
                },
                SessionEventKind::ToolCall { .. } => {
                    counts.tool_calls = counts.tool_calls + 1;
                },
                SessionEventKind::ToolResult { .. } => {
                    counts.tool_results = counts.tool_results + 1;
                },
                _ => {},
            }
        }
        i = i + 1;
    }
    counts
}

fn has_step(steps: &Vec<StepId>, step: &StepId) -> (answer: bool)
    ensures
        answer == steps.deep_view().contains(step@),
{
    let ghost views = steps.deep_view();
    let mut i: usize = 0;
    while i < steps.len()
        invariant
            i <= steps@.len(),
            views == steps.deep_view(),
            forall|k: int| 0 <= k < i ==> #[trigger] views[k] != step@,
        decreases steps@.len() - i,
    {
        assert(views[i as int] == steps@[i as int]@);
        if steps[i].is_same(step) {
            assert(views.contains(step@));
            return true;
        }
        i = i + 1;
    }
    false
}

fn check_address(history: &Vec<SessionEvent>, identity: &BudgetIdentity, k: usize) -> (fault: Option<TaskStateError>)
    requires
        k < history@.len(),
    ensures
        fault == address_fault(history.deep_view(), identity@.session, k as int),
{
    assert(history.deep_view()[k as int] == history@[k as int]@);
    let event = &history[k];
    if !event.session_id.is_same(&identity.session_id) {
        return Some(TaskStateError::IdentityMismatch);
    }
    match valid_text(event.event_id.as_str()) {
        Err(e) => {
            return Some(e);
        },
        Ok(_) => {},
    }
    match valid_text(event.turn_id.as_str()) {
        Err(e) => {
            return Some(e);
        },
        Ok(_) => {},
    }
    if event.seq != k as u64 || log::repeats(history, k) {
        return Some(TaskStateError::Invalid("physical event address"));
    }
    None
}

fn is_user_message(event: &SessionEvent) -> (answer: bool)
    ensures
        answer == event@.kind is UserMessage,
{
    match &event.kind {
        SessionEventKind::UserMessage { .. } => true,
        _ => false,
    }
}

fn is_report(event: &SessionEvent) -> (answer: bool)
    ensures
        answer == event@.kind is TaskRunReport,
{
    match &event.kind {
        SessionEventKind::TaskRunReport { .. } => true,
        _ => false,
    }
}

fn check_turn(history: &Vec<SessionEvent>, k: usize) -> (fault: Option<TaskStateError>)
    requires
        k < history@.len(),
    ensures
        fault == turn_fault(history.deep_view(), k as int),
{
    let ghost views = history.deep_view();
    assert(views[k as int] == history@[k as int]@);
    let event = &history[k];
    if k == 0 {
        if !is_user_message(event) {
            return Some(TaskStateError::Invalid("turn lacks user envelope"));
        }
        return None;
    }
    assert(views[k - 1] == history@[k - 1]@);
    let last = &history[k - 1];
    let closed: bool = is_terminal(last);
    if !last.turn_id.is_same(&event.turn_id) {
        if !closed || turn_seen(history, &event.turn_id, k) {
            return Some(TaskStateError::Invalid("interleaved or reopened turn"));
        }
        if !is_user_message(event) {
            return Some(TaskStateError::Invalid("turn lacks user envelope"));
        }
        return None;
    }
    if is_user_message(event) {
        return Some(TaskStateError::Invalid("duplicate user envelope"));
    }
    if closed {
        return Some(TaskStateError::Invalid("event after terminal"));
    }
    if is_report(last) && !is_terminal(event) {
        return Some(TaskStateError::Invalid("event after final report"));
    }
    None
}

fn check_report(history: &Vec<SessionEvent>, identity: &BudgetIdentity, report: &TaskRunReport, k: usize) -> (fault: Option<
    TaskStateError,
>)
    requires
        k < history@.len(),
        k <= MAX_TASK_HISTORY_EVENTS,
    ensures
        ({
            let views = history.deep_view();
            fault == if report@.budget.identity.session != identity@.session {
                Some(TaskStateError::IdentityMismatch)
            } else if report@.budget.run is None || report@.budget.run->0.turn != Some(
                views[k as int].turn_id,
            ) || report@.budget.run->0.metrics.confirmed != turn_counts(
                views,
                views[k as int].turn_id,
                k as int,
            ) {
                Some(TaskStateError::Invalid("report counts or turn mismatch"))
            } else {
                None
            }
        }),
{
    assert(history.deep_view()[k as int] == history@[k as int]@);
    if !report.budget.identity.session_id.is_same(&identity.session_id) {
        return Some(TaskStateError::IdentityMismatch);
    }
    let matches_turn: bool = match &report.budget.run {
        None => false,
        Some(run) => {
            let same_turn: bool = match &run.turn_id {
                Some(turn) => turn.is_same(&history[k].turn_id),
                None => false,
            };
            same_turn && run.metrics.confirmed == count_turn(history, &history[k].turn_id, k)
        },
    };
    if !matches_turn {
        return Some(TaskStateError::Invalid("report counts or turn mismatch"));
    }
    None
}

/// Checks what the `k`th event does. `steps` are the steps seen up to and with it.
fn check_operation(history: &Vec<SessionEvent>, identity: &BudgetIdentity, steps: &Vec<StepId>, k: usize) -> (fault: Option<
    TaskStateError,
>)
    requires
        k < history@.len(),
        k <= MAX_TASK_HISTORY_EVENTS,
        steps.deep_view() == steps_before(history.deep_view(), identity@.task, k + 1),
    ensures
        fault == operation_fault(history.deep_view(), identity@, k as int),
{
    let ghost views = history.deep_view();
    assert(views[k as int] == history@[k as int]@);
    let event = &history[k];
    match settled_by(event) {
        Some((kind, id)) => {
            return match find_intent(history, kind, id, k) {
                None => Some(TaskStateError::Invalid("unmatched or repeated result")),
                Some(i) => {
                    assert(views[i as int] == history@[i as int]@);
                    if is_settled(history, kind, id, k) {
                        Some(TaskStateError::Invalid("unmatched or repeated result"))
                    } else if !history[i].turn_id.is_same(&event.turn_id) {
                        Some(TaskStateError::Invalid("result crossed turn"))
                    } else {
                        None
                    }
                },
            };
        },
        None => {},
    }
    match &event.kind {
        SessionEventKind::TaskRunReport { report } => {
            return check_report(history, identity, report, k);
        },
        _ => {},
    }
    match opened_by(event) {
        Some((kind, id)) => {
            match valid_text(id) {
                Err(e) => {
                    return Some(e);
                },
                Ok(_) => {},
            }
            if find_intent(history, kind, id, k).is_some() {
                return Some(TaskStateError::Invalid("duplicate call ID"));
            }
            match step_in(event, identity) {
                Some(step) => {
                    match valid_text(step.as_str()) {
                        Err(e) => {
                            return Some(e);
                        },
                        Ok(_) => {},
                    }
                    if steps.len() > MAX_TASK_STEPS {
                        return Some(TaskStateError::Limit);
                    }
                    None
                },
                None => None,
            }
        },
        None => None,
    }
}

fn note_step(history: &Vec<SessionEvent>, identity: &BudgetIdentity, steps: &mut Vec<StepId>, k: usize)
    requires
        k < history@.len(),
        old(steps).deep_view() == steps_before(history.deep_view(), identity@.task, k as int),
    ensures
        final(steps).deep_view() == steps_before(history.deep_view(), identity@.task, k + 1),
{
    let ghost before = steps.deep_view();
    assert(history.deep_view()[k as int] == history@[k as int]@);
    match step_in(&history[k], identity) {
        Some(step) => {
            if !has_step(steps, step) {
                let noted = step.duplicate();
                steps.push(noted);
                assert(steps.deep_view() =~= before.push(noted@));
            }
        },
        None => {},
    }
}

fn collect_unresolved(history: &Vec<SessionEvent>, identity: &BudgetIdentity) -> (unresolved: Vec<
    UnresolvedTaskOperation,
>)
    ensures
        unresolved.deep_view() == unresolved_of(history.deep_view(), identity@.task),
{
    let ghost views = history.deep_view();
    let mut unresolved: Vec<UnresolvedTaskOperation> = Vec::new();
    let mut i: usize = 0;
    assert(unresolved.deep_view() =~= Seq::empty());
    while i < history.len()
        invariant
            i <= history@.len(),
            views == history.deep_view(),
            unresolved.deep_view() == unresolved_before(views, identity@.task, i as int),
        decreases history@.len() - i,
    {
        let ghost before = unresolved.deep_view();
        assert(views[i as int] == history@[i as int]@);
        let event = &history[i];
        match opened_by(event) {
            Some((kind, id)) => {
                if !is_settled(history, kind, id, history.len()) {
                    let step_id: Option<StepId> = match step_in(event, identity) {
                        Some(step) => Some(step.duplicate()),
                        None => None,
                    };
                    let operation = UnresolvedTaskOperation {
                        kind,
                        call_id: id.to_owned(),
                        intent: cursor_of(event),
                        step_id,
                    };
                    unresolved.push(operation);
                    assert(unresolved.deep_view() =~= before.push(operation@));
                }
            },
            None => {},
        }
        i = i + 1;
    }
    unresolved
}

fn waits(unresolved: &Vec<UnresolvedTaskOperation>, step: &StepId) -> (answer: bool)
    ensures
        answer == is_pending_step(unresolved.deep_view(), step@),
{
    let ghost views = unresolved.deep_view();
    let mut i: usize = 0;
    while i < unresolved.len()
        invariant
            i <= unresolved@.len(),
            views == unresolved.deep_view(),
            forall|k: int| 0 <= k < i ==> (#[trigger] views[k]).step_id != Some(step@),
        decreases unresolved@.len() - i,
    {
        assert(views[i as int] == unresolved@[i as int]@);
        match &unresolved[i].step_id {
            Some(other) => {
                if other.is_same(step) {
                    return true;
                }
            },
            None => {},
        }
        i = i + 1;
    }
    false
}

fn retain_settled(steps: Vec<StepId>, unresolved: &Vec<UnresolvedTaskOperation>) -> (settled: Vec<StepId>)
    ensures
        settled.deep_view() == settled_among(steps.deep_view(), unresolved.deep_view()),
{
    let ghost views = steps.deep_view();
    let ghost keeps = |step: Seq<char>| !is_pending_step(unresolved.deep_view(), step);
    let mut settled: Vec<StepId> = Vec::new();
    let mut i: usize = 0;
    proof {
        reveal(Seq::filter);
        assert(views.take(0) =~= Seq::empty());
        assert(settled.deep_view() =~= Seq::empty());
    }
    while i < steps.len()
        invariant
            i <= steps@.len(),
            views == steps.deep_view(),
            keeps == (|step: Seq<char>| !is_pending_step(unresolved.deep_view(), step)),
            settled.deep_view() == views.take(i as int).filter(keeps),
        decreases steps@.len() - i,
    {
        let ghost before = settled.deep_view();
        proof {
            reveal(Seq::filter);
            assert(views[i as int] == steps@[i as int]@);
            assert(views.take(i + 1).drop_last() =~= views.take(i as int));
            assert(views.take(i + 1).last() == views[i as int]);
        }
        if !waits(unresolved, &steps[i]) {
            let step = steps[i].duplicate();
            settled.push(step);
            assert(settled.deep_view() =~= before.push(step@));
        }
        i = i + 1;
    }
    assert(views.take(views.len() as int) =~= views);
    settled
}

/// What a full history says of a task. Nothing is run or recovered here.
pub fn assess_task_history(identity: &BudgetIdentity, history: &Vec<SessionEvent>) -> (result: Result<
    TaskHistoryAssessment,
    TaskStateError,
>)
    ensures
        match result {
            Err(e) => assessment_fault(identity@, history.deep_view()) == Some(e),
            Ok(found) => {
                let views = history.deep_view();
                &&& assessment_fault(identity@, views) is None
                &&& found.boundary@ == boundary_of(views)
                &&& found.settled_steps.deep_view() == settled_steps_of(views, identity@.task)
                &&& found.unresolved.deep_view() == unresolved_of(views, identity@.task)
            },
        },
{
    let ghost views = history.deep_view();
    if history.len() > MAX_TASK_HISTORY_EVENTS {
        return Err(TaskStateError::Limit);
    }
    match valid_text(identity.task_id.as_str()) {
        Err(e) => {
            return Err(e);
        },
        Ok(_) => {},
    }
    match valid_text(identity.session_id.as_str()) {
        Err(e) => {
            return Err(e);
        },
        Ok(_) => {},
    }
    match valid_text(identity.agent_key.as_str()) {
        Err(e) => {
            return Err(e);
        },
        Ok(_) => {},
    }
    let mut steps: Vec<StepId> = Vec::new();
    let mut k: usize = 0;
    assert(steps.deep_view() =~= Seq::empty());
    while k < history.len()
        invariant
            k <= history@.len(),
            history@.len() <= MAX_TASK_HISTORY_EVENTS,
            views == history.deep_view(),
            is_naming(identity@.task),
            is_naming(identity@.session),
            is_naming(identity@.agent),
            steps.deep_view() == steps_before(views, identity@.task, k as int),
            event_fault_from(views, identity@, 0) == event_fault_from(views, identity@, k as int),
        decreases history@.len() - k,
    {
        match check_address(history, identity, k) {
            Some(fault) => {
                return Err(fault);
            },
            None => {},
        }
        match check_turn(history, k) {
            Some(fault) => {
                return Err(fault);
            },
            None => {},
        }
        note_step(history, identity, &mut steps, k);
        match check_operation(history, identity, &steps, k) {
            Some(fault) => {
                return Err(fault);
            },
            None => {},
        }
        k = k + 1;
    }
    let unresolved = collect_unresolved(history, identity);
    let settled_steps = retain_settled(steps, &unresolved);
    let boundary = if history.len() == 0 {
        TaskHistoryBoundary::Empty
    } else {
        let last = &history[history.len() - 1];
        assert(views.last() == history@[history@.len() - 1]@);
        if is_terminal(last) {
            TaskHistoryBoundary::Closed
        } else {
            TaskHistoryBoundary::Open { turn_id: last.turn_id.duplicate() }
        }
    };
    Ok(TaskHistoryAssessment { boundary, settled_steps, unresolved })
}

/// A step that waits for an operation without a result is never called settled.
pub proof fn settled_steps_have_results(events: Seq<SessionEventView>, task: Seq<char>, step: Seq<char>)
    requires
        settled_steps_of(events, task).contains(step),
    ensures
        !is_pending_step(unresolved_of(events, task), step),
        steps_before(events, task, events.len() as int).contains(step),
{
    filter_members(
        steps_before(events, task, events.len() as int),
        |s: Seq<char>| !is_pending_step(unresolved_of(events, task), s),
        step,
    );
}

proof fn filter_members(steps: Seq<Seq<char>>, keeps: spec_fn(Seq<char>) -> bool, step: Seq<char>)
    requires
        steps.filter(keeps).contains(step),
    ensures
        keeps(step),
        steps.contains(step),
    decreases steps.len(),
{
    reveal(Seq::filter);
    if steps.len() > 0 {
        let front = steps.drop_last();
        let i = steps.filter(keeps).index_of(step);
        if i < front.filter(keeps).len() {
            assert(front.filter(keeps)[i] == step);
            filter_members(front, keeps, step);
            let j = front.index_of(step);
            assert(steps[j] == step);
        } else {
            assert(steps[steps.len() - 1] == step);
        }
    }
}

} // verus!
