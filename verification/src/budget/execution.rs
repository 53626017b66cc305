//! Host-owned write-ahead execution claims over checkpoint exchange.
//!
//! The host loads and exchanges images; this module decides what may be claimed,
//! what a history confirms and what a closed turn leaves behind.

use crate::budget::checkpoint;
use crate::budget::checkpoint::{BudgetCheckpointError, BudgetEventCursor, CursorView};
use crate::budget::file::{BudgetCheckpointCommit, BudgetCheckpointStoreError};
use crate::budget::ledger::TaskBudget;
use crate::budget::model::{BudgetError, LedgerView};
use crate::budget::sealed;
use crate::budget::sealed::{
    BudgetCheckpoint, BudgetCheckpointVersion, BudgetRestoreContext, CheckpointView,
};
use crate::budget::vocabulary;
use crate::budget::vocabulary::{
    same_stop, BudgetAmounts, BudgetEventCounts, BudgetIdentity, BudgetReport, BudgetUsageReport,
    ReportView, RunReportView, TaskRunReport, TaskRunStop,
};
use crate::id::BudgetExecutionId;
use crate::record::Record;
use crate::session::event::{DoneStatus, SessionEvent, SessionEventKind, SessionEventKindView, SessionEventView};
use crate::session::log;
use crate::text;
use crate::time::Duration;
use vstd::prelude::*;

verus! {

#[derive(Debug, PartialEq, Eq)]
pub enum BudgetExecutionError {
    Checkpoint(BudgetCheckpointError),
    Store(BudgetCheckpointStoreError),
    /// The exchange failed. The exact sealed attempt is kept, for reconciliation without
    /// reconstruction.
    Commit {
        expected_revision: u64,
        checkpoint: Box<BudgetCheckpoint>,
        source: BudgetCheckpointStoreError,
    },
    Budget(BudgetError),
    /// The checkpoint is missing; execution requires explicit initialization.
    Missing,
    /// An unfinished execution or a frozen state; audit required.
    RecoveryRequired,
    /// The budget and the log do not meet.
    Boundary(&'static str),
    /// The turn did not close with confirmed budget evidence.
    IncompleteTurn,
}

impl SessionEventView {
    pub open spec fn cursor(self) -> CursorView {
        CursorView {
            session: self.session_id,
            turn: self.turn_id,
            event: self.event_id,
            seq: self.seq,
        }
    }

    pub open spec fn is_terminal(self) -> bool {
        self.kind is Done || self.kind is Error
    }
}

/// The address of an event.
pub fn cursor_of(event: &SessionEvent) -> (cursor: BudgetEventCursor)
    ensures
        cursor@ == event@.cursor(),
{
    BudgetEventCursor {
        session_id: event.session_id.clone(),
        turn_id: event.turn_id.clone(),
        event_id: event.event_id.clone(),
        seq: event.seq,
    }
}

pub fn is_terminal(event: &SessionEvent) -> (answer: bool)
    ensures
        answer == event@.is_terminal(),
{
    match &event.kind {
        SessionEventKind::Done { .. } | SessionEventKind::Error { .. } => true,
        _ => false,
    }
}

/// Events of one session in an unbroken sequence, each with an identity of its own.
pub open spec fn addresses_hold(
    events: Seq<SessionEventView>,
    session: Seq<char>,
    first: u64,
) -> bool {
    forall|i: int| 0 <= i < events.len() ==> address_holds(events, #[trigger] events[i], i, session, first)
}

pub open spec fn address_holds(
    events: Seq<SessionEventView>,
    event: SessionEventView,
    i: int,
    session: Seq<char>,
    first: u64,
) -> bool {
    &&& event.session_id == session
    &&& event.seq == first + i
    &&& !text::is_blank(event.event_id)
    &&& !text::is_blank(event.turn_id)
    &&& !log::id_repeats(events, i)
}

pub fn validate_addresses(events: &Vec<SessionEvent>, identity: &BudgetIdentity, first: u64) -> (result:
    Result<(), BudgetExecutionError>)
    ensures
        match result {
            Ok(_) => addresses_hold(events.deep_view(), identity@.session, first),
            Err(e) => {
                &&& !addresses_hold(events.deep_view(), identity@.session, first)
                &&& e == BudgetExecutionError::Boundary("invalid physical event address")
            },
        },
{
    let ghost views = events.deep_view();
    let mut i: usize = 0;
    while i < events.len()
        invariant
            i <= events@.len(),
            views == events.deep_view(),
            forall|j: int|
                0 <= j < i ==> address_holds(
                    views,
                    #[trigger] views[j],
                    j,
                    identity@.session,
                    first,
                ),
        decreases events@.len() - i,
    {
        let event = &events[i];
        assert(views[i as int] == event@);
        let placed: bool = match first.checked_add(i as u64) {
            Some(seq) => event.seq == seq,
            None => false,
        };
        if !event.session_id.is_same(&identity.session_id) || !placed || text::blank(
            event.event_id.as_str(),
        ) || text::blank(event.turn_id.as_str()) || log::repeats(events, i) {
            assert(!address_holds(views, views[i as int], i as int, identity@.session, first));
            return Err(BudgetExecutionError::Boundary("invalid physical event address"));
        }
        i = i + 1;
    }
    Ok(())
}

/// The report that a run left shows the same account as `budget`, drained and closed.
pub open spec fn confirms(
    report: vocabulary::TaskRunReportView,
    run: RunReportView,
    reported: SessionEventView,
    terminal: SessionEventView,
    budget: ReportView,
) -> bool {
    &&& report.capabilities_drained
    &&& run.metrics.unconfirmed == BudgetEventCounts::none()
    &&& run.metrics.confirmed.model_requests == run.metrics.confirmed.model_results
    &&& run.metrics.confirmed.tool_calls == run.metrics.confirmed.tool_results
    &&& terminal.is_terminal()
    &&& reported.turn_id == terminal.turn_id
    &&& run.turn == Some(terminal.turn_id)
    &&& !run.open
    &&& budget.run is None
    &&& budget.pending.len() == 0
    &&& report.budget.pending.len() == 0
    &&& report.budget.identity == budget.identity
    &&& report.budget.limits == budget.limits
    &&& report.budget.token_mode == budget.token_mode
    &&& report.budget.charged == budget.charged
    &&& report.budget.reserved == budget.reserved
    &&& report.budget.usage == budget.usage
    &&& report.budget.active == budget.active
    &&& report.budget.cleanup <= budget.cleanup
    &&& report.budget.stop == budget.stop
}

/// The stop of a run and the terminal event tell the same story.
pub open spec fn dispositions_agree(stop: TaskRunStop, terminal: SessionEventKindView) -> bool {
    match terminal {
        SessionEventKindView::Done { status, .. } => match stop {
            TaskRunStop::Completed => status == DoneStatus::Completed,
            TaskRunStop::WaitingForInput => status == DoneStatus::WaitingForInput,
            TaskRunStop::CallerCancelled | TaskRunStop::RuntimeStopping => status
                == DoneStatus::Cancelled,
            _ => false,
        },
        SessionEventKindView::Error { .. } => match stop {
            TaskRunStop::Budget(_) | TaskRunStop::Failed => true,
            _ => false,
        },
        _ => false,
    }
}

/// Why the last two events do not close a turn with the accounts of `budget`, if so.
pub open spec fn closed_tail_fault(events: Seq<SessionEventView>, budget: ReportView) -> Option<
    BudgetExecutionError,
> {
    if events.len() < 2 {
        Some(BudgetExecutionError::IncompleteTurn)
    } else {
        let reported = events[events.len() - 2];
        let terminal = events[events.len() - 1];
        match reported.kind {
            SessionEventKindView::TaskRunReport { report } => match report.budget.run {
                None => Some(BudgetExecutionError::IncompleteTurn),
                Some(run) => if !confirms(report, run, reported, terminal, budget) {
                    Some(
                        BudgetExecutionError::Boundary("budget report does not confirm checkpoint"),
                    )
                } else if !dispositions_agree(report.stop, terminal.kind) {
                    Some(
                        BudgetExecutionError::Boundary("report and terminal dispositions disagree"),
                    )
                } else {
                    None
                },
            },
            _ => Some(BudgetExecutionError::IncompleteTurn),
        }
    }
}

fn agree(stop: &TaskRunStop, terminal: &SessionEventKind) -> (answer: bool)
    ensures
        answer == dispositions_agree(*stop, terminal@),
{
    match terminal {
        SessionEventKind::Done { status, .. } => match stop {
            TaskRunStop::Completed => *status == DoneStatus::Completed,
            TaskRunStop::WaitingForInput => *status == DoneStatus::WaitingForInput,
            TaskRunStop::CallerCancelled | TaskRunStop::RuntimeStopping => *status
                == DoneStatus::Cancelled,
            _ => false,
        },
        SessionEventKind::Error { .. } => match stop {
            TaskRunStop::Budget(_) | TaskRunStop::Failed => true,
            _ => false,
        },
        _ => false,
    }
}

fn run_confirms(
    report: &TaskRunReport,
    reported: &SessionEvent,
    terminal: &SessionEvent,
    budget: &BudgetReport,
) -> (answer: Option<bool>)
    ensures
        match answer {
            Some(b) => report@.budget.run is Some && b == confirms(
                report@,
                report@.budget.run->0,
                reported@,
                terminal@,
                budget@,
            ),
            None => report@.budget.run is None,
        },
{
    let run = match &report.budget.run {
        None => {
            return None;
        },
        Some(run) => run,
    };
    let bound: bool = match &run.turn_id {
        Some(turn) => turn.is_same(&terminal.turn_id),
        None => false,
    };
    let confirmed = &run.metrics.confirmed;
    let none = BudgetEventCounts::default();
    Some(
        report.capabilities_drained && run.metrics.unconfirmed == none && confirmed.model_requests
            == confirmed.model_results && confirmed.tool_calls == confirmed.tool_results
            && is_terminal(terminal) && reported.turn_id.is_same(&terminal.turn_id) && bound
            && !run.open && budget.run.is_none() && budget.pending.len() == 0
            && report.budget.pending.len() == 0 && report.budget.identity.is_same(&budget.identity)
            && report.budget.limits.is_same(&budget.limits) && report.budget.token_mode
            == budget.token_mode && report.budget.charged == budget.charged && report.budget.reserved
            == budget.reserved && report.budget.usage == budget.usage
            && report.budget.active_time.same_length(&budget.active_time)
            && !budget.cleanup_time.shorter_than(&report.budget.cleanup_time) && same_stop(
            &report.budget.stop,
            &budget.stop,
        ),
    )
}

/// Whether the last two events are a report and a terminal that confirm `budget`.
pub fn validate_closed_tail(events: &Vec<SessionEvent>, budget: &BudgetReport) -> (result: Result<
    (),
    BudgetExecutionError,
>)
    ensures
        match result {
            Ok(_) => closed_tail_fault(events.deep_view(), budget@) is None,
            Err(e) => closed_tail_fault(events.deep_view(), budget@) == Some(e),
        },
{
    if events.len() < 2 {
        return Err(BudgetExecutionError::IncompleteTurn);
    }
    let reported = &events[events.len() - 2];
    let terminal = &events[events.len() - 1];
    assert(events.deep_view()[events@.len() - 2] == reported@);
    assert(events.deep_view()[events@.len() - 1] == terminal@);
    match &reported.kind {
        SessionEventKind::TaskRunReport { report } => {
            assert(reported@.kind == (SessionEventKindView::TaskRunReport { report: report@ }));
            match run_confirms(report, reported, terminal, budget) {
                None => Err(BudgetExecutionError::IncompleteTurn),
                Some(false) => Err(
                    BudgetExecutionError::Boundary("budget report does not confirm checkpoint"),
                ),
                Some(true) => if agree(&report.stop, &terminal.kind) {
                    Ok(())
                } else {
                    Err(
                        BudgetExecutionError::Boundary("report and terminal dispositions disagree"),
                    )
                },
            }
        },
        _ => Err(BudgetExecutionError::IncompleteTurn),
    }
}

/// Nothing was consumed and no time was spent.
pub open spec fn unused(report: ReportView) -> bool {
    report.charged == BudgetAmounts::none() && report.reserved == BudgetAmounts::none()
        && report.active == 0 && report.cleanup == 0 && report.usage == BudgetUsageReport::none()
}

/// Why a history does not confirm an image, if so. Grants explain only changes of
/// limits and stop at this exact position. They cannot explain changed charges,
/// usage, identity, mode, or a newer or unclosed end of the log.
pub open spec fn history_fault(c: CheckpointView, history: Seq<SessionEventView>) -> Option<
    BudgetExecutionError,
> {
    match c.fault() {
        Some(fault) => Some(BudgetExecutionError::Checkpoint(fault)),
        None => if !addresses_hold(history, c.image.report.identity.session, 0) {
            Some(BudgetExecutionError::Boundary("invalid physical event address"))
        } else {
            match sealed::before_grants(c.image.report, c.grants, c.image.anchor) {
                None => Some(
                    BudgetExecutionError::Checkpoint(
                        BudgetCheckpointError::Invalid(
                            "grant chain differs from boundary limits/stop",
                        ),
                    ),
                ),
                Some(report) => match c.image.anchor {
                    None => if history.len() > 0 {
                        Some(
                            BudgetExecutionError::Boundary(
                                "checkpoint is not at the confirmed log tail",
                            ),
                        )
                    } else if !unused(report) {
                        Some(BudgetExecutionError::Boundary("nonempty budget without a log anchor"))
                    } else {
                        None
                    },
                    Some(anchor) => if history.len() == 0 || history.last().cursor() != anchor {
                        Some(
                            BudgetExecutionError::Boundary(
                                "checkpoint is not at the confirmed log tail",
                            ),
                        )
                    } else {
                        closed_tail_fault(history, report)
                    },
                },
            }
        },
    }
}

pub fn verify_checkpoint_history(
    checkpoint: &BudgetCheckpoint,
    history: &Vec<SessionEvent>,
) -> (result: Result<(), BudgetExecutionError>)
    ensures
        match result {
            Ok(_) => history_fault(checkpoint@, history.deep_view()) is None,
            Err(e) => history_fault(checkpoint@, history.deep_view()) == Some(e),
        },
{
    match checkpoint.validate() {
        Err(e) => {
            return Err(BudgetExecutionError::Checkpoint(e));
        },
        Ok(_) => {},
    }
    match validate_addresses(history, &checkpoint.report.identity, 0) {
        Err(e) => {
            return Err(e);
        },
        Ok(_) => {},
    }
    let report = match checkpoint.boundary_report() {
        Ok(report) => report,
        Err(e) => {
            return Err(BudgetExecutionError::Checkpoint(e));
        },
    };
    match &checkpoint.anchor {
        None => {
            if history.len() > 0 {
                return Err(
                    BudgetExecutionError::Boundary("checkpoint is not at the confirmed log tail"),
                );
            }
            let zero = Duration::zero();
            if report.charged != BudgetAmounts::zero() || report.reserved != BudgetAmounts::zero()
                || !report.active_time.same_length(&zero) || !report.cleanup_time.same_length(&zero)
                || report.usage != BudgetUsageReport::default() {
                return Err(BudgetExecutionError::Boundary("nonempty budget without a log anchor"));
            }
            Ok(())
        },
        Some(anchor) => {
            let at_tail: bool = if history.len() == 0 {
                false
            } else {
                let last = &history[history.len() - 1];
                assert(history.deep_view().last() == last@);
                anchor.is_same(&cursor_of(last))
            };
            if !at_tail {
                return Err(
                    BudgetExecutionError::Boundary("checkpoint is not at the confirmed log tail"),
                );
            }
            validate_closed_tail(history, &report)
        },
    }
}

/// Ownership of one claimed execution. Only trusted host code holds it; agents hold a
/// scope instead. Letting it go never clears the claim: there is no expiry, stealing,
/// refund or replay.
pub struct BudgetExecutionLease {
    pub task: TaskBudget,
    pub base: BudgetCheckpoint,
    pub claim: BudgetCheckpoint,
}

/// Why no execution can be claimed from what was loaded, if so.
pub open spec fn acquire_fault(
    loaded: Option<CheckpointView>,
    context: BudgetRestoreContext,
    now: nat,
    later: nat,
) -> Option<BudgetExecutionError> {
    match loaded {
        None => Some(BudgetExecutionError::Missing),
        Some(base) => match base.fault() {
            Some(fault) => Some(BudgetExecutionError::Checkpoint(fault)),
            None => if !base.is_quiescent() {
                Some(BudgetExecutionError::RecoveryRequired)
            } else {
                match base.restore_fault(
                    context.identity@,
                    context.revision,
                    checkpoint::anchor_view(context.confirmed_anchor),
                ) {
                    Some(fault) => Some(BudgetExecutionError::Checkpoint(fault)),
                    None => match base.restored(context.host_limits@, now).ticked(later).stop {
                        Some(reason) => Some(
                            BudgetExecutionError::Budget(BudgetError::Stopped(reason)),
                        ),
                        None => if base.image.revision == u64::MAX {
                            Some(
                                BudgetExecutionError::Checkpoint(
                                    BudgetCheckpointError::RevisionExhausted,
                                ),
                            )
                        } else {
                            None
                        },
                    },
                }
            },
        },
    }
}

/// The image that claims `base` for an execution.
pub open spec fn claimed(base: CheckpointView, execution: Seq<char>) -> CheckpointView {
    CheckpointView {
        version: if base.version == BudgetCheckpointVersion::V1 {
            BudgetCheckpointVersion::V2
        } else {
            base.version
        },
        image: checkpoint::ImageView {
            revision: (base.image.revision + 1) as u64,
            ..base.image
        },
        execution: Some(execution),
        ..base
    }
}

/// An event that starts where `base` ends.
pub open spec fn first_seq(base: CheckpointView) -> int {
    match base.image.anchor {
        Some(anchor) => anchor.seq + 1,
        None => 0,
    }
}

pub open spec fn count_terminals(events: Seq<SessionEventView>) -> nat {
    events.filter(|e: SessionEventView| e.is_terminal()).len()
}

pub open spec fn count_reports(events: Seq<SessionEventView>) -> nat {
    events.filter(|e: SessionEventView| e.kind is TaskRunReport).len()
}

pub open spec fn one_turn(events: Seq<SessionEventView>) -> bool {
    forall|i: int| 0 <= i < events.len() ==> (#[trigger] events[i]).turn_id == events.last().turn_id
}

/// Why the events after `base` are not one closed turn, if so.
pub open spec fn turn_fault(base: CheckpointView, events: Seq<SessionEventView>) -> Option<
    BudgetExecutionError,
> {
    if first_seq(base) > u64::MAX {
        Some(BudgetExecutionError::Boundary("sequence exhausted"))
    } else if !addresses_hold(events, base.image.report.identity.session, first_seq(base) as u64) {
        Some(BudgetExecutionError::Boundary("invalid physical event address"))
    } else if events.len() == 0 {
        Some(BudgetExecutionError::IncompleteTurn)
    } else if !one_turn(events) || count_terminals(events) != 1 || count_reports(events) != 1 {
        Some(BudgetExecutionError::Boundary("turn boundary or report cardinality differs"))
    } else {
        None
    }
}

fn validate_turn(base: &BudgetCheckpoint, events: &Vec<SessionEvent>) -> (result: Result<
    (),
    BudgetExecutionError,
>)
    ensures
        match result {
            Ok(_) => turn_fault(base@, events.deep_view()) is None && events@.len() > 0,
            Err(e) => turn_fault(base@, events.deep_view()) == Some(e),
        },
{
    let first: u64 = match &base.anchor {
        Some(anchor) => match anchor.seq.checked_add(1) {
            Some(seq) => seq,
            None => {
                return Err(BudgetExecutionError::Boundary("sequence exhausted"));
            },
        },
        None => 0,
    };
    match validate_addresses(events, &base.report.identity, first) {
        Err(e) => {
            return Err(e);
        },
        Ok(_) => {},
    }
    if events.len() == 0 {
        return Err(BudgetExecutionError::IncompleteTurn);
    }
    let ghost views = events.deep_view();
    let last = &events[events.len() - 1];
    assert(views.last() == last@);
    let mut same_turn: bool = true;
    let mut terminals: usize = 0;
    let mut reports: usize = 0;
    let mut i: usize = 0;
    let ghost terminal = |e: SessionEventView| e.is_terminal();
    let ghost report = |e: SessionEventView| e.kind is TaskRunReport;
    assert(views.take(0).filter(terminal) =~= Seq::empty()) by {
        reveal(Seq::filter);
    }
    assert(views.take(0).filter(report) =~= Seq::empty()) by {
        reveal(Seq::filter);
    }
    while i < events.len()
        invariant
            i <= events@.len(),
            events@.len() > 0,
            views == events.deep_view(),
            last@ == views.last(),
            terminal == (|e: SessionEventView| e.is_terminal()),
            report == (|e: SessionEventView| e.kind is TaskRunReport),
            same_turn == (forall|j: int|
                0 <= j < i ==> (#[trigger] views[j]).turn_id == views.last().turn_id),
            terminals == views.take(i as int).filter(terminal).len(),
            reports == views.take(i as int).filter(report).len(),
            terminals <= i,
            reports <= i,
        decreases events@.len() - i,
    {
        let event = &events[i];
        assert(views[i as int] == event@);
        assert(views.take(i as int + 1).drop_last() =~= views.take(i as int));
        assert(views.take(i as int + 1).last() == event@);
        proof {
            reveal(Seq::filter);
        }
        if !event.turn_id.is_same(&last.turn_id) {
            same_turn = false;
        }
        if is_terminal(event) {
            terminals = terminals + 1;
        }
        match &event.kind {
            SessionEventKind::TaskRunReport { .. } => {
                reports = reports + 1;
            },
            _ => {},
        }
        i = i + 1;
    }
    assert(views.take(views.len() as int) =~= views);
    if !same_turn || terminals != 1 || reports != 1 {
        return Err(BudgetExecutionError::Boundary("turn boundary or report cardinality differs"));
    }
    Ok(())
}

/// What an exchange of an image comes to, once the store has answered: the image, or the
/// failure with the image that may or may not be there.
pub fn exchanged(
    expected_revision: u64,
    checkpoint: BudgetCheckpoint,
    answer: Result<BudgetCheckpointCommit, BudgetCheckpointStoreError>,
) -> (result: Result<BudgetCheckpoint, BudgetExecutionError>)
    ensures
        result == match answer {
            Ok(_) => Ok::<BudgetCheckpoint, BudgetExecutionError>(checkpoint),
            Err(source) => Err(
                BudgetExecutionError::Commit {
                    expected_revision,
                    checkpoint: Box::new(checkpoint),
                    source,
                },
            ),
        },
{
    match answer {
        Ok(_) => Ok(checkpoint),
        Err(source) => Err(
            BudgetExecutionError::Commit {
                expected_revision,
                checkpoint: Box::new(checkpoint),
                source,
            },
        ),
    }
}

impl BudgetExecutionLease {
    pub open spec fn base_view(&self) -> CheckpointView {
        self.base@
    }

    pub open spec fn claim_view(&self) -> CheckpointView {
        self.claim@
    }

    /// Claim the execution of what was loaded. The host exchanges `claim()` for the
    /// loaded revision before it uses the task, and lets the lease go where that
    /// fails. Missing state is not initialized. `now` and `later` are the clock before
    /// and after the ledger is restored.
    pub fn acquire(
        loaded: Option<BudgetCheckpoint>,
        context: BudgetRestoreContext,
        execution_id: BudgetExecutionId,
        now: Duration,
        later: Duration,
    ) -> (result: Result<BudgetExecutionLease, BudgetExecutionError>)
        ensures
            ({
                let base = match loaded {
                    Some(c) => Some(c@),
                    None => None,
                };
                match result {
                    Ok(lease) => {
                        &&& acquire_fault(base, context, now.length(), later.length()) is None
                        &&& lease.base_view() == base->0
                        &&& lease.claim_view() == claimed(base->0, execution_id@)
                        &&& lease.task.wf()
                        &&& lease.task@ == (LedgerView {
                            revision: (base->0.image.revision + 1) as u64,
                            ..base->0.restored(context.host_limits@, now.length()).ticked(
                                later.length(),
                            )
                        })
                    },
                    Err(e) => acquire_fault(base, context, now.length(), later.length()) == Some(e),
                }
            }),
    {
        let base = match loaded {
            Some(base) => base,
            None => {
                return Err(BudgetExecutionError::Missing);
            },
        };
        match base.validate() {
            Err(e) => {
                return Err(BudgetExecutionError::Checkpoint(e));
            },
            Ok(_) => {},
        }
        if !base.is_quiescent() {
            return Err(BudgetExecutionError::RecoveryRequired);
        }
        let mut task = match TaskBudget::restore_checkpoint(base.duplicate(), context, now) {
            Ok(task) => task,
            Err(e) => {
                return Err(BudgetExecutionError::Checkpoint(e));
            },
        };
        let report = match task.report(later) {
            Ok(report) => report,
            Err(e) => {
                assert(false);
                return Err(BudgetExecutionError::Budget(e));
            },
        };
        match report.stop {
            Some(reason) => {
                return Err(BudgetExecutionError::Budget(BudgetError::Stopped(reason)));
            },
            None => {},
        }
        let claim = match base.execution_claim(execution_id) {
            Ok(claim) => claim,
            Err(e) => {
                return Err(BudgetExecutionError::Checkpoint(e));
            },
        };
        task.claim_revision(claim.revision);
        Ok(BudgetExecutionLease { task, base, claim })
    }

    pub fn execution_id(&self) -> (id: Option<&BudgetExecutionId>)
        ensures
            match id {
                Some(id) => self.claim_view().execution == Some(id@),
                None => self.claim_view().execution is None,
            },
    {
        self.claim.execution_id()
    }

    pub fn claim(&self) -> (claim: &BudgetCheckpoint)
        ensures
            claim@ == self.claim_view(),
    {
        &self.claim
    }

    /// Verify actual admission history before the first user, model or tool append.
    pub fn verify_history(&self, history: &Vec<SessionEvent>) -> (result: Result<
        (),
        BudgetExecutionError,
    >)
        ensures
            match result {
                Ok(_) => history_fault(self.base_view(), history.deep_view()) is None,
                Err(e) => history_fault(self.base_view(), history.deep_view()) == Some(e),
            },
    {
        verify_checkpoint_history(&self.base, history)
    }

    /// After capability drain, report, terminal and settlement of the session: seal
    /// the ledger and give the image that replaces the claim. `events` is the exact
    /// committed slice of the current turn. Sealing comes before the accounts are
    /// inspected, so that nothing can be consumed between the two. The lease is gone
    /// either way, and the ledger comes back as those who share it see it: sealed at the
    /// end of the turn or, where it was not, at the boundary that the lease began at.
    pub fn commit_closed(self, events: &Vec<SessionEvent>, now: Duration) -> (closed: (
        Result<BudgetCheckpoint, BudgetExecutionError>,
        TaskBudget,
    ))
        ensures
            ({
                let views = events.deep_view();
                let task = self.task@;
                let anchor = Some(views.last().cursor());
                let base_anchor = self.base_view().image.anchor;
                match turn_fault(self.base_view(), views) {
                    Some(fault) => {
                        &&& closed.0 == Err::<BudgetCheckpoint, BudgetExecutionError>(fault)
                        &&& closed.1@ == task.after_seal(base_anchor, now.length())
                    },
                    None => match task.seal_fault(anchor, now.length()) {
                        Some(fault) => {
                            &&& closed.0 == Err::<BudgetCheckpoint, BudgetExecutionError>(
                                BudgetExecutionError::Checkpoint(fault),
                            )
                            &&& closed.1@ == task.after_seal(anchor, now.length()).after_seal(
                                base_anchor,
                                now.length(),
                            )
                        },
                        None => {
                            let image = task.ticked(now.length()).image(anchor);
                            &&& closed.1@ == task.after_seal(anchor, now.length())
                            &&& if !image.is_quiescent() {
                                closed.0 == Err::<BudgetCheckpoint, BudgetExecutionError>(
                                    BudgetExecutionError::RecoveryRequired,
                                )
                            } else {
                                match closed_tail_fault(views, image.image.report) {
                                    Some(fault) => closed.0 == Err::<
                                        BudgetCheckpoint,
                                        BudgetExecutionError,
                                    >(fault),
                                    None => closed.0 is Ok && closed.0->Ok_0@ == image,
                                }
                            }
                        },
                    },
                }
            }),
            closed.0 is Ok ==> closed.1@.sealed,
            !closed.1@.sealed ==> self.task@.seal_fault(
                self.base_view().image.anchor,
                now.length(),
            ) is Some,
    {
        let mut lease = self;
        let result = lease.close(events, now);
        proof {
            ticking_twice(self.task@, now.length());
        }
        (result, lease.abandon(now))
    }

    fn close(&mut self, events: &Vec<SessionEvent>, now: Duration) -> (result: Result<
        BudgetCheckpoint,
        BudgetExecutionError,
    >)
        ensures
            final(self).base_view() == old(self).base_view(),
            ({
                let views = events.deep_view();
                let task = old(self).task@;
                let anchor = Some(views.last().cursor());
                match turn_fault(old(self).base_view(), views) {
                    Some(fault) => result == Err::<BudgetCheckpoint, BudgetExecutionError>(fault)
                        && final(self).task@ == task,
                    None => {
                        &&& final(self).task@ == task.after_seal(anchor, now.length())
                        &&& match task.seal_fault(anchor, now.length()) {
                            Some(fault) => result == Err::<BudgetCheckpoint, BudgetExecutionError>(
                                BudgetExecutionError::Checkpoint(fault),
                            ),
                            None => {
                                let image = task.ticked(now.length()).image(anchor);
                                if !image.is_quiescent() {
                                    result == Err::<BudgetCheckpoint, BudgetExecutionError>(
                                        BudgetExecutionError::RecoveryRequired,
                                    )
                                } else {
                                    match closed_tail_fault(views, image.image.report) {
                                        Some(fault) => result == Err::<
                                            BudgetCheckpoint,
                                            BudgetExecutionError,
                                        >(fault),
                                        None => result is Ok && result->Ok_0@ == image,
                                    }
                                }
                            },
                        }
                    },
                }
            }),
    {
        match validate_turn(&self.base, events) {
            Err(e) => {
                return Err(e);
            },
            Ok(_) => {},
        }
        let last = &events[events.len() - 1];
        assert(events.deep_view().last() == last@);
        let image = match self.task.seal_checkpoint(Some(cursor_of(last)), now) {
            Ok(image) => image,
            Err(e) => {
                return Err(BudgetExecutionError::Checkpoint(e));
            },
        };
        if !image.is_quiescent() {
            return Err(BudgetExecutionError::RecoveryRequired);
        }
        match validate_closed_tail(events, &image.report) {
            Err(e) => Err(e),
            Ok(_) => Ok(image),
        }
    }

    /// The lease goes out of use: the ledger is sealed, the claim stays.
    pub fn abandon(self, now: Duration) -> (task: TaskBudget)
        ensures
            task@ == self.task@.after_seal(self.base_view().image.anchor, now.length()),
    {
        let anchor = checkpoint::clone_anchor(&self.base.anchor);
        let mut task = self.task;
        let _ = task.seal_checkpoint(anchor, now);
        task
    }
}

/// A second sample of one clock reading finds nothing new.
proof fn ticking_twice(v: LedgerView, now: nat)
    ensures
        v.ticked(now).ticked(now) == v.ticked(now),
{
}

} // verus!
