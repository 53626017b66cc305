//! Sealed images of a ledger and their way back to life.
//!
//! Structural checks only: authenticity, freshness, exclusive ownership and the
//! canonical log boundary are the host's to establish.

use crate::budget::laws;
use crate::budget::ledger::{fits, validate_request};
use crate::budget::model;
use crate::budget::model::BudgetError;
use crate::budget::vocabulary::{
    BudgetAmounts, BudgetPendingReport, BudgetReport, BudgetResource, BudgetRunReport, ReportView,
    RunReportView, TokenBudgetMode, UsageTotals,
};
use crate::id::{EventId, SessionId, TurnId};
use crate::record::Record;
use crate::text;
use crate::time::Duration;
use vstd::prelude::*;

verus! {

/// An exact event address, not proof of durable commit or of the latest log tail.
#[derive(Debug, PartialEq, Eq)]
pub struct BudgetEventCursor {
    pub session_id: SessionId,
    pub turn_id: TurnId,
    pub event_id: EventId,
    pub seq: u64,
}

pub struct CursorView {
    pub session: Seq<char>,
    pub turn: Seq<char>,
    pub event: Seq<char>,
    pub seq: u64,
}

impl BudgetEventCursor {
    pub open spec fn view(&self) -> CursorView {
        CursorView {
            session: self.session_id@,
            turn: self.turn_id@,
            event: self.event_id@,
            seq: self.seq,
        }
    }
}

impl Clone for BudgetEventCursor {
    fn clone(&self) -> (copy: Self)
        ensures
            copy == *self,
    {
        BudgetEventCursor {
            session_id: self.session_id.clone(),
            turn_id: self.turn_id.clone(),
            event_id: self.event_id.clone(),
            seq: self.seq,
        }
    }
}

impl DeepView for BudgetEventCursor {
    type V = CursorView;

    open spec fn deep_view(&self) -> CursorView {
        self@
    }
}

impl Record for BudgetEventCursor {
    fn is_same(&self, other: &Self) -> (answer: bool) {
        self.seq == other.seq && self.session_id.is_same(&other.session_id)
            && self.turn_id.is_same(&other.turn_id) && self.event_id.is_same(&other.event_id)
    }

    fn duplicate(&self) -> (copy: Self) {
        self.clone()
    }
}

pub open spec fn anchor_view(anchor: Option<BudgetEventCursor>) -> Option<CursorView> {
    match anchor {
        Some(cursor) => Some(cursor@),
        None => None,
    }
}

pub(crate) fn same_anchor(
    left: &Option<BudgetEventCursor>,
    right: &Option<BudgetEventCursor>,
) -> (answer: bool)
    ensures
        answer == (anchor_view(*left) == anchor_view(*right)),
{
    match (left, right) {
        (Some(a), Some(b)) => a.is_same(b),
        (None, None) => true,
        _ => false,
    }
}

pub(crate) fn clone_anchor(anchor: &Option<BudgetEventCursor>) -> (copy: Option<BudgetEventCursor>)
    ensures
        copy == *anchor,
{
    match anchor {
        Some(cursor) => Some(cursor.clone()),
        None => None,
    }
}

#[derive(Clone, Copy, Debug, PartialEq, Eq)]
pub enum BudgetCheckpointError {
    Budget(BudgetError),
    Invalid(&'static str),
    /// The image belongs to another task binding than the host expects.
    IdentityMismatch,
    RevisionMismatch { expected: u64, actual: u64 },
    /// The event cursor differs from the one that the host confirmed.
    AnchorMismatch,
    RevisionExhausted,
}

/// The accounts of a sealed ledger.
pub struct ImageView {
    pub revision: u64,
    pub next_id: u64,
    pub anchor: Option<CursorView>,
    pub report: ReportView,
    pub run_id: Option<u64>,
    pub recovery_frozen: bool,
}

/// A reservation number that is in use before the `n`th of `pending`.
pub open spec fn id_taken(
    pending: Seq<BudgetPendingReport>,
    n: int,
    run_id: Option<u64>,
    id: u64,
) -> bool {
    run_id == Some(id) || exists|j: int| 0 <= j < n && (#[trigger] pending[j]).id == id
}

/// The first fault among the first `n` reservations.
pub open spec fn pending_fault(
    pending: Seq<BudgetPendingReport>,
    n: int,
    run_id: Option<u64>,
    next_id: u64,
    mode: TokenBudgetMode,
) -> Option<BudgetCheckpointError>
    decreases n,
{
    if n <= 0 {
        None
    } else {
        match pending_fault(pending, n - 1, run_id, next_id, mode) {
            Some(fault) => Some(fault),
            None => {
                let p = pending[n - 1];
                if p.id == 0 || p.id > next_id || id_taken(pending, n - 1, run_id, p.id) {
                    Some(BudgetCheckpointError::Invalid("invalid or duplicate reservation ID"))
                } else if p.failed_usage is Some && !p.started {
                    Some(
                        BudgetCheckpointError::Invalid("usage evidence on an unstarted reservation"),
                    )
                } else if model::request_fault(p.request, mode) is Some {
                    Some(BudgetCheckpointError::Invalid("invalid pending resource request"))
                } else if !totals_fit(pending.take(n)) {
                    Some(BudgetCheckpointError::Invalid("pending totals overflow"))
                } else {
                    None
                }
            },
        }
    }
}

/// No resource of the reservations overflows in the sum.
pub open spec fn totals_fit(pending: Seq<BudgetPendingReport>) -> bool {
    forall|r: BudgetResource| #[trigger] model::total(pending, r) <= u64::MAX
}

/// What pending reservations hold of a resource.
pub open spec fn held(pending: Seq<BudgetPendingReport>, r: BudgetResource) -> nat {
    if r.counts_attempts() {
        0
    } else {
        model::total(pending, r)
    }
}

/// The attempts that pending reservations were charged.
pub open spec fn attempted(pending: Seq<BudgetPendingReport>, r: BudgetResource) -> nat {
    if r.counts_attempts() {
        model::total(pending, r)
    } else {
        0
    }
}

/// The first resource, from the `i`th on, whose task account is wrong.
pub open spec fn task_fault(report: ReportView, i: int) -> Option<BudgetCheckpointError>
    decreases 7 - i,
{
    if i >= 7 {
        None
    } else {
        let r = BudgetResource::nth(i);
        if attempted(report.pending, r) > report.charged.at(r) {
            Some(BudgetCheckpointError::Invalid("pending attempts exceed task charges"))
        } else if !model::fits_within(
            report.charged.at(r),
            report.reserved.at(r),
            0,
            report.limits.resources.at(r),
        ) && report.stop is None {
            Some(BudgetCheckpointError::Invalid("over-limit task without stop evidence"))
        } else {
            task_fault(report, i + 1)
        }
    }
}

/// The first resource, from the `i`th on, whose run account is wrong.
pub open spec fn run_account_fault(report: ReportView, i: int) -> Option<BudgetCheckpointError>
    decreases 7 - i,
{
    if i >= 7 {
        None
    } else {
        let r = BudgetResource::nth(i);
        let run = report.run->0;
        if run.charged.at(r) > report.charged.at(r) || attempted(report.pending, r)
            > run.charged.at(r) || run.limits.resources.at(r) > report.limits.resources.at(r) {
            Some(
                BudgetCheckpointError::Invalid("run resource totals or limits exceed task values"),
            )
        } else if !model::fits_within(
            run.charged.at(r),
            run.reserved.at(r),
            0,
            run.limits.resources.at(r),
        ) && run.stop is None && report.stop is None {
            Some(BudgetCheckpointError::Invalid("over-limit run without stop evidence"))
        } else {
            run_account_fault(report, i + 1)
        }
    }
}

/// Reported usage goes beyond the charge.
pub open spec fn overdrawn(totals: UsageTotals, charged: u64) -> bool {
    totals.actual + totals.estimated > charged
}

pub open spec fn run_report_fault(report: ReportView, run: RunReportView) -> Option<
    BudgetCheckpointError,
> {
    if run.turn is Some && text::is_blank(run.turn->0) {
        Some(BudgetCheckpointError::Invalid("empty run TurnId"))
    } else if run.reserved != report.reserved || run.active > report.active || run.cleanup
        > report.cleanup {
        Some(BudgetCheckpointError::Invalid("run totals disagree with task totals"))
    } else {
        match run_account_fault(report, 0) {
            Some(fault) => Some(fault),
            None => if run.limits.active > report.limits.active || (run.active
                > run.limits.active && run.stop is None && report.stop is None) {
                Some(BudgetCheckpointError::Invalid("invalid run time limit"))
            } else {
                None
            },
        }
    }
}

impl ImageView {
    /// An anchor names an event of the task's own session.
    pub open spec fn anchor_is_proper(self) -> bool {
        match self.anchor {
            Some(anchor) => anchor.session == self.report.identity.session && !text::is_blank(
                anchor.turn,
            ) && !text::is_blank(anchor.event),
            None => true,
        }
    }

    /// The first structural fault of an image, if it has one.
    pub open spec fn fault(self) -> Option<BudgetCheckpointError> {
        let report = self.report;
        if self.revision == 0 {
            Some(BudgetCheckpointError::Invalid("revision zero is reserved for absent storage"))
        } else if !report.identity.is_named() {
            Some(BudgetCheckpointError::Invalid("empty identity"))
        } else if !self.anchor_is_proper() {
            Some(BudgetCheckpointError::Invalid("invalid event cursor identity"))
        } else if self.run_id is Some != report.run is Some {
            Some(BudgetCheckpointError::Invalid("run identity and run evidence disagree"))
        } else if report.run is None && report.pending.len() > 0 {
            Some(BudgetCheckpointError::Invalid("pending reservations without a run"))
        } else if self.run_id is Some && (self.run_id->0 == 0 || self.run_id->0 > self.next_id) {
            Some(BudgetCheckpointError::Invalid("invalid run ID watermark"))
        } else {
            match pending_fault(
                report.pending,
                report.pending.len() as int,
                self.run_id,
                self.next_id,
                report.token_mode,
            ) {
                Some(fault) => Some(fault),
                None => self.account_fault(),
            }
        }
    }

    /// The first fault of the accounts, once the reservations are sound.
    pub open spec fn account_fault(self) -> Option<BudgetCheckpointError> {
        let report = self.report;
        if exists|r: BudgetResource| #[trigger]
            report.reserved.at(r) != held(report.pending, r) {
            Some(
                BudgetCheckpointError::Invalid(
                    "reserved totals do not equal pending variable resources",
                ),
            )
        } else if self.next_id == 0 && (report.charged != BudgetAmounts::none() || report.active
            != 0) {
            Some(BudgetCheckpointError::Invalid("consumption without an allocated run"))
        } else {
            match task_fault(report, 0) {
                Some(fault) => Some(fault),
                None => if report.active > report.limits.active && report.stop is None {
                    Some(
                        BudgetCheckpointError::Invalid("over-limit task time without stop evidence"),
                    )
                } else if overdrawn(report.usage.input_tokens, report.charged.input_tokens)
                    || overdrawn(report.usage.output_tokens, report.charged.output_tokens)
                    || overdrawn(report.usage.tool_output_bytes, report.charged.tool_output_bytes) {
                    Some(
                        BudgetCheckpointError::Invalid("usage evidence exceeds conservative charges"),
                    )
                } else {
                    match report.run {
                        Some(run) => run_report_fault(report, run),
                        None => None,
                    }
                },
            }
        }
    }
}

fn check_id(
    pending: &Vec<BudgetPendingReport>,
    n: usize,
    run_id: Option<u64>,
    id: u64,
) -> (taken: bool)
    requires
        n <= pending@.len(),
    ensures
        taken == id_taken(pending@, n as int, run_id, id),
{
    match run_id {
        Some(run) => {
            if run == id {
                return true;
            }
        },
        None => {},
    }
    let mut j: usize = 0;
    while j < n
        invariant
            j <= n <= pending@.len(),
            run_id != Some(id),
            forall|k: int| 0 <= k < j ==> (#[trigger] pending@[k]).id != id,
        decreases n - j,
    {
        if pending[j].id == id {
            assert(pending@[j as int].id == id);
            return true;
        }
        j = j + 1;
    }
    false
}

fn sum_all(totals: &BudgetAmounts, more: &BudgetAmounts) -> (sum: Option<BudgetAmounts>)
    ensures
        match sum {
            Some(s) => forall|r: BudgetResource| #[trigger] s.at(r) == totals.at(r) + more.at(r),
            None => exists|r: BudgetResource| #[trigger] totals.at(r) + more.at(r) > u64::MAX,
        },
{
    let mut sum = BudgetAmounts::zero();
    let all = BudgetResource::ALL();
    let mut i: usize = 0;
    while i < 7
        invariant
            i <= 7,
            forall|j: int| 0 <= j < 7 ==> #[trigger] all@[j] == BudgetResource::nth(j),
            forall|j: int|
                0 <= j < i ==> sum.at(#[trigger] BudgetResource::nth(j)) == totals.at(
                    BudgetResource::nth(j),
                ) + more.at(BudgetResource::nth(j)),
        decreases 7 - i,
    {
        let resource = all[i];
        assert(all@[i as int] == BudgetResource::nth(i as int));
        match totals.get(resource).checked_add(more.get(resource)) {
            Some(value) => {
                sum.set(resource, value);
            },
            None => {
                assert(totals.at(resource) + more.at(resource) > u64::MAX);
                return None;
            },
        }
        i = i + 1;
    }
    assert forall|r: BudgetResource| #[trigger] sum.at(r) == totals.at(r) + more.at(r) by {
        let j = r.place();
        assert(BudgetResource::nth(j) == r);
    }
    Some(sum)
}

fn validate_pending(
    pending: &Vec<BudgetPendingReport>,
    run_id: Option<u64>,
    next_id: u64,
    mode: TokenBudgetMode,
) -> (result: Result<BudgetAmounts, BudgetCheckpointError>)
    ensures
        match result {
            Ok(sums) => {
                &&& pending_fault(pending@, pending@.len() as int, run_id, next_id, mode) is None
                &&& forall|r: BudgetResource| #[trigger] sums.at(r) == model::total(pending@, r)
            },
            Err(e) => pending_fault(pending@, pending@.len() as int, run_id, next_id, mode)
                == Some(e),
        },
{
    let mut sums = BudgetAmounts::zero();
    let mut i: usize = 0;
    while i < pending.len()
        invariant
            i <= pending@.len(),
            pending_fault(pending@, i as int, run_id, next_id, mode) is None,
            forall|r: BudgetResource|
                #[trigger] sums.at(r) == model::total(pending@.take(i as int), r),
        decreases pending@.len() - i,
    {
        let p = pending[i];
        let taken: bool = check_id(pending, i, run_id, p.id);
        proof {
            if p.id == 0 || p.id > next_id || taken || (p.failed_usage is Some && !p.started)
                || model::request_fault(p.request, mode) is Some {
                lemma_fault_stays(pending@, i as int + 1, run_id, next_id, mode);
            }
        }
        if p.id == 0 || p.id > next_id || taken {
            return Err(BudgetCheckpointError::Invalid("invalid or duplicate reservation ID"));
        }
        if p.failed_usage.is_some() && !p.started {
            return Err(
                BudgetCheckpointError::Invalid("usage evidence on an unstarted reservation"),
            );
        }
        if validate_request(&p.request, mode).is_err() {
            return Err(BudgetCheckpointError::Invalid("invalid pending resource request"));
        }
        assert(pending@.take(i as int + 1) =~= pending@.take(i as int).push(p));
        match sum_all(&sums, &p.request.amounts) {
            Some(next) => {
                assert forall|r: BudgetResource| #[trigger] next.at(r) == model::total(
                    pending@.take(i as int + 1),
                    r,
                ) by {
                    laws::total_push(pending@.take(i as int), p, r);
                }
                assert forall|r: BudgetResource| #[trigger] model::total(
                    pending@.take(i as int + 1),
                    r,
                ) <= u64::MAX by {
                    assert(next.at(r) == model::total(pending@.take(i as int + 1), r));
                }
                sums = next;
            },
            None => {
                proof {
                    let r = choose|r: BudgetResource| #[trigger]
                        sums.at(r) + p.request.amounts.at(r) > u64::MAX;
                    laws::total_push(pending@.take(i as int), p, r);
                    assert(!(model::total(pending@.take(i as int + 1), r) <= u64::MAX));
                    lemma_fault_stays(pending@, i as int + 1, run_id, next_id, mode);
                }
                return Err(BudgetCheckpointError::Invalid("pending totals overflow"));
            },
        }
        i = i + 1;
    }
    assert(pending@.take(pending@.len() as int) =~= pending@);
    Ok(sums)
}

/// A fault among the first reservations is the fault of all.
proof fn lemma_fault_stays(
    pending: Seq<BudgetPendingReport>,
    n: int,
    run_id: Option<u64>,
    next_id: u64,
    mode: TokenBudgetMode,
)
    requires
        0 <= n <= pending.len(),
        pending_fault(pending, n, run_id, next_id, mode) is Some,
    ensures
        pending_fault(pending, pending.len() as int, run_id, next_id, mode) == pending_fault(
            pending,
            n,
            run_id,
            next_id,
            mode,
        ),
    decreases pending.len() - n,
{
    if n < pending.len() {
        assert(pending_fault(pending, n + 1, run_id, next_id, mode) == pending_fault(
            pending,
            n,
            run_id,
            next_id,
            mode,
        ));
        lemma_fault_stays(pending, n + 1, run_id, next_id, mode);
    }
}

fn attempts(sums: &BudgetAmounts, r: BudgetResource) -> (value: u64)
    ensures
        value == if r.counts_attempts() {
            sums.at(r)
        } else {
            0
        },
{
    if r.is_attempt() {
        sums.get(r)
    } else {
        0
    }
}

fn validate_task_accounts(report: &BudgetReport, sums: &BudgetAmounts) -> (result: Result<
    (),
    BudgetCheckpointError,
>)
    requires
        forall|r: BudgetResource| #[trigger] sums.at(r) == model::total(report.pending@, r),
    ensures
        match result {
            Ok(_) => task_fault(report@, 0) is None,
            Err(e) => task_fault(report@, 0) == Some(e),
        },
{
    let all = BudgetResource::ALL();
    let mut i: usize = 0;
    while i < 7
        invariant
            i <= 7,
            forall|j: int| 0 <= j < 7 ==> #[trigger] all@[j] == BudgetResource::nth(j),
            forall|r: BudgetResource| #[trigger] sums.at(r) == model::total(report.pending@, r),
            task_fault(report@, 0) == task_fault(report@, i as int),
        decreases 7 - i,
    {
        let r = all[i];
        assert(all@[i as int] == BudgetResource::nth(i as int));
        assert(sums.at(r) == model::total(report.pending@, r));
        if attempts(sums, r) > report.charged.get(r) {
            return Err(BudgetCheckpointError::Invalid("pending attempts exceed task charges"));
        }
        if !fits(report.charged.get(r), report.reserved.get(r), 0, report.limits.resources.get(r))
            && report.stop.is_none() {
            return Err(BudgetCheckpointError::Invalid("over-limit task without stop evidence"));
        }
        i = i + 1;
    }
    Ok(())
}

fn validate_run_accounts(report: &BudgetReport, run: &BudgetRunReport, sums: &BudgetAmounts) -> (result:
    Result<(), BudgetCheckpointError>)
    requires
        report.run == Some(*run),
        forall|r: BudgetResource| #[trigger] sums.at(r) == model::total(report.pending@, r),
    ensures
        match result {
            Ok(_) => run_account_fault(report@, 0) is None,
            Err(e) => run_account_fault(report@, 0) == Some(e),
        },
{
    let all = BudgetResource::ALL();
    let mut i: usize = 0;
    while i < 7
        invariant
            i <= 7,
            report.run == Some(*run),
            forall|j: int| 0 <= j < 7 ==> #[trigger] all@[j] == BudgetResource::nth(j),
            forall|r: BudgetResource| #[trigger] sums.at(r) == model::total(report.pending@, r),
            run_account_fault(report@, 0) == run_account_fault(report@, i as int),
        decreases 7 - i,
    {
        let r = all[i];
        assert(all@[i as int] == BudgetResource::nth(i as int));
        assert(sums.at(r) == model::total(report.pending@, r));
        assert(report@.run->0 == run@);
        if run.charged.get(r) > report.charged.get(r) || attempts(sums, r) > run.charged.get(r)
            || run.limits.resources.get(r) > report.limits.resources.get(r) {
            return Err(
                BudgetCheckpointError::Invalid("run resource totals or limits exceed task values"),
            );
        }
        if !fits(run.charged.get(r), run.reserved.get(r), 0, run.limits.resources.get(r))
            && run.stop.is_none() && report.stop.is_none() {
            return Err(BudgetCheckpointError::Invalid("over-limit run without stop evidence"));
        }
        i = i + 1;
    }
    Ok(())
}

fn validate_run_report(report: &BudgetReport, run: &BudgetRunReport, sums: &BudgetAmounts) -> (result:
    Result<(), BudgetCheckpointError>)
    requires
        report.run == Some(*run),
        forall|r: BudgetResource| #[trigger] sums.at(r) == model::total(report.pending@, r),
    ensures
        match result {
            Ok(_) => run_report_fault(report@, run@) is None,
            Err(e) => run_report_fault(report@, run@) == Some(e),
        },
{
    match &run.turn_id {
        Some(id) => {
            if text::blank(id.as_str()) {
                return Err(BudgetCheckpointError::Invalid("empty run TurnId"));
            }
        },
        None => {},
    }
    if run.reserved != report.reserved || report.active_time.shorter_than(&run.active_time)
        || report.cleanup_time.shorter_than(&run.cleanup_time) {
        return Err(BudgetCheckpointError::Invalid("run totals disagree with task totals"));
    }
    match validate_run_accounts(report, run, sums) {
        Err(e) => {
            return Err(e);
        },
        Ok(_) => {},
    }
    if report.limits.active_time.shorter_than(&run.limits.active_time) || (
    run.limits.active_time.shorter_than(&run.active_time) && run.stop.is_none()
        && report.stop.is_none()) {
        return Err(BudgetCheckpointError::Invalid("invalid run time limit"));
    }
    Ok(())
}

fn over(totals: &UsageTotals, charged: u64) -> (answer: bool)
    ensures
        answer == overdrawn(*totals, charged),
{
    match totals.actual.checked_add(totals.estimated) {
        Some(sum) => sum > charged,
        None => true,
    }
}

fn validate_accounts(report: &BudgetReport, next_id: u64, sums: &BudgetAmounts) -> (result: Result<
    (),
    BudgetCheckpointError,
>)
    requires
        forall|r: BudgetResource| #[trigger] sums.at(r) == model::total(report.pending@, r),
    ensures
        forall|image: ImageView|
            image.report == report@ && image.next_id == next_id ==> match result {
                Ok(_) => #[trigger] image.account_fault() is None,
                Err(e) => image.account_fault() == Some(e),
            },
{
    let holds = BudgetAmounts {
        steps: 0,
        model_requests: 0,
        tool_calls: 0,
        corrections: 0,
        input_tokens: sums.input_tokens,
        output_tokens: sums.output_tokens,
        tool_output_bytes: sums.tool_output_bytes,
    };
    assert forall|r: BudgetResource| #[trigger] holds.at(r) == held(report.pending@, r) by {
        assert(sums.at(r) == model::total(report.pending@, r));
    }
    if holds != report.reserved {
        proof {
            if forall|r: BudgetResource| holds.at(r) == #[trigger] report.reserved.at(r) {
                holds.equal_by_resource(report.reserved);
            }
            let r = choose|r: BudgetResource| holds.at(r) != #[trigger] report.reserved.at(r);
            assert(holds.at(r) == held(report.pending@, r));
            assert(report@.reserved.at(r) != held(report@.pending, r));
        }
        return Err(
            BudgetCheckpointError::Invalid(
                "reserved totals do not equal pending variable resources",
            ),
        );
    }
    if next_id == 0 && (report.charged != BudgetAmounts::zero() || !report.active_time.same_length(
        &Duration::zero(),
    )) {
        return Err(BudgetCheckpointError::Invalid("consumption without an allocated run"));
    }
    match validate_task_accounts(report, sums) {
        Err(e) => {
            return Err(e);
        },
        Ok(_) => {},
    }
    if report.limits.active_time.shorter_than(&report.active_time) && report.stop.is_none() {
        return Err(BudgetCheckpointError::Invalid("over-limit task time without stop evidence"));
    }
    if over(&report.usage.input_tokens, report.charged.input_tokens) || over(
        &report.usage.output_tokens,
        report.charged.output_tokens,
    ) || over(&report.usage.tool_output_bytes, report.charged.tool_output_bytes) {
        return Err(BudgetCheckpointError::Invalid("usage evidence exceeds conservative charges"));
    }
    match &report.run {
        Some(run) => validate_run_report(report, run, sums),
        None => Ok(()),
    }
}

/// The structural checks of an image, given by its parts.
pub(crate) fn validate_image(
    revision: u64,
    next_id: u64,
    anchor: &Option<BudgetEventCursor>,
    report: &BudgetReport,
    run_id: Option<u64>,
    recovery_frozen: bool,
) -> (result: Result<(), BudgetCheckpointError>)
    ensures
        ({
            let image = ImageView {
                revision,
                next_id,
                anchor: anchor_view(*anchor),
                report: report@,
                run_id,
                recovery_frozen,
            };
            match result {
                Ok(_) => image.fault() is None,
                Err(e) => image.fault() == Some(e),
            }
        }),
{
    if revision == 0 {
        return Err(BudgetCheckpointError::Invalid("revision zero is reserved for absent storage"));
    }
    if !report.identity.named() {
        return Err(BudgetCheckpointError::Invalid("empty identity"));
    }
    match anchor {
        Some(anchor) => {
            if !anchor.session_id.is_same(&report.identity.session_id) || text::blank(
                anchor.turn_id.as_str(),
            ) || text::blank(anchor.event_id.as_str()) {
                return Err(BudgetCheckpointError::Invalid("invalid event cursor identity"));
            }
        },
        None => {},
    }
    if run_id.is_some() != report.run.is_some() {
        return Err(BudgetCheckpointError::Invalid("run identity and run evidence disagree"));
    }
    if report.run.is_none() && report.pending.len() > 0 {
        return Err(BudgetCheckpointError::Invalid("pending reservations without a run"));
    }
    match run_id {
        Some(id) => {
            if id == 0 || id > next_id {
                return Err(BudgetCheckpointError::Invalid("invalid run ID watermark"));
            }
        },
        None => {},
    }
    let ghost image = ImageView {
        revision,
        next_id,
        anchor: anchor_view(*anchor),
        report: report@,
        run_id,
        recovery_frozen,
    };
    match validate_pending(&report.pending, run_id, next_id, report.token_mode) {
        Err(e) => Err(e),
        Ok(sums) => {
            let result = validate_accounts(report, next_id, &sums);
            assert(image.report == report@ && image.next_id == next_id);
            assert(image.account_fault() is None || image.account_fault() is Some);
            result
        },
    }
}

} // verus!
