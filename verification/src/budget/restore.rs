//! From a sealed image back to a ledger.

use crate::budget::audit;
use crate::budget::checkpoint;
use crate::budget::checkpoint::{BudgetCheckpointError, CursorView};
use crate::budget::laws;
use crate::budget::ledger::fits;
use crate::budget::model;
use crate::budget::model::{LedgerView, RunStateView};
use crate::budget::sealed::CheckpointView;
use crate::budget::vocabulary::{
    BudgetAmounts, BudgetPendingReport, BudgetResource, BudgetStopReason, IdentityView,
    LimitsView, ReportView, RunReportView, TokenBudgetMode,
};
use crate::text;
use vstd::prelude::*;

verus! {

/// `s` with `p` behind everything of a lower number.
pub open spec fn insert_by_id(s: Seq<BudgetPendingReport>, p: BudgetPendingReport) -> Seq<
    BudgetPendingReport,
>
    decreases s.len(),
{
    if s.len() == 0 || s.last().id < p.id {
        s.push(p)
    } else {
        insert_by_id(s.drop_last(), p).push(s.last())
    }
}

/// Reservations in the order of their numbers.
pub open spec fn by_id(pending: Seq<BudgetPendingReport>) -> Seq<BudgetPendingReport>
    decreases pending.len(),
{
    if pending.len() == 0 {
        pending
    } else {
        insert_by_id(by_id(pending.drop_last()), pending.last())
    }
}

pub open spec fn increasing(s: Seq<BudgetPendingReport>) -> bool {
    forall|i: int, j: int| 0 <= i < j < s.len() ==> (#[trigger] s[i]).id < (#[trigger] s[j]).id
}

/// The stop of a restored task: the first resource, from the `i`th on, that no longer
/// fits stops it, unless something else does.
pub open spec fn limit_stop(
    charged: BudgetAmounts,
    reserved: BudgetAmounts,
    limits: BudgetAmounts,
    stop: Option<BudgetStopReason>,
    i: int,
) -> Option<BudgetStopReason>
    decreases 7 - i,
{
    if i >= 7 {
        stop
    } else {
        let r = BudgetResource::nth(i);
        let next = if !model::fits_within(charged.at(r), reserved.at(r), 0, limits.at(r)) {
            model::first_stop(stop, BudgetStopReason::ResourceLimit(r))
        } else {
            stop
        };
        limit_stop(charged, reserved, limits, next, i + 1)
    }
}

impl CheckpointView {
    /// An image of work that had not ended.
    pub open spec fn was_interrupted(self) -> bool {
        self.image.recovery_frozen || self.image.report.run is Some
            || self.image.report.pending.len() > 0
    }

    /// The ledger that an image restores to under the limits of a host. What was
    /// interrupted comes back frozen.
    pub open spec fn restored(self, host: LimitsView, now: nat) -> LedgerView {
        let report = self.image.report;
        let limits = report.limits.meet(host);
        let stop = if self.was_interrupted() {
            model::first_stop(report.stop, BudgetStopReason::RecoveryRequired)
        } else if report.active >= limits.active {
            model::first_stop(report.stop, BudgetStopReason::ActiveTime)
        } else {
            report.stop
        };
        LedgerView {
            identity: report.identity,
            limits,
            token_mode: report.token_mode,
            sealed: false,
            recovery_frozen: self.was_interrupted(),
            revision: self.image.revision,
            charged: report.charged,
            reserved: report.reserved,
            usage: report.usage,
            active: report.active,
            cleanup: report.cleanup,
            stop: limit_stop(report.charged, report.reserved, limits.resources, stop, 0),
            run: match (report.run, self.image.run_id) {
                (Some(run), Some(id)) => Some(
                    RunStateView {
                        id,
                        cleaning: true,
                        report: RunReportView {
                            open: false,
                            limits: run.limits.meet(limits),
                            ..run
                        },
                    },
                ),
                _ => None,
            },
            pending: by_id(report.pending),
            next_id: self.image.next_id,
            clock: now,
            grants: self.grants,
            recoveries: self.recoveries,
        }
    }

    /// Why an image is not what the host expects, if so.
    pub open spec fn restore_fault(
        self,
        identity: IdentityView,
        revision: u64,
        anchor: Option<CursorView>,
    ) -> Option<BudgetCheckpointError> {
        match self.fault() {
            Some(fault) => Some(fault),
            None => if self.image.report.identity != identity {
                Some(BudgetCheckpointError::IdentityMismatch)
            } else if self.image.revision != revision {
                Some(
                    BudgetCheckpointError::RevisionMismatch {
                        expected: revision,
                        actual: self.image.revision,
                    },
                )
            } else if self.image.anchor != anchor {
                Some(BudgetCheckpointError::AnchorMismatch)
            } else {
                None
            },
        }
    }
}

/// Inserting at the right place is inserting by number.
proof fn insert_at(s: Seq<BudgetPendingReport>, p: BudgetPendingReport, i: int)
    requires
        0 <= i <= s.len(),
        forall|j: int| i <= j < s.len() ==> (#[trigger] s[j]).id >= p.id,
        i > 0 ==> s[i - 1].id < p.id,
    ensures
        insert_by_id(s, p) == s.insert(i, p),
    decreases s.len(),
{
    if i == s.len() {
        assert(s.insert(i, p) =~= s.push(p));
    } else {
        insert_at(s.drop_last(), p, i);
        assert(s.insert(i, p) =~= s.drop_last().insert(i, p).push(s.last()));
    }
}

/// Puts a reservation where its number belongs.
pub(crate) fn insert_pending(pending: &mut Vec<BudgetPendingReport>, p: BudgetPendingReport)
    ensures
        final(pending)@ == insert_by_id(old(pending)@, p),
{
    let mut i: usize = pending.len();
    while i > 0 && pending[i - 1].id >= p.id
        invariant
            i <= pending@.len(),
            forall|j: int| i <= j < pending@.len() ==> (#[trigger] pending@[j]).id >= p.id,
        decreases i,
    {
        i = i - 1;
    }
    proof {
        insert_at(pending@, p, i as int);
    }
    pending.insert(i, p);
}

/// Reservations in the order of their numbers.
pub(crate) fn sort_pending(pending: &Vec<BudgetPendingReport>) -> (sorted: Vec<BudgetPendingReport>)
    ensures
        sorted@ == by_id(pending@),
{
    let mut sorted: Vec<BudgetPendingReport> = Vec::new();
    let mut i: usize = 0;
    assert(by_id(pending@.take(0)) =~= Seq::empty());
    while i < pending.len()
        invariant
            i <= pending@.len(),
            sorted@ == by_id(pending@.take(i as int)),
        decreases pending@.len() - i,
    {
        insert_pending(&mut sorted, pending[i]);
        assert(pending@.take(i as int + 1).drop_last() =~= pending@.take(i as int));
        i = i + 1;
    }
    assert(pending@.take(pending@.len() as int) =~= pending@);
    sorted
}

pub(crate) fn find_limit_stop(
    charged: &BudgetAmounts,
    reserved: &BudgetAmounts,
    limits: &BudgetAmounts,
    stop: Option<BudgetStopReason>,
) -> (found: Option<BudgetStopReason>)
    ensures
        found == limit_stop(*charged, *reserved, *limits, stop, 0),
{
    let all = BudgetResource::ALL();
    let mut found = stop;
    let mut i: usize = 0;
    while i < 7
        invariant
            i <= 7,
            forall|j: int| 0 <= j < 7 ==> #[trigger] all@[j] == BudgetResource::nth(j),
            limit_stop(*charged, *reserved, *limits, stop, 0) == limit_stop(
                *charged,
                *reserved,
                *limits,
                found,
                i as int,
            ),
        decreases 7 - i,
    {
        let r = all[i];
        assert(all@[i as int] == BudgetResource::nth(i as int));
        if !fits(charged.get(r), reserved.get(r), 0, limits.get(r)) && found.is_none() {
            found = Some(BudgetStopReason::ResourceLimit(r));
        }
        i = i + 1;
    }
    found
}

/// Inserting keeps the order and adds exactly the new reservation.
proof fn insert_keeps_order(s: Seq<BudgetPendingReport>, p: BudgetPendingReport)
    requires
        increasing(s),
        forall|j: int| 0 <= j < s.len() ==> (#[trigger] s[j]).id != p.id,
    ensures
        increasing(insert_by_id(s, p)),
        insert_by_id(s, p).len() == s.len() + 1,
        forall|r: BudgetResource|
            #[trigger] model::total(insert_by_id(s, p), r) == model::total(s, r)
                + p.request.amounts.at(r),
        forall|x: BudgetPendingReport|
            #[trigger] insert_by_id(s, p).contains(x) ==> x == p || s.contains(x),
    decreases s.len(),
{
    let t = insert_by_id(s, p);
    if s.len() == 0 || s.last().id < p.id {
        assert forall|r: BudgetResource| #[trigger] model::total(t, r) == model::total(s, r)
            + p.request.amounts.at(r) by {
            laws::total_push(s, p, r);
        }
        assert forall|x: BudgetPendingReport| #[trigger] t.contains(x) implies x == p || s.contains(
            x,
        ) by {
            let k = t.index_of(x);
            if k < s.len() {
                assert(s[k] == x);
            }
        }
        assert forall|i: int, j: int| 0 <= i < j < t.len() implies (#[trigger] t[i]).id < (
        #[trigger] t[j]).id by {
            if j == s.len() && i < s.len() - 1 {
                assert(s[i].id < s[s.len() - 1].id);
            }
        }
    } else {
        let d = s.drop_last();
        let last = s.last();
        insert_keeps_order(d, p);
        let u = insert_by_id(d, p);
        assert(p.id < last.id);
        assert forall|r: BudgetResource| #[trigger] model::total(t, r) == model::total(s, r)
            + p.request.amounts.at(r) by {
            laws::total_push(u, last, r);
            assert(model::total(u, r) == model::total(d, r) + p.request.amounts.at(r));
        }
        assert forall|x: BudgetPendingReport| #[trigger] t.contains(x) implies x == p || s.contains(
            x,
        ) by {
            let k = t.index_of(x);
            if k < u.len() {
                assert(u[k] == x);
                assert(u.contains(x));
                if x != p {
                    assert(d.contains(x));
                    let m = d.index_of(x);
                    assert(s[m] == x);
                }
            } else {
                assert(s[s.len() - 1] == x);
            }
        }
        assert forall|i: int, j: int| 0 <= i < j < t.len() implies (#[trigger] t[i]).id < (
        #[trigger] t[j]).id by {
            if j == u.len() {
                let x = u[i];
                assert(u.contains(x));
                if x != p {
                    let m = d.index_of(x);
                    assert(s[m].id < s[s.len() - 1].id);
                }
            } else {
                assert(u[i].id < u[j].id);
            }
        }
    }
}

/// Sorting keeps every reservation and every total.
proof fn sorting_keeps_all(pending: Seq<BudgetPendingReport>)
    requires
        forall|i: int, j: int|
            0 <= i < j < pending.len() ==> (#[trigger] pending[i]).id != (#[trigger] pending[j]).id,
    ensures
        increasing(by_id(pending)),
        by_id(pending).len() == pending.len(),
        forall|r: BudgetResource|
            #[trigger] model::total(by_id(pending), r) == model::total(pending, r),
        forall|x: BudgetPendingReport| #[trigger] by_id(pending).contains(x) ==> pending.contains(x),
    decreases pending.len(),
{
    if pending.len() > 0 {
        let d = pending.drop_last();
        let p = pending.last();
        sorting_keeps_all(d);
        let s = by_id(d);
        assert forall|j: int| 0 <= j < s.len() implies (#[trigger] s[j]).id != p.id by {
            assert(s.contains(s[j]));
            let k = d.index_of(s[j]);
            assert(pending[k].id != pending[pending.len() - 1].id);
        }
        insert_keeps_order(s, p);
        assert forall|x: BudgetPendingReport| #[trigger] by_id(pending).contains(
            x,
        ) implies pending.contains(x) by {
            if x == p {
                assert(pending[pending.len() - 1] == x);
            } else {
                assert(s.contains(x));
                let k = d.index_of(x);
                assert(pending[k] == x);
            }
        }
        assert forall|r: BudgetResource| #[trigger] model::total(by_id(pending), r) == model::total(
            pending,
            r,
        ) by {
            assert(model::total(insert_by_id(s, p), r) == model::total(s, r)
                + p.request.amounts.at(r));
            assert(model::total(s, r) == model::total(d, r));
        }
    }
}

/// What stands in order already stays as it is.
proof fn sorted_stays(pending: Seq<BudgetPendingReport>)
    requires
        increasing(pending),
    ensures
        by_id(pending) == pending,
    decreases pending.len(),
{
    if pending.len() > 0 {
        let d = pending.drop_last();
        sorted_stays(d);
        if d.len() > 0 {
            assert(pending[d.len() - 1].id < pending[pending.len() - 1].id);
        }
        assert(d.push(pending.last()) =~= pending);
    }
}

/// Reservations without a fault are sound one by one and all different.
proof fn pending_sound(
    pending: Seq<BudgetPendingReport>,
    n: int,
    run_id: Option<u64>,
    next_id: u64,
    mode: TokenBudgetMode,
)
    requires
        0 <= n <= pending.len(),
        checkpoint::pending_fault(pending, n, run_id, next_id, mode) is None,
    ensures
        forall|i: int|
            0 <= i < n ==> {
                let p = #[trigger] pending[i];
                &&& 1 <= p.id <= next_id
                &&& run_id != Some(p.id)
                &&& model::request_fault(p.request, mode) is None
                &&& p.failed_usage is Some ==> p.started
            },
        forall|i: int, j: int|
            0 <= i < j < n ==> (#[trigger] pending[i]).id != (#[trigger] pending[j]).id,
    decreases n,
{
    if n > 0 {
        pending_sound(pending, n - 1, run_id, next_id, mode);
        assert forall|i: int, j: int| 0 <= i < j < n implies (#[trigger] pending[i]).id != (
        #[trigger] pending[j]).id by {
            if j == n - 1 {
                assert(!checkpoint::id_taken(pending, n - 1, run_id, pending[j].id));
            }
        }
    }
}

/// Task accounts without a fault hold for every resource from the `i`th on.
proof fn task_sound(report: ReportView, i: int)
    requires
        0 <= i <= 7,
        checkpoint::task_fault(report, i) is None,
    ensures
        forall|j: int|
            i <= j < 7 ==> {
                let r = #[trigger] BudgetResource::nth(j);
                &&& checkpoint::attempted(report.pending, r) <= report.charged.at(r)
            },
    decreases 7 - i,
{
    if i < 7 {
        task_sound(report, i + 1);
    }
}

/// Run accounts without a fault hold for every resource from the `i`th on.
proof fn run_sound(report: ReportView, i: int)
    requires
        0 <= i <= 7,
        checkpoint::run_account_fault(report, i) is None,
    ensures
        forall|j: int|
            i <= j < 7 ==> {
                let r = #[trigger] BudgetResource::nth(j);
                let run = report.run->0;
                &&& run.charged.at(r) <= report.charged.at(r)
                &&& checkpoint::attempted(report.pending, r) <= run.charged.at(r)
            },
    decreases 7 - i,
{
    if i < 7 {
        run_sound(report, i + 1);
    }
}

/// A restored stop is only absent where everything fits.
proof fn no_limit_stop(
    charged: BudgetAmounts,
    reserved: BudgetAmounts,
    limits: BudgetAmounts,
    stop: Option<BudgetStopReason>,
    i: int,
)
    requires
        0 <= i <= 7,
    ensures
        stop is Some ==> limit_stop(charged, reserved, limits, stop, i) == stop,
        limit_stop(charged, reserved, limits, stop, i) is None ==> stop is None && forall|j: int|
            i <= j < 7 ==> model::fits_within(
                charged.at(#[trigger] BudgetResource::nth(j)),
                reserved.at(BudgetResource::nth(j)),
                0,
                limits.at(BudgetResource::nth(j)),
            ),
        (stop is None && forall|j: int|
            i <= j < 7 ==> model::fits_within(
                charged.at(#[trigger] BudgetResource::nth(j)),
                reserved.at(BudgetResource::nth(j)),
                0,
                limits.at(BudgetResource::nth(j)),
            )) ==> limit_stop(charged, reserved, limits, stop, i) is None,
    decreases 7 - i,
{
    if i < 7 {
        let r = BudgetResource::nth(i);
        let next = if !model::fits_within(charged.at(r), reserved.at(r), 0, limits.at(r)) {
            model::first_stop(stop, BudgetStopReason::ResourceLimit(r))
        } else {
            stop
        };
        no_limit_stop(charged, reserved, limits, next, i + 1);
    }
}

/// Whatever image passes its checks restores to a ledger whose accounts agree.
pub proof fn restoring_gives_agreement(c: CheckpointView, host: LimitsView, now: nat)
    requires
        c.fault() is None,
    ensures
        c.restored(host, now).wf(),
{
    let report = c.image.report;
    let v = c.restored(host, now);
    let limits = report.limits.meet(host);
    pending_sound(
        report.pending,
        report.pending.len() as int,
        c.image.run_id,
        c.image.next_id,
        report.token_mode,
    );
    sorting_keeps_all(report.pending);
    task_sound(report, 0);
    let stop = if c.was_interrupted() {
        model::first_stop(report.stop, BudgetStopReason::RecoveryRequired)
    } else if report.active >= limits.active {
        model::first_stop(report.stop, BudgetStopReason::ActiveTime)
    } else {
        report.stop
    };
    no_limit_stop(report.charged, report.reserved, limits.resources, stop, 0);
    assert(v.pending_agrees()) by {
        assert forall|i: int| 0 <= i < v.pending.len() implies v.reservation_agrees(
            #[trigger] v.pending[i],
        ) by {
            assert(v.pending.contains(v.pending[i]));
            let k = report.pending.index_of(v.pending[i]);
            assert(report.pending[k] == v.pending[i]);
        }
        assert forall|r: BudgetResource| #[trigger] v.reserved.at(r) == if r.counts_attempts() {
            0
        } else {
            model::total(v.pending, r)
        } by {
            assert(report.reserved.at(r) == checkpoint::held(report.pending, r));
            assert(model::total(v.pending, r) == model::total(report.pending, r));
        }
    }
    if report.run is Some {
        run_sound(report, 0);
        let run = report.run->0;
        run.limits.meet_is_greatest_lower_bound(limits, limits);
        assert forall|r: BudgetResource|
            #![trigger v.run->0.report.charged.at(r)]
            v.run->0.report.charged.at(r) <= v.charged.at(r) by {
            let j = r.place();
            assert(BudgetResource::nth(j) == r);
        }
        assert forall|r: BudgetResource| r.counts_attempts() implies #[trigger] model::total(
            v.pending,
            r,
        ) <= v.run->0.report.charged.at(r) by {
            let j = r.place();
            assert(BudgetResource::nth(j) == r);
            assert(model::total(v.pending, r) == model::total(report.pending, r));
        }
    }
    assert(v.evidence_covered()) by {
        assert forall|r: BudgetResource|
            #![trigger v.usage.at(r)]
            v.usage.at(r).actual + v.usage.at(r).estimated <= v.charged.at(r) by {}
    }
    if v.stop is None {
        assert forall|r: BudgetResource|
            model::fits_within(
                v.charged.at(r),
                v.reserved.at(r),
                0,
                #[trigger] v.limits.resources.at(r),
            ) by {
            let j = r.place();
            assert(BudgetResource::nth(j) == r);
        }
    }
}

/// An image of interrupted work comes back frozen: whatever is tried on it, nothing
/// changes and nothing is refunded. It keeps the stop it had, and needs recovery where
/// it had none.
pub proof fn interrupted_work_stays_frozen(c: CheckpointView, host: LimitsView, now: nat)
    requires
        c.was_interrupted(),
    ensures
        c.restored(host, now).recovery_frozen,
        c.restored(host, now).writable_fault() is Some,
        c.restored(host, now).charged == c.image.report.charged,
        c.restored(host, now).reserved == c.image.report.reserved,
        c.restored(host, now).usage == c.image.report.usage,
        c.restored(host, now).stop == model::first_stop(
            c.image.report.stop,
            BudgetStopReason::RecoveryRequired,
        ),
{
    let limits = c.image.report.limits.meet(host);
    no_limit_stop(
        c.image.report.charged,
        c.image.report.reserved,
        limits.resources,
        model::first_stop(c.image.report.stop, BudgetStopReason::RecoveryRequired),
        0,
    );
}

/// Reservations that agree have no fault.
proof fn agreeing_pending_has_no_fault(v: LedgerView, n: int)
    requires
        v.wf(),
        0 <= n <= v.pending.len(),
    ensures
        checkpoint::pending_fault(
            v.pending,
            n,
            v.image(None).image.run_id,
            v.next_id,
            v.token_mode,
        ) is None,
    decreases n,
{
    if n > 0 {
        agreeing_pending_has_no_fault(v, n - 1);
        let p = v.pending[n - 1];
        assert(v.reservation_agrees(p));
        let run_id = v.image(None).image.run_id;
        if checkpoint::id_taken(v.pending, n - 1, run_id, p.id) && run_id != Some(p.id) {
            let j = choose|j: int| 0 <= j < n - 1 && (#[trigger] v.pending[j]).id == p.id;
            assert(v.pending[j].id < v.pending[n - 1].id);
        }
        assert forall|r: BudgetResource| #[trigger] model::total(v.pending.take(n), r)
            <= u64::MAX by {
            prefix_total(v.pending, n, r);
            if r.counts_attempts() {
                assert(model::total(v.pending, r) <= v.run->0.report.charged.at(r));
            } else {
                assert(v.reserved.at(r) == model::total(v.pending, r));
            }
        }
    }
}

/// Fewer reservations ask for no more.
proof fn prefix_total(pending: Seq<BudgetPendingReport>, n: int, r: BudgetResource)
    requires
        0 <= n <= pending.len(),
    ensures
        model::total(pending.take(n), r) <= model::total(pending, r),
    decreases pending.len() - n,
{
    if n == pending.len() {
        assert(pending.take(n) =~= pending);
    } else {
        prefix_total(pending, n + 1, r);
        assert(pending.take(n + 1).drop_last() =~= pending.take(n));
    }
}

/// Attempts of pending reservations are part of the charges.
proof fn attempts_are_charged(v: LedgerView, r: BudgetResource)
    requires
        v.wf(),
    ensures
        checkpoint::attempted(v.pending, r) <= v.charged.at(r),
        v.run is Some ==> checkpoint::attempted(v.pending, r) <= v.run->0.report.charged.at(r),
{
    if v.run is Some {
        if r.counts_attempts() {
            assert(model::total(v.pending, r) <= v.run->0.report.charged.at(r));
        }
        assert(v.run->0.report.charged.at(r) <= v.charged.at(r));
    }
}

/// Agreeing accounts have no fault.
proof fn agreeing_task_has_no_fault(v: LedgerView, i: int)
    requires
        v.wf(),
        0 <= i <= 7,
    ensures
        checkpoint::task_fault(v.report(), i) is None,
    decreases 7 - i,
{
    if i < 7 {
        agreeing_task_has_no_fault(v, i + 1);
        let r = BudgetResource::nth(i);
        attempts_are_charged(v, r);
        if v.stop is None {
            assert(model::fits_within(
                v.charged.at(r),
                v.reserved.at(r),
                0,
                v.limits.resources.at(r),
            ));
        }
    }
}

proof fn agreeing_run_has_no_fault(v: LedgerView, i: int)
    requires
        v.wf(),
        v.run is Some,
        0 <= i <= 7,
    ensures
        checkpoint::run_account_fault(v.report(), i) is None,
    decreases 7 - i,
{
    if i < 7 {
        agreeing_run_has_no_fault(v, i + 1);
        let r = BudgetResource::nth(i);
        let run = v.run->0.report;
        attempts_are_charged(v, r);
        assert(run.limits.resources.at(r) <= v.limits.resources.at(r));
        assert(run.charged.at(r) <= v.charged.at(r));
        if v.stop is None && run.stop is None {
            assert(model::fits_within(
                run.charged.at(r),
                run.reserved.at(r),
                0,
                run.limits.resources.at(r),
            ));
        }
    }
}

/// A ledger whose accounts agree seals to an image without a structural fault, given a
/// proper anchor and, where a run is bound, a turn that says something.
pub proof fn sealing_succeeds(v: LedgerView, anchor: Option<CursorView>)
    requires
        v.wf(),
        v.revision < u64::MAX,
        v.image(anchor).image.anchor_is_proper(),
        v.run is Some && v.run->0.report.turn is Some ==> !text::is_blank(
            v.run->0.report.turn->0,
        ),
    ensures
        v.image(anchor).image.fault() is None,
{
    let image = v.image(anchor).image;
    agreeing_pending_has_no_fault(v, v.pending.len() as int);
    assert(image.run_id == v.image(None).image.run_id);
    agreeing_task_has_no_fault(v, 0);
    assert forall|r: BudgetResource| #[trigger] image.report.reserved.at(r) == checkpoint::held(
        image.report.pending,
        r,
    ) by {
        assert(v.reserved.at(r) == if r.counts_attempts() {
            0
        } else {
            model::total(v.pending, r)
        });
    }
    assert(v.usage.at(BudgetResource::InputTokens) == v.usage.input_tokens);
    assert(v.usage.at(BudgetResource::OutputTokens) == v.usage.output_tokens);
    assert(v.usage.at(BudgetResource::ToolOutputBytes) == v.usage.tool_output_bytes);
    if v.run is Some {
        agreeing_run_has_no_fault(v, 0);
    }
}

/// Sealing a drained ledger and restoring it under limits no tighter than its own
/// gives the same accounts back: nothing consumed is forgotten and nothing is added.
/// Only time that has run out is found out at once.
pub proof fn drained_ledgers_survive_the_round_trip(
    v: LedgerView,
    anchor: Option<CursorView>,
    host: LimitsView,
    now: nat,
)
    requires
        v.wf(),
        v.run is None,
        !v.recovery_frozen,
        v.revision < u64::MAX,
        v.limits.within(host),
    ensures
        ({
            let back = v.image(anchor).restored(host, now);
            back == LedgerView {
                sealed: false,
                revision: (v.revision + 1) as u64,
                clock: now,
                stop: if v.stop is None && v.active >= v.limits.active {
                    Some(BudgetStopReason::ActiveTime)
                } else if v.stop is None {
                    None
                } else {
                    back.stop
                },
                ..v
            }
        }),
        v.stop is Some ==> v.image(anchor).restored(host, now).stop == v.stop,
{
    let c = v.image(anchor);
    let back = c.restored(host, now);
    audit::meet_is_old_iff_within(v.limits, host);
    v.limits.meet_laws(host, host);
    assert(v.limits.meet(host) == v.limits);
    sorted_stays(v.pending);
    let stop = if v.active >= v.limits.active {
        model::first_stop(v.stop, BudgetStopReason::ActiveTime)
    } else {
        v.stop
    };
    no_limit_stop(v.charged, v.reserved, v.limits.resources, stop, 0);
    if v.stop is None {
        assert forall|j: int| 0 <= j < 7 implies model::fits_within(
            v.charged.at(#[trigger] BudgetResource::nth(j)),
            v.reserved.at(BudgetResource::nth(j)),
            0,
            v.limits.resources.at(BudgetResource::nth(j)),
        ) by {
            assert(v.limits.resources.at(BudgetResource::nth(j)) >= 0);
        }
    }
}

} // verus!
