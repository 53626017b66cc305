//! What holds of the ledger whatever its clients do.

use crate::budget::model;
use crate::budget::model::{LedgerView, RunStateView};
use crate::budget::vocabulary::{
    BudgetAmounts, BudgetPendingReport, BudgetRequest, BudgetResource, BudgetStopReason,
    BudgetUsage, IdentityView, LimitsView, MetricsView, RunReportView, TokenBudgetMode,
};
use vstd::prelude::*;

verus! {

/// One more reservation adds its own amounts to the total.
pub proof fn total_push(
    pending: Seq<BudgetPendingReport>,
    p: BudgetPendingReport,
    r: BudgetResource,
)
    ensures
        model::total(pending.push(p), r) == model::total(pending, r) + p.request.amounts.at(r),
{
    assert(pending.push(p).drop_last() =~= pending);
}

/// A reservation that leaves takes its own amounts out of the total.
pub proof fn total_remove(pending: Seq<BudgetPendingReport>, i: int, r: BudgetResource)
    requires
        0 <= i < pending.len(),
    ensures
        model::total(pending, r) == model::total(pending.remove(i), r)
            + pending[i].request.amounts.at(r),
    decreases pending.len(),
{
    if i == pending.len() - 1 {
        assert(pending.remove(i) =~= pending.drop_last());
    } else {
        total_remove(pending.drop_last(), i, r);
        assert(pending.remove(i).drop_last() =~= pending.drop_last().remove(i));
    }
}

/// The total depends on the requests alone.
pub proof fn total_update(
    pending: Seq<BudgetPendingReport>,
    i: int,
    p: BudgetPendingReport,
    r: BudgetResource,
)
    requires
        0 <= i < pending.len(),
        p.request == pending[i].request,
    ensures
        model::total(pending.update(i, p), r) == model::total(pending, r),
    decreases pending.len(),
{
    if i == pending.len() - 1 {
        assert(pending.update(i, p).drop_last() =~= pending.drop_last());
    } else {
        total_update(pending.drop_last(), i, p, r);
        assert(pending.update(i, p).drop_last() =~= pending.drop_last().update(i, p));
    }
}

/// A position is the place of the reservation asked for; without one there is none.
pub proof fn position_found(pending: Seq<BudgetPendingReport>, id: u64, from: int)
    requires
        0 <= from <= pending.len(),
    ensures
        match model::position(pending, id, from) {
            Some(i) => from <= i < pending.len() && pending[i].id == id,
            None => forall|i: int| from <= i < pending.len() ==> (#[trigger] pending[i]).id != id,
        },
    decreases pending.len() - from,
{
    if from < pending.len() && pending[from].id != id {
        position_found(pending, id, from + 1);
    }
}

/// A request without a misfit fits everywhere.
pub proof fn no_misfit(v: LedgerView, amounts: BudgetAmounts, i: int)
    requires
        0 <= i <= 7,
        v.misfit(amounts, i) is None,
    ensures
        forall|j: int|
            i <= j < 7 ==> {
                let r = #[trigger] BudgetResource::nth(j);
                let run = v.run->0.report;
                &&& model::fits_within(
                    v.charged.at(r),
                    v.reserved.at(r),
                    amounts.at(r),
                    v.limits.resources.at(r),
                )
                &&& model::fits_within(
                    run.charged.at(r),
                    run.reserved.at(r),
                    amounts.at(r),
                    run.limits.resources.at(r),
                )
            },
    decreases 7 - i,
{
    if i < 7 {
        no_misfit(v, amounts, i + 1);
    }
}

/// A new task's accounts agree.
pub proof fn fresh_agrees(
    identity: IdentityView,
    limits: LimitsView,
    token_mode: TokenBudgetMode,
    now: nat,
)
    requires
        identity.is_named(),
    ensures
        LedgerView::fresh(identity, limits, token_mode, now).wf(),
{
}

/// A clock sample keeps every account in agreement, charges and holds unchanged.
pub proof fn tick_keeps_agreement(v: LedgerView, now: nat)
    requires
        v.wf(),
    ensures
        v.ticked(now).wf(),
        v.ticked(now).charged == v.charged,
        v.ticked(now).reserved == v.reserved,
        v.ticked(now).pending == v.pending,
        v.ticked(now).next_id == v.next_id,
        v.ticked(now).limits == v.limits,
        v.ticked(now).usage == v.usage,
        v.ticked(now).run is Some == v.run is Some,
        v.run is Some ==> v.ticked(now).run->0.id == v.run->0.id && v.ticked(now).run->0.report.open
            == v.run->0.report.open,
        v.ticked(now).sealed == v.sealed,
        v.ticked(now).recovery_frozen == v.recovery_frozen,
{
    let t = v.ticked(now);
    assert(t.pending_agrees()) by {
        assert forall|i: int| 0 <= i < t.pending.len() implies t.reservation_agrees(
            #[trigger] t.pending[i],
        ) by {
            assert(v.reservation_agrees(v.pending[i]));
        }
    }
}

/// The same for a run that begins.
pub proof fn begin_keeps_agreement(
    v: LedgerView,
    turn: Option<Seq<char>>,
    limits: LimitsView,
    now: nat,
    later: nat,
)
    requires
        v.wf(),
    ensures
        v.begun(turn, limits, now, later).wf(),
{
    tick_keeps_agreement(v, now);
    let t = v.ticked(now);
    if v.writable_fault() is None && t.run is None && t.stop_fault() is None && t.next_id
        < u64::MAX {
        t.limits.meet_is_greatest_lower_bound(limits, limits);
        let id = (t.next_id + 1) as u64;
        let begun = LedgerView {
            next_id: id,
            run: Some(
                RunStateView {
                    id,
                    cleaning: false,
                    report: RunReportView {
                        turn,
                        metrics: MetricsView::none(),
                        limits: t.limits.meet(limits),
                        charged: BudgetAmounts::none(),
                        reserved: BudgetAmounts::none(),
                        active: 0,
                        cleanup: 0,
                        open: true,
                        stop: None,
                    },
                },
            ),
            ..t
        };
        assert(begun.reserved == BudgetAmounts::none()) by {
            assert forall|r: BudgetResource| begun.reserved.at(r)
                == #[trigger] BudgetAmounts::none().at(r) by {
                assert(t.reserved.at(r) == if r.counts_attempts() {
                    0
                } else {
                    model::total(t.pending, r)
                });
            }
            begun.reserved.equal_by_resource(BudgetAmounts::none());
        }
        assert(begun.wf());
        tick_keeps_agreement(begun, later);
    }
}

/// Changing what a run reports beside its accounts keeps the agreement.
proof fn run_note_keeps_agreement(v: LedgerView, run: RunStateView)
    requires
        v.wf(),
        v.run is Some,
        run.id == v.run->0.id,
        run.report.limits == v.run->0.report.limits,
        run.report.charged == v.run->0.report.charged,
        run.report.reserved == v.run->0.report.reserved,
        run.report.active == v.run->0.report.active,
        run.report.cleanup == v.run->0.report.cleanup,
        v.run->0.report.stop is Some ==> run.report.stop is Some,
    ensures
        v.with_run(run).wf(),
{
    let w = v.with_run(run);
    assert forall|i: int| 0 <= i < w.pending.len() implies w.reservation_agrees(
        #[trigger] w.pending[i],
    ) by {
        assert(v.reservation_agrees(v.pending[i]));
    }
}

/// A task stop keeps the agreement.
proof fn stop_keeps_agreement(v: LedgerView, stop: Option<BudgetStopReason>)
    requires
        v.wf(),
        stop is Some,
    ensures
        (LedgerView { stop, ..v }).wf(),
{
    let w = LedgerView { stop, ..v };
    assert forall|i: int| 0 <= i < w.pending.len() implies w.reservation_agrees(
        #[trigger] w.pending[i],
    ) by {
        assert(v.reservation_agrees(v.pending[i]));
    }
}

/// Steps of a run beside reservations keep every account in agreement.
pub proof fn run_steps_keep_agreement(
    v: LedgerView,
    id: u64,
    turn: Seq<char>,
    reason: BudgetStopReason,
    metrics: MetricsView,
    now: nat,
)
    requires
        v.wf(),
    ensures
        v.bound(id, turn, now).wf(),
        v.prepared(id, now).wf(),
        v.finished(id, now).wf(),
        v.run_abandoned(id, now).wf(),
        v.expired(id, now).wf(),
        v.stopped_with(id, reason, now).wf(),
        v.cleaning_begun(id, now).wf(),
        v.with_metrics(id, metrics).wf(),
{
    tick_keeps_agreement(v, now);
    let t = v.ticked(now);
    if t.run is Some {
        let run = t.run->0;
        let report = run.report;
        run_note_keeps_agreement(
            t,
            RunStateView { report: RunReportView { turn: Some(turn), ..report }, ..run },
        );
        let closed = RunStateView { report: RunReportView { open: false, ..report }, ..run };
        run_note_keeps_agreement(t, closed);
        stop_keeps_agreement(
            t.with_run(closed),
            model::first_stop(t.stop, BudgetStopReason::RunAbandoned),
        );
        stop_keeps_agreement(t, Some(BudgetStopReason::ActiveTime));
        run_note_keeps_agreement(
            t,
            RunStateView {
                report: RunReportView { stop: Some(BudgetStopReason::ActiveTime), ..report },
                ..run
            },
        );
        run_note_keeps_agreement(
            t,
            RunStateView {
                report: RunReportView { stop: model::first_stop(report.stop, reason), ..report },
                ..run
            },
        );
        run_note_keeps_agreement(t, RunStateView { cleaning: true, ..run });
    }
    if v.run is Some {
        let run = v.run->0;
        run_note_keeps_agreement(
            v,
            RunStateView { report: RunReportView { metrics, ..run.report }, ..run },
        );
    }
}

/// Every resource fits where no misfit was found.
proof fn misfit_covers_all(v: LedgerView, amounts: BudgetAmounts, r: BudgetResource)
    requires
        v.misfit(amounts, 0) is None,
    ensures
        model::fits_within(
            v.charged.at(r),
            v.reserved.at(r),
            amounts.at(r),
            v.limits.resources.at(r),
        ),
        model::fits_within(
            v.run->0.report.charged.at(r),
            v.run->0.report.reserved.at(r),
            amounts.at(r),
            v.run->0.report.limits.resources.at(r),
        ),
{
    no_misfit(v, amounts, 0);
    let i = r.place();
    assert(BudgetResource::nth(i) == r);
}

/// Granting a request keeps every account in agreement.
proof fn grant_keeps_agreement(t: LedgerView, request: BudgetRequest)
    requires
        t.wf(),
        t.run is Some,
        t.misfit(request.amounts, 0) is None,
        model::request_fault(request, t.token_mode) is None,
        t.next_id < u64::MAX,
    ensures
        t.granted(request).wf(),
{
    let g = t.granted(request);
    let amounts = request.amounts;
    let run = t.run->0.report;
    let p = g.pending.last();
    assert(g.pending == t.pending.push(p));
    assert forall|r: BudgetResource|
        #![trigger g.charged.at(r)]
        {
            &&& g.charged.at(r) == t.charged.at(r) + if r.counts_attempts() {
                amounts.at(r)
            } else {
                0
            }
            &&& g.reserved.at(r) == t.reserved.at(r) + if r.counts_attempts() {
                0
            } else {
                amounts.at(r)
            }
            &&& g.run->0.report.charged.at(r) == run.charged.at(r) + if r.counts_attempts() {
                amounts.at(r)
            } else {
                0
            }
            &&& model::total(g.pending, r) == model::total(t.pending, r) + amounts.at(r)
            &&& model::fits_within(g.charged.at(r), g.reserved.at(r), 0, g.limits.resources.at(r))
            &&& model::fits_within(
                g.run->0.report.charged.at(r),
                g.run->0.report.reserved.at(r),
                0,
                g.run->0.report.limits.resources.at(r),
            )
        } by {
        misfit_covers_all(t, amounts, r);
        total_push(t.pending, p, r);
    }
    assert(g.run->0.report.reserved == g.reserved);
    assert(g.run_agrees(g.run->0)) by {
        assert forall|r: BudgetResource|
            #![trigger g.run->0.report.charged.at(r)]
            g.run->0.report.charged.at(r) <= g.charged.at(r) by {
            assert(g.charged.at(r) >= t.charged.at(r));
            assert(run.charged.at(r) <= t.charged.at(r));
        }
        assert forall|r: BudgetResource| r.counts_attempts() implies #[trigger] model::total(
            g.pending,
            r,
        ) <= g.run->0.report.charged.at(r) by {
            assert(g.charged.at(r) >= t.charged.at(r));
            assert(model::total(t.pending, r) <= run.charged.at(r));
        }
        assert forall|r: BudgetResource|
            model::fits_within(
                g.run->0.report.charged.at(r),
                g.run->0.report.reserved.at(r),
                0,
                #[trigger] g.run->0.report.limits.resources.at(r),
            ) by {
            assert(g.charged.at(r) >= t.charged.at(r));
        }
    }
    assert(g.pending_agrees()) by {
        assert forall|i: int| 0 <= i < g.pending.len() implies g.reservation_agrees(
            #[trigger] g.pending[i],
        ) by {
            if i < t.pending.len() {
                assert(t.reservation_agrees(t.pending[i]));
            }
        }
        assert forall|i: int, j: int| 0 <= i < j < g.pending.len() implies (
        #[trigger] g.pending[i]).id < (#[trigger] g.pending[j]).id by {
            if j == t.pending.len() {
                assert(t.reservation_agrees(t.pending[i]));
            }
        }
        assert forall|r: BudgetResource| #[trigger] g.reserved.at(r) == if r.counts_attempts() {
            0
        } else {
            model::total(g.pending, r)
        } by {
            assert(g.charged.at(r) >= t.charged.at(r));
            assert(t.reserved.at(r) == if r.counts_attempts() {
                0
            } else {
                model::total(t.pending, r)
            });
        }
    }
    assert(g.evidence_covered()) by {
        assert forall|r: BudgetResource|
            #![trigger g.usage.at(r)]
            g.usage.at(r).actual + g.usage.at(r).estimated <= g.charged.at(r) by {
            assert(t.usage.at(r).actual + t.usage.at(r).estimated <= t.charged.at(r));
            assert(g.charged.at(r) >= t.charged.at(r));
        }
    }
    assert(g.stop is None ==> g.within_limits()) by {
        assert forall|r: BudgetResource|
            model::fits_within(
                g.charged.at(r),
                g.reserved.at(r),
                0,
                #[trigger] g.limits.resources.at(r),
            ) by {
            assert(g.charged.at(r) >= t.charged.at(r));
        }
    }
}

/// A request keeps every account in agreement, granted or not.
pub proof fn request_keeps_agreement(v: LedgerView, id: u64, request: BudgetRequest, now: nat)
    requires
        v.wf(),
    ensures
        v.requested(id, request, now).wf(),
{
    tick_keeps_agreement(v, now);
    let t = v.ticked(now);
    if t.active_fault(id) is None && model::request_fault(request, t.token_mode) is None {
        let run = t.run->0;
        match t.misfit(request.amounts, 0) {
            Some((resource, of_task)) => {
                let reason = Some(BudgetStopReason::ResourceLimit(resource));
                stop_keeps_agreement(t, reason);
                run_note_keeps_agreement(
                    t,
                    RunStateView { report: RunReportView { stop: reason, ..run.report }, ..run },
                );
            },
            None => {
                if t.next_id == u64::MAX {
                    stop_keeps_agreement(
                        t,
                        model::first_stop(t.stop, BudgetStopReason::AccountingOverflow),
                    );
                } else {
                    grant_keeps_agreement(t, request);
                }
            },
        }
    }
}

/// Changing a reservation beside its id and request keeps the agreement.
proof fn note_keeps_agreement(v: LedgerView, i: int, p: BudgetPendingReport)
    requires
        v.wf(),
        0 <= i < v.pending.len(),
        p.id == v.pending[i].id,
        p.request == v.pending[i].request,
        p.failed_usage is Some ==> p.started,
    ensures
        (LedgerView { pending: v.pending.update(i, p), ..v }).wf(),
{
    let w = LedgerView { pending: v.pending.update(i, p), ..v };
    assert forall|r: BudgetResource| #[trigger] model::total(w.pending, r) == model::total(
        v.pending,
        r,
    ) by {
        total_update(v.pending, i, p, r);
    }
    assert forall|j: int| 0 <= j < w.pending.len() implies w.reservation_agrees(
        #[trigger] w.pending[j],
    ) by {
        assert(v.reservation_agrees(v.pending[j]));
    }
    assert forall|j: int, k: int| 0 <= j < k < w.pending.len() implies (#[trigger] w.pending[j]).id
        < (#[trigger] w.pending[k]).id by {
        assert(v.pending[j].id < v.pending[k].id);
    }
    assert forall|r: BudgetResource| #[trigger] w.reserved.at(r) == if r.counts_attempts() {
        0
    } else {
        model::total(w.pending, r)
    } by {
        assert(v.reserved.at(r) == if r.counts_attempts() {
            0
        } else {
            model::total(v.pending, r)
        });
        assert(model::total(w.pending, r) == model::total(v.pending, r));
    }
}

/// What a reservation holds is part of what is held.
pub proof fn held_covers(v: LedgerView, i: int, r: BudgetResource)
    requires
        v.wf(),
        0 <= i < v.pending.len(),
        !r.counts_attempts(),
    ensures
        v.pending[i].request.amounts.at(r) <= v.reserved.at(r),
{
    total_remove(v.pending, i, r);
    assert(v.reserved.at(r) == model::total(v.pending, r));
}

/// The accounts once a reservation has left, each resource apart.
proof fn release_by_resource(v: LedgerView, i: int, r: BudgetResource)
    requires
        v.wf(),
        v.run is Some,
        0 <= i < v.pending.len(),
    ensures
        v.released(i).reserved.at(r) == v.reserved.at(r) - if r.counts_attempts() {
            0
        } else {
            v.pending[i].request.amounts.at(r)
        },
        model::total(v.released(i).pending, r) + v.pending[i].request.amounts.at(r) == model::total(
            v.pending,
            r,
        ),
        v.released(i).run->0.report.reserved == v.released(i).reserved,
{
    total_remove(v.pending, i, r);
    held_covers(v, i, BudgetResource::InputTokens);
    held_covers(v, i, BudgetResource::OutputTokens);
    held_covers(v, i, BudgetResource::ToolOutputBytes);
}

/// Releasing a reservation keeps every account in agreement.
proof fn release_keeps_agreement(v: LedgerView, i: int)
    requires
        v.wf(),
        0 <= i < v.pending.len(),
    ensures
        v.released(i).wf(),
{
    let w = v.released(i);
    let run = v.run->0;
    assert forall|r: BudgetResource|
        #![trigger w.reserved.at(r)]
        {
            &&& w.reserved.at(r) == if r.counts_attempts() {
                0
            } else {
                model::total(w.pending, r)
            }
            &&& w.reserved.at(r) <= v.reserved.at(r)
        } by {
        release_by_resource(v, i, r);
        assert(v.reserved.at(r) == if r.counts_attempts() {
            0
        } else {
            model::total(v.pending, r)
        });
    }
    assert forall|j: int| 0 <= j < w.pending.len() implies w.reservation_agrees(
        #[trigger] w.pending[j],
    ) by {
        let k = if j < i {
            j
        } else {
            j + 1
        };
        assert(w.pending[j] == v.pending[k]);
        assert(v.reservation_agrees(v.pending[k]));
    }
    assert forall|j: int, k: int| 0 <= j < k < w.pending.len() implies (#[trigger] w.pending[j]).id
        < (#[trigger] w.pending[k]).id by {
        let a = if j < i {
            j
        } else {
            j + 1
        };
        let b = if k < i {
            k
        } else {
            k + 1
        };
        assert(v.pending[a].id < v.pending[b].id);
    }
    release_by_resource(v, i, BudgetResource::Steps);
    assert forall|r: BudgetResource| r.counts_attempts() implies #[trigger] model::total(
        w.pending,
        r,
    ) <= w.run->0.report.charged.at(r) by {
        release_by_resource(v, i, r);
        assert(model::total(v.pending, r) <= run.report.charged.at(r));
    }
    assert forall|r: BudgetResource|
        #![trigger w.run->0.report.charged.at(r)]
        w.run->0.report.charged.at(r) <= w.charged.at(r) by {
        assert(run.report.charged.at(r) <= v.charged.at(r));
    }
    assert forall|r: BudgetResource|
        v.stop is None && run.report.stop is None implies model::fits_within(
        w.run->0.report.charged.at(r),
        w.run->0.report.reserved.at(r),
        0,
        #[trigger] w.run->0.report.limits.resources.at(r),
    ) by {
        assert(w.reserved.at(r) <= v.reserved.at(r));
        assert(model::fits_within(
            run.report.charged.at(r),
            run.report.reserved.at(r),
            0,
            run.report.limits.resources.at(r),
        ));
    }
    assert forall|r: BudgetResource| v.stop is None implies model::fits_within(
        w.charged.at(r),
        w.reserved.at(r),
        0,
        #[trigger] w.limits.resources.at(r),
    ) by {
        assert(w.reserved.at(r) <= v.reserved.at(r));
        assert(model::fits_within(
            v.charged.at(r),
            v.reserved.at(r),
            0,
            v.limits.resources.at(r),
        ));
    }
    assert(w.evidence_covered()) by {
        assert forall|r: BudgetResource|
            #![trigger w.usage.at(r)]
            w.usage.at(r).actual + w.usage.at(r).estimated <= w.charged.at(r) by {
            assert(v.usage.at(r).actual + v.usage.at(r).estimated <= v.charged.at(r));
        }
    }
}

/// The step of one reservation that starts, leaves, or is dropped keeps every
/// account in agreement.
pub proof fn reservation_steps_keep_agreement(v: LedgerView, run_id: u64, id: u64, now: nat)
    requires
        v.wf(),
    ensures
        v.started(run_id, id, now).wf(),
        v.cancelled(id, now).wf(),
        v.reservation_abandoned(id, now).wf(),
{
    tick_keeps_agreement(v, now);
    let t = v.ticked(now);
    position_found(t.pending, id, 0);
    if t.at(id) is Some {
        let i = t.at(id)->0;
        let p = t.pending[i];
        assert(t.reservation_agrees(p));
        note_keeps_agreement(t, i, BudgetPendingReport { started: true, ..p });
        release_keeps_agreement(t, i);
        let dropped = BudgetPendingReport { abandoned: true, ..p };
        note_keeps_agreement(t, i, dropped);
        stop_keeps_agreement(
            LedgerView { pending: t.pending.update(i, dropped), ..t },
            model::first_stop(t.stop, BudgetStopReason::AbandonedReservation),
        );
    }
}

/// Settling moves exactly the costs from hold to charge and covers the evidence.
proof fn charge_keeps_agreement(t: LedgerView, i: int, usage: BudgetUsage)
    requires
        t.wf(),
        0 <= i < t.pending.len(),
        t.settlement(i, usage) is Some,
    ensures
        t.charged_with(i, t.settlement(i, usage)->0).wf(),
{
    let done = t.settlement(i, usage)->0;
    let q = t.pending[i].request.amounts;
    let w = t.released(i);
    let c = t.charged_with(i, done);
    let run = t.run->0;
    release_keeps_agreement(t, i);
    assert forall|r: BudgetResource|
        #![trigger c.charged.at(r)]
        {
            &&& c.charged.at(r) >= t.charged.at(r)
            &&& c.run->0.report.charged.at(r) - run.report.charged.at(r) == c.charged.at(r)
                - t.charged.at(r)
            &&& done.breach is None ==> c.charged.at(r) + c.reserved.at(r) <= t.charged.at(r)
                + t.reserved.at(r)
            &&& c.usage.at(r).actual + c.usage.at(r).estimated <= c.charged.at(r)
        } by {
        release_by_resource(t, i, r);
        assert(t.usage.at(r).actual + t.usage.at(r).estimated <= t.charged.at(r));
        assert(run.report.charged.at(r) <= t.charged.at(r));
    }
    release_by_resource(t, i, BudgetResource::Steps);
    assert forall|j: int| 0 <= j < c.pending.len() implies c.reservation_agrees(
        #[trigger] c.pending[j],
    ) by {
        assert(w.reservation_agrees(w.pending[j]));
    }
    assert(c.run_agrees(c.run->0)) by {
        assert forall|r: BudgetResource|
            #![trigger c.run->0.report.charged.at(r)]
            c.run->0.report.charged.at(r) <= c.charged.at(r) by {
            assert(c.charged.at(r) >= t.charged.at(r));
            assert(run.report.charged.at(r) <= t.charged.at(r));
        }
        assert forall|r: BudgetResource| r.counts_attempts() implies #[trigger] model::total(
            c.pending,
            r,
        ) <= c.run->0.report.charged.at(r) by {
            assert(model::total(w.pending, r) <= w.run->0.report.charged.at(r));
            assert(c.charged.at(r) >= t.charged.at(r));
        }
        assert forall|r: BudgetResource|
            c.stop is None && c.run->0.report.stop is None implies model::fits_within(
            c.run->0.report.charged.at(r),
            c.run->0.report.reserved.at(r),
            0,
            #[trigger] c.run->0.report.limits.resources.at(r),
        ) by {
            assert(c.charged.at(r) >= t.charged.at(r));
            assert(model::fits_within(
                run.report.charged.at(r),
                run.report.reserved.at(r),
                0,
                run.report.limits.resources.at(r),
            ));
        }
    }
    assert(c.pending_agrees()) by {
        assert forall|r: BudgetResource| #[trigger] c.reserved.at(r) == if r.counts_attempts() {
            0
        } else {
            model::total(c.pending, r)
        } by {
            assert(w.reserved.at(r) == if r.counts_attempts() {
                0
            } else {
                model::total(w.pending, r)
            });
        }
    }
    assert(c.evidence_covered()) by {
        assert forall|r: BudgetResource|
            #![trigger c.usage.at(r)]
            c.usage.at(r).actual + c.usage.at(r).estimated <= c.charged.at(r) by {
            assert(c.charged.at(r) >= t.charged.at(r));
        }
    }
    assert(c.stop is None ==> c.within_limits()) by {
        assert forall|r: BudgetResource| c.stop is None implies model::fits_within(
            c.charged.at(r),
            c.reserved.at(r),
            0,
            #[trigger] c.limits.resources.at(r),
        ) by {
            assert(c.charged.at(r) >= t.charged.at(r));
            assert(model::fits_within(
                t.charged.at(r),
                t.reserved.at(r),
                0,
                t.limits.resources.at(r),
            ));
        }
    }
}

/// Settling keeps every account in agreement, whatever was used.
pub proof fn settle_keeps_agreement(v: LedgerView, id: u64, usage: BudgetUsage, now: nat)
    requires
        v.wf(),
    ensures
        v.settled(id, usage, now).wf(),
{
    tick_keeps_agreement(v, now);
    let t = v.ticked(now);
    position_found(t.pending, id, 0);
    if v.writable_fault() is None && t.at(id) is Some && t.pending[t.at(id)->0].started {
        let i = t.at(id)->0;
        assert(t.reservation_agrees(t.pending[i]));
        if t.settlement(i, usage) is Some {
            charge_keeps_agreement(t, i, usage);
        } else {
            let kept = BudgetPendingReport { failed_usage: Some(usage), ..t.pending[i] };
            note_keeps_agreement(t, i, kept);
            stop_keeps_agreement(
                LedgerView { pending: t.pending.update(i, kept), ..t },
                model::first_stop(t.stop, BudgetStopReason::AccountingOverflow),
            );
        }
    }
}

} // verus!
