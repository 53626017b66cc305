//! Promises of the ledger over any sequence of steps.

use crate::budget::laws;
use crate::budget::model;
use crate::budget::model::{BudgetError, LedgerView, RunStateView};
use crate::budget::vocabulary::{
    BudgetAmounts, BudgetPendingReport, BudgetRequest, BudgetResource, BudgetStopReason, BudgetUsage, IdentityView, LimitsView,
    MetricsView, ReportView, RunReportView, TokenBudgetMode, UsageTotals, UsageValue,
};
use vstd::prelude::*;

verus! {

/// Anything that a client of the ledger can do to it.
#[allow(inconsistent_fields)]
pub enum LedgerStep {
    Tick { now: nat },
    Begin { turn: Option<Seq<char>>, limits: LimitsView, now: nat, later: nat },
    Bind { run: u64, turn: Seq<char>, now: nat },
    Prepare { run: u64, now: nat },
    Finish { run: u64, now: nat },
    AbandonRun { run: u64, now: nat },
    Expire { run: u64, now: nat },
    StopWith { run: u64, reason: BudgetStopReason, now: nat },
    BeginCleanup { run: u64, now: nat },
    Record { run: u64, metrics: MetricsView },
    Request { run: u64, request: BudgetRequest, now: nat },
    Start { run: u64, id: u64, now: nat },
    Cancel { id: u64, now: nat },
    Settle { id: u64, usage: BudgetUsage, now: nat },
    AbandonReservation { id: u64, now: nat },
}

impl LedgerView {
    /// The ledger after one step.
    #[verifier::opaque]
    pub open spec fn after(self, step: LedgerStep) -> LedgerView {
        match step {
            LedgerStep::Tick { now } => self.ticked(now),
            LedgerStep::Begin { turn, limits, now, later } => self.begun(turn, limits, now, later),
            LedgerStep::Bind { run, turn, now } => self.bound(run, turn, now),
            LedgerStep::Prepare { run, now } => self.prepared(run, now),
            LedgerStep::Finish { run, now } => self.finished(run, now),
            LedgerStep::AbandonRun { run, now } => self.run_abandoned(run, now),
            LedgerStep::Expire { run, now } => self.expired(run, now),
            LedgerStep::StopWith { run, reason, now } => self.stopped_with(run, reason, now),
            LedgerStep::BeginCleanup { run, now } => self.cleaning_begun(run, now),
            LedgerStep::Record { run, metrics } => self.with_metrics(run, metrics),
            LedgerStep::Request { run, request, now } => self.requested(run, request, now),
            LedgerStep::Start { run, id, now } => self.started(run, id, now),
            LedgerStep::Cancel { id, now } => self.cancelled(id, now),
            LedgerStep::Settle { id, usage, now } => self.settled(id, usage, now),
            LedgerStep::AbandonReservation { id, now } => self.reservation_abandoned(id, now),
        }
    }

    /// The ledger after several steps.
    pub open spec fn after_all(self, steps: Seq<LedgerStep>) -> LedgerView
        decreases steps.len(),
    {
        if steps.len() == 0 {
            self
        } else {
            self.after_all(steps.drop_last()).after(steps.last())
        }
    }
}

/// No step brings the accounts out of agreement.
pub proof fn agreement_is_invariant(v: LedgerView, step: LedgerStep)
    requires
        v.wf(),
    ensures
        v.after(step).wf(),
{
    reveal(LedgerView::after);
    let none = MetricsView::none();
    let reason = BudgetStopReason::ActiveTime;
    match step {
        LedgerStep::Tick { now } => laws::tick_keeps_agreement(v, now),
        LedgerStep::Begin { turn, limits, now, later } => laws::begin_keeps_agreement(
            v,
            turn,
            limits,
            now,
            later,
        ),
        LedgerStep::Bind { run, turn, now } => laws::run_steps_keep_agreement(
            v,
            run,
            turn,
            reason,
            none,
            now,
        ),
        LedgerStep::Prepare { run, now } => laws::run_steps_keep_agreement(
            v,
            run,
            Seq::empty(),
            reason,
            none,
            now,
        ),
        LedgerStep::Finish { run, now } => laws::run_steps_keep_agreement(
            v,
            run,
            Seq::empty(),
            reason,
            none,
            now,
        ),
        LedgerStep::AbandonRun { run, now } => laws::run_steps_keep_agreement(
            v,
            run,
            Seq::empty(),
            reason,
            none,
            now,
        ),
        LedgerStep::Expire { run, now } => laws::run_steps_keep_agreement(
            v,
            run,
            Seq::empty(),
            reason,
            none,
            now,
        ),
        LedgerStep::StopWith { run, reason, now } => laws::run_steps_keep_agreement(
            v,
            run,
            Seq::empty(),
            reason,
            none,
            now,
        ),
        LedgerStep::BeginCleanup { run, now } => laws::run_steps_keep_agreement(
            v,
            run,
            Seq::empty(),
            reason,
            none,
            now,
        ),
        LedgerStep::Record { run, metrics } => laws::run_steps_keep_agreement(
            v,
            run,
            Seq::empty(),
            reason,
            metrics,
            0,
        ),
        LedgerStep::Request { run, request, now } => laws::request_keeps_agreement(
            v,
            run,
            request,
            now,
        ),
        LedgerStep::Start { run, id, now } => laws::reservation_steps_keep_agreement(
            v,
            run,
            id,
            now,
        ),
        LedgerStep::Cancel { id, now } => laws::reservation_steps_keep_agreement(v, 0, id, now),
        LedgerStep::Settle { id, usage, now } => laws::settle_keeps_agreement(v, id, usage, now),
        LedgerStep::AbandonReservation { id, now } => laws::reservation_steps_keep_agreement(
            v,
            0,
            id,
            now,
        ),
    }
}

/// Whatever is done to a new ledger, its accounts agree. As long as nothing has
/// stopped the task, what is charged and held stays within every limit.
pub proof fn every_reachable_ledger_agrees(
    identity: IdentityView,
    limits: LimitsView,
    mode: TokenBudgetMode,
    now: nat,
    steps: Seq<LedgerStep>,
)
    requires
        identity.is_named(),
    ensures
        ({
            let v = LedgerView::fresh(identity, limits, mode, now).after_all(steps);
            &&& v.wf()
            &&& v.stop is None ==> v.active <= v.limits.active && forall|r: BudgetResource|
                v.charged.at(r) + v.reserved.at(r) <= #[trigger] v.limits.resources.at(r)
        }),
    decreases steps.len(),
{
    let first = LedgerView::fresh(identity, limits, mode, now);
    let v = first.after_all(steps);
    if steps.len() == 0 {
        laws::fresh_agrees(identity, limits, mode, now);
    } else {
        every_reachable_ledger_agrees(identity, limits, mode, now, steps.drop_last());
        agreement_is_invariant(first.after_all(steps.drop_last()), steps.last());
    }
    if v.stop is None {
        assert forall|r: BudgetResource| v.charged.at(r) + v.reserved.at(r)
            <= #[trigger] v.limits.resources.at(r) by {
            assert(model::fits_within(
                v.charged.at(r),
                v.reserved.at(r),
                0,
                v.limits.resources.at(r),
            ));
        }
    }
}

proof fn ticks_keep_stops(v: LedgerView, now: nat)
    requires
        v.stop is Some,
    ensures
        v.ticked(now).stop == v.stop,
{
}

/// The reason of a task stop is never replaced or removed.
#[verifier::rlimit(40)]
#[verifier::spinoff_prover]
pub proof fn stops_are_final(v: LedgerView, step: LedgerStep)
    requires
        v.stop is Some,
    ensures
        v.after(step).stop == v.stop,
{
    reveal(LedgerView::after);
    match step {
        LedgerStep::Record { run, metrics } => {},
        LedgerStep::Tick { now }
        | LedgerStep::Begin { now, .. }
        | LedgerStep::Bind { now, .. }
        | LedgerStep::Prepare { now, .. }
        | LedgerStep::Finish { now, .. }
        | LedgerStep::AbandonRun { now, .. }
        | LedgerStep::Expire { now, .. }
        | LedgerStep::StopWith { now, .. }
        | LedgerStep::BeginCleanup { now, .. }
        | LedgerStep::Request { now, .. }
        | LedgerStep::Start { now, .. }
        | LedgerStep::Cancel { now, .. }
        | LedgerStep::Settle { now, .. }
        | LedgerStep::AbandonReservation { now, .. } => {
            ticks_keep_stops(v, now);
        },
    }
}

/// A clock sample hands out no identifier and charges nothing.
proof fn ticks_count_nothing(v: LedgerView, now: nat)
    ensures
        v.ticked(now).charged == v.charged,
        v.ticked(now).next_id == v.next_id,
{
}

/// Beside requests and settlements no step charges anything.
proof fn other_steps_charge_nothing(v: LedgerView, step: LedgerStep)
    requires
        !(step is Request),
        !(step is Settle),
    ensures
        v.after(step).charged == v.charged,
{
    reveal(LedgerView::after);
    match step {
        LedgerStep::Tick { now } => ticks_count_nothing(v, now),
        LedgerStep::Begin { turn, limits, now, later } => {
            ticks_count_nothing(v, now);
        },
        LedgerStep::Bind { run, turn, now } => ticks_count_nothing(v, now),
        LedgerStep::Prepare { run, now } => ticks_count_nothing(v, now),
        LedgerStep::Finish { run, now } => ticks_count_nothing(v, now),
        LedgerStep::AbandonRun { run, now } => ticks_count_nothing(v, now),
        LedgerStep::Expire { run, now } => ticks_count_nothing(v, now),
        LedgerStep::StopWith { run, reason, now } => ticks_count_nothing(v, now),
        LedgerStep::BeginCleanup { run, now } => ticks_count_nothing(v, now),
        LedgerStep::Record { run, metrics } => {},
        LedgerStep::Start { run, id, now } => ticks_count_nothing(v, now),
        LedgerStep::Cancel { id, now } => ticks_count_nothing(v, now),
        LedgerStep::AbandonReservation { id, now } => ticks_count_nothing(v, now),
        _ => {},
    }
}

/// No charge is ever refunded: attempts stay counted even where work is cancelled
/// before it starts.
pub proof fn charges_never_fall(v: LedgerView, step: LedgerStep, r: BudgetResource)
    requires
        v.wf(),
    ensures
        v.charged.at(r) <= v.after(step).charged.at(r),
{
    match step {
        LedgerStep::Request { run, request, now } => {
            assert(v.after(step) == v.requested(run, request, now)) by {
                reveal(LedgerView::after);
            }
            requests_are_atomic(v, run, request, now);
            assert(v.requested(run, request, now).charged.at(r) >= v.charged.at(r));
        },
        LedgerStep::Settle { id, usage, now } => {
            assert(v.after(step) == v.settled(id, usage, now)) by {
                reveal(LedgerView::after);
            }
            ticks_count_nothing(v, now);
        },
        _ => {
            other_steps_charge_nothing(v, step);
        },
    }
}

/// A sealed ledger and a frozen one never change again, but for sealing.
pub proof fn closed_ledgers_are_inert(v: LedgerView, step: LedgerStep)
    requires
        v.sealed || v.recovery_frozen,
    ensures
        v.after(step) == v,
{
    reveal(LedgerView::after);
}

/// Identifiers are handed out in increasing order and never twice.
pub proof fn ids_only_grow(v: LedgerView, step: LedgerStep)
    requires
        v.wf(),
    ensures
        v.next_id <= v.after(step).next_id,
{
    steps_are_accounted(v, step, BudgetResource::Steps);
}

/// A request takes all that it asks for or nothing at all: refused, it leaves
/// charges, holds, reservations and identifiers as they were.
pub proof fn requests_are_atomic(v: LedgerView, run: u64, request: BudgetRequest, now: nat)
    requires
        v.wf(),
    ensures
        ({
            let after = v.requested(run, request, now);
            match v.ticked(now).reserve_fault(run, request) {
                Some(_) => {
                    &&& after.charged == v.charged
                    &&& after.reserved == v.reserved
                    &&& after.pending == v.pending
                    &&& after.next_id == v.next_id
                    &&& after.run is Some ==> after.run->0.report.charged == v.run->0.report.charged
                },
                None => {
                    &&& after.pending.len() == v.pending.len() + 1
                    &&& after.pending.last().id == v.next_id + 1
                    &&& after.pending.last().request == request
                    &&& forall|r: BudgetResource|
                        #![trigger after.charged.at(r)]
                        after.charged.at(r) == v.charged.at(r) + if r.counts_attempts() {
                            request.amounts.at(r)
                        } else {
                            0
                        }
                    &&& forall|r: BudgetResource|
                        #![trigger after.reserved.at(r)]
                        after.reserved.at(r) == v.reserved.at(r) + if r.counts_attempts() {
                            0
                        } else {
                            request.amounts.at(r)
                        }
                },
            }
        }),
{
    laws::tick_keeps_agreement(v, now);
    let t = v.ticked(now);
    if t.reserve_fault(run, request) is None {
        let after = v.requested(run, request, now);
        laws::no_misfit(t, request.amounts, 0);
        assert forall|r: BudgetResource|
            #![trigger after.charged.at(r)]
            after.charged.at(r) == v.charged.at(r) + if r.counts_attempts() {
                request.amounts.at(r)
            } else {
                0
            } by {
            let i = r.place();
            assert(BudgetResource::nth(i) == r);
        }
        assert forall|r: BudgetResource|
            #![trigger after.reserved.at(r)]
            after.reserved.at(r) == v.reserved.at(r) + if r.counts_attempts() {
                0
            } else {
                request.amounts.at(r)
            } by {
            let i = r.place();
            assert(BudgetResource::nth(i) == r);
        }
    }
}

/// Cancelling undoes the hold of a request exactly, and only the hold: the attempts
/// that it was charged stay charged.
pub proof fn cancelling_undoes_the_hold(
    v: LedgerView,
    run: u64,
    request: BudgetRequest,
    now: nat,
    later: nat,
)
    requires
        v.wf(),
        v.ticked(now).reserve_fault(run, request) is None,
    ensures
        ({
            let held = v.requested(run, request, now);
            let after = held.cancelled(held.next_id, later);
            &&& held.cancel_fault(held.next_id, later) is None
            &&& after.reserved == v.reserved
            &&& after.pending == v.pending
            &&& after.charged == held.charged
        }),
{
    laws::tick_keeps_agreement(v, now);
    let t = v.ticked(now);
    let held = v.requested(run, request, now);
    laws::request_keeps_agreement(v, run, request, now);
    laws::tick_keeps_agreement(held, later);
    let w = held.ticked(later);
    let id = held.next_id;
    laws::position_found(w.pending, id, 0);
    let last = w.pending.len() - 1;
    assert(w.pending[last].id == id);
    let i = w.at(id)->0;
    if i < last {
        assert(w.pending[i].id < w.pending[last].id);
    }
    assert(w.pending.remove(last) =~= v.pending);
    laws::no_misfit(t, request.amounts, 0);
    assert(BudgetResource::nth(4) == BudgetResource::InputTokens);
    assert(BudgetResource::nth(5) == BudgetResource::OutputTokens);
    assert(BudgetResource::nth(6) == BudgetResource::ToolOutputBytes);
}

/// Settling moves exactly the cost of the work from hold to charge: each variable
/// resource gives back what was held and is charged its debit, attempts keep their
/// charge. Usage that is not known costs exactly what was held for it.
pub proof fn settling_charges_the_debit(v: LedgerView, id: u64, usage: BudgetUsage, now: nat)
    requires
        v.wf(),
        v.writable_fault() is None,
        v.at(id) is Some,
        v.pending[v.at(id)->0].started,
        v.ticked(now).settlement(v.at(id)->0, usage) is Some,
    ensures
        ({
            let q = v.pending[v.at(id)->0].request.amounts;
            let after = v.settled(id, usage, now);
            &&& after.pending == v.pending.remove(v.at(id)->0)
            &&& after.charged.input_tokens == v.charged.input_tokens + model::debit(
                usage.input_tokens,
                q.input_tokens,
            )
            &&& after.charged.output_tokens == v.charged.output_tokens + model::debit(
                usage.output_tokens,
                q.output_tokens,
            )
            &&& after.charged.tool_output_bytes == v.charged.tool_output_bytes + model::debit(
                usage.tool_output_bytes,
                q.tool_output_bytes,
            )
            &&& after.reserved.input_tokens == v.reserved.input_tokens - q.input_tokens
            &&& after.reserved.output_tokens == v.reserved.output_tokens - q.output_tokens
            &&& after.reserved.tool_output_bytes == v.reserved.tool_output_bytes
                - q.tool_output_bytes
            &&& forall|r: BudgetResource|
                r.counts_attempts() ==> #[trigger] after.charged.at(r) == v.charged.at(r)
        }),
{
    laws::tick_keeps_agreement(v, now);
    laws::position_found(v.pending, id, 0);
    let i = v.at(id)->0;
    laws::held_covers(v, i, BudgetResource::InputTokens);
    laws::held_covers(v, i, BudgetResource::OutputTokens);
    laws::held_covers(v, i, BudgetResource::ToolOutputBytes);
}

/// What a resource is charged, by number: a known amount as it is, an estimate or what was
/// held, whichever is more, and for an unknown amount what was held.
pub open spec fn grows_by(before: u64, after: u64, value: UsageValue, held: u64) -> bool {
    match value {
        UsageValue::Actual(amount) => after == before + amount,
        UsageValue::Estimated(amount) => after >= before + held && after >= before + amount && (
        after == before + held || after == before + amount),
        UsageValue::Unknown => after == before + held,
    }
}

/// The sum can be charged without overflow, whatever of value and hold is more.
pub open spec fn has_room(before: u64, value: UsageValue, held: u64) -> bool {
    &&& before + held <= u64::MAX
    &&& value matches UsageValue::Actual(amount) ==> before + amount <= u64::MAX
    &&& value matches UsageValue::Estimated(amount) ==> before + amount <= u64::MAX
}

/// The evidence totals can take one more value.
pub open spec fn has_room_for_evidence(totals: UsageTotals, value: UsageValue) -> bool {
    match value {
        UsageValue::Actual(amount) => totals.actual + amount <= u64::MAX,
        UsageValue::Estimated(amount) => totals.estimated + amount <= u64::MAX,
        UsageValue::Unknown => totals.unknown < u64::MAX,
    }
}

/// A value is told in the total of its own kind and in no other.
pub open spec fn tells(before: UsageTotals, after: UsageTotals, value: UsageValue) -> bool {
    match value {
        UsageValue::Actual(amount) => after.actual == before.actual + amount && after.estimated
            == before.estimated && after.unknown == before.unknown,
        UsageValue::Estimated(amount) => after.actual == before.actual && after.estimated
            == before.estimated + amount && after.unknown == before.unknown,
        UsageValue::Unknown => after.actual == before.actual && after.estimated
            == before.estimated && before.unknown <= after.unknown <= before.unknown + 1,
    }
}

/// Settling is conservative: work whose usage is not known for certain never costs less
/// than was held for it, in the task's account and in the run's, and work that is known
/// costs what it used. What was held is given back whole, each kind of evidence is told
/// apart, and a task whose work used more than it held stops.
pub proof fn settling_is_conservative(v: LedgerView, id: u64, usage: BudgetUsage, now: nat)
    requires
        v.wf(),
        v.writable_fault() is None,
        v.at(id) is Some,
        v.pending[v.at(id)->0].started,
        ({
            let q = v.pending[v.at(id)->0].request.amounts;
            let run = v.run->0.report.charged;
            &&& has_room(v.charged.input_tokens, usage.input_tokens, q.input_tokens)
            &&& has_room(v.charged.output_tokens, usage.output_tokens, q.output_tokens)
            &&& has_room(v.charged.tool_output_bytes, usage.tool_output_bytes, q.tool_output_bytes)
            &&& has_room(run.input_tokens, usage.input_tokens, q.input_tokens)
            &&& has_room(run.output_tokens, usage.output_tokens, q.output_tokens)
            &&& has_room(run.tool_output_bytes, usage.tool_output_bytes, q.tool_output_bytes)
            &&& has_room_for_evidence(v.usage.input_tokens, usage.input_tokens)
            &&& has_room_for_evidence(v.usage.output_tokens, usage.output_tokens)
            &&& has_room_for_evidence(v.usage.tool_output_bytes, usage.tool_output_bytes)
        }),
    ensures
        ({
            let i = v.at(id)->0;
            let q = v.pending[i].request.amounts;
            let after = v.settled_for_good(id, usage, now);
            let run = v.run->0.report.charged;
            let run_after = after.run->0.report.charged;
            let exceeds = |value: UsageValue, held: u64|
                (value matches UsageValue::Actual(amount) && amount > held) || (
                value matches UsageValue::Estimated(amount) && amount > held);
            let breached = exceeds(usage.input_tokens, q.input_tokens) || exceeds(
                usage.output_tokens,
                q.output_tokens,
            ) || exceeds(usage.tool_output_bytes, q.tool_output_bytes);
            &&& grows_by(v.charged.input_tokens, after.charged.input_tokens, usage.input_tokens, q.input_tokens)
            &&& grows_by(v.charged.output_tokens, after.charged.output_tokens, usage.output_tokens, q.output_tokens)
            &&& grows_by(
                v.charged.tool_output_bytes,
                after.charged.tool_output_bytes,
                usage.tool_output_bytes,
                q.tool_output_bytes,
            )
            &&& grows_by(run.input_tokens, run_after.input_tokens, usage.input_tokens, q.input_tokens)
            &&& grows_by(run.output_tokens, run_after.output_tokens, usage.output_tokens, q.output_tokens)
            &&& grows_by(
                run.tool_output_bytes,
                run_after.tool_output_bytes,
                usage.tool_output_bytes,
                q.tool_output_bytes,
            )
            &&& after.charged.steps == v.charged.steps
            &&& after.charged.corrections == v.charged.corrections
            &&& after.charged.model_requests == v.charged.model_requests
            &&& after.charged.tool_calls == v.charged.tool_calls
            &&& after.reserved.input_tokens == v.reserved.input_tokens - q.input_tokens
            &&& after.reserved.output_tokens == v.reserved.output_tokens - q.output_tokens
            &&& after.reserved.tool_output_bytes == v.reserved.tool_output_bytes - q.tool_output_bytes
            &&& tells(v.usage.input_tokens, after.usage.input_tokens, usage.input_tokens)
            &&& tells(v.usage.output_tokens, after.usage.output_tokens, usage.output_tokens)
            &&& tells(v.usage.tool_output_bytes, after.usage.tool_output_bytes, usage.tool_output_bytes)
            &&& usage.input_tokens is Unknown && q.model_requests > 0 ==> after.usage.input_tokens.unknown
                == v.usage.input_tokens.unknown + 1
            &&& usage.output_tokens is Unknown && q.model_requests > 0 ==> after.usage.output_tokens.unknown
                == v.usage.output_tokens.unknown + 1
            &&& usage.tool_output_bytes is Unknown && q.tool_calls > 0
                ==> after.usage.tool_output_bytes.unknown == v.usage.tool_output_bytes.unknown + 1
            &&& after.pending == v.pending.remove(i)
            &&& breached ==> after.stop is Some && v.settle_fault(id, usage, now) is Some
            &&& !breached ==> after.stop == v.ticked(now).stop && v.settle_fault(id, usage, now) is None
        }),
{
    laws::tick_keeps_agreement(v, now);
    laws::position_found(v.pending, id, 0);
    let i = v.at(id)->0;
    laws::held_covers(v, i, BudgetResource::InputTokens);
    laws::held_covers(v, i, BudgetResource::OutputTokens);
    laws::held_covers(v, i, BudgetResource::ToolOutputBytes);
    assert(v.ticked(now).pending == v.pending);
    assert(v.ticked(now).charged == v.charged);
    assert(v.ticked(now).usage == v.usage);
    assert(v.ticked(now).run->0.report.charged == v.run->0.report.charged);
}

/// Settling that overflows a sum changes no account: the reservation stays, holds what it
/// held, remembers the usage that could not be booked, and is given up; the task stops.
pub proof fn overflowing_settlements_book_nothing(v: LedgerView, id: u64, usage: BudgetUsage, now: nat)
    requires
        v.wf(),
        v.writable_fault() is None,
        v.at(id) is Some,
        v.pending[v.at(id)->0].started,
        v.ticked(now).settlement(v.at(id)->0, usage) is None,
    ensures
        v.settle_fault(id, usage, now) == Some(
            BudgetError::Stopped(BudgetStopReason::AccountingOverflow),
        ),
        ({
            let i = v.at(id)->0;
            let after = v.settled_for_good(id, usage, now);
            &&& after.charged == v.charged
            &&& after.reserved == v.reserved
            &&& after.usage == v.usage
            &&& after.pending == v.pending.update(
                i,
                BudgetPendingReport {
                    failed_usage: Some(usage),
                    abandoned: true,
                    ..v.pending[i]
                },
            )
            &&& after.stop == model::first_stop(
                v.ticked(now).stop,
                BudgetStopReason::AccountingOverflow,
            )
        }),
{
    let i = v.at(id)->0;
    let kept = BudgetPendingReport { failed_usage: Some(usage), ..v.pending[i] };
    laws::tick_keeps_agreement(v, now);
    laws::position_found(v.pending, id, 0);
    position_survives(v.pending, i, kept, 0);
    assert(v.ticked(now).pending == v.pending);
    let s = v.settled(id, usage, now);
    assert(s.pending == v.pending.update(i, kept));
    assert(s.ticked(now).pending == s.pending);
    assert(s.ticked(now).stop == s.stop);
    assert(v.settled_for_good(id, usage, now).pending =~= v.pending.update(
        i,
        BudgetPendingReport { abandoned: true, ..kept },
    ));
}

/// An entry that keeps its id keeps its place.
proof fn position_survives(
    pending: Seq<BudgetPendingReport>,
    i: int,
    entry: BudgetPendingReport,
    from: int,
)
    requires
        0 <= from <= i < pending.len(),
        entry.id == pending[i].id,
    ensures
        model::position(pending.update(i, entry), entry.id, from) == model::position(
            pending,
            entry.id,
            from,
        ),
    decreases i - from,
{
    if from < i {
        position_survives(pending, i, entry, from + 1);
    }
}

/// What the run that is not finished yet was charged.
pub open spec fn open_charge(v: LedgerView, r: BudgetResource) -> nat {
    match v.run {
        Some(run) => run.report.charged.at(r) as nat,
        None => 0,
    }
}

/// The report that finishing the run gives.
pub open spec fn finish_report(v: LedgerView, now: nat) -> ReportView {
    let t = v.ticked(now);
    t.with_run_report(RunReportView { open: false, ..t.run->0.report }).report()
}

/// What the report of a run that this step finishes says it was charged.
pub open spec fn finished_charge(v: LedgerView, step: LedgerStep, r: BudgetResource) -> nat {
    match step {
        LedgerStep::Finish { run, now } => if v.finish_fault(run, now) is None {
            finish_report(v, now).run->0.charged.at(r) as nat
        } else {
            0
        },
        _ => 0,
    }
}

/// What the reports of all the runs that the steps finish say together.
pub open spec fn finished_charges(v: LedgerView, steps: Seq<LedgerStep>, r: BudgetResource) -> nat
    decreases steps.len(),
{
    if steps.len() == 0 {
        0
    } else {
        finished_charges(v, steps.drop_last(), r) + finished_charge(
            v.after_all(steps.drop_last()),
            steps.last(),
            r,
        )
    }
}

/// A clock sample charges no run and neither opens nor ends one.
proof fn ticks_charge_no_run(v: LedgerView, now: nat, r: BudgetResource)
    ensures
        is_quiet(v, v.ticked(now), r),
        v.ticked(now).run is Some == v.run is Some,
{
}

/// Nothing is charged, no run begins or ends, and limits and numbers stay.
spec fn is_quiet(v: LedgerView, after: LedgerView, r: BudgetResource) -> bool {
    &&& after.charged == v.charged
    &&& open_charge(after, r) == open_charge(v, r)
    &&& after.limits == v.limits
    &&& after.next_id == v.next_id
}

proof fn binding_is_quiet(v: LedgerView, run: u64, turn: Seq<char>, now: nat, r: BudgetResource)
    ensures
        is_quiet(v, v.bound(run, turn, now), r),
{
    ticks_charge_no_run(v, now, r);
}

proof fn preparing_is_quiet(v: LedgerView, run: u64, now: nat, r: BudgetResource)
    ensures
        is_quiet(v, v.prepared(run, now), r),
{
    ticks_charge_no_run(v, now, r);
}

proof fn abandoning_is_quiet(v: LedgerView, run: u64, now: nat, r: BudgetResource)
    ensures
        is_quiet(v, v.run_abandoned(run, now), r),
{
    ticks_charge_no_run(v, now, r);
}

proof fn expiring_is_quiet(v: LedgerView, run: u64, now: nat, r: BudgetResource)
    ensures
        is_quiet(v, v.expired(run, now), r),
{
    ticks_charge_no_run(v, now, r);
}

proof fn stopping_is_quiet(v: LedgerView, run: u64, reason: BudgetStopReason, now: nat, r: BudgetResource)
    ensures
        is_quiet(v, v.stopped_with(run, reason, now), r),
{
    ticks_charge_no_run(v, now, r);
}

proof fn cleaning_is_quiet(v: LedgerView, run: u64, now: nat, r: BudgetResource)
    ensures
        is_quiet(v, v.cleaning_begun(run, now), r),
{
    ticks_charge_no_run(v, now, r);
}

proof fn recording_is_quiet(v: LedgerView, run: u64, metrics: MetricsView, r: BudgetResource)
    ensures
        is_quiet(v, v.with_metrics(run, metrics), r),
{
}

proof fn starting_is_quiet(v: LedgerView, run: u64, id: u64, now: nat, r: BudgetResource)
    ensures
        is_quiet(v, v.started(run, id, now), r),
{
    ticks_charge_no_run(v, now, r);
}

proof fn cancelling_is_quiet(v: LedgerView, id: u64, now: nat, r: BudgetResource)
    requires
        v.wf(),
    ensures
        is_quiet(v, v.cancelled(id, now), r),
{
    ticks_charge_no_run(v, now, r);
    laws::tick_keeps_agreement(v, now);
    laws::position_found(v.ticked(now).pending, id, 0);
}

proof fn letting_go_is_quiet(v: LedgerView, id: u64, now: nat, r: BudgetResource)
    ensures
        is_quiet(v, v.reservation_abandoned(id, now), r),
{
    ticks_charge_no_run(v, now, r);
}

/// A step charges the task as much as the open run. The charge of a run that the step
/// finishes leaves with its report.
spec fn is_accounted(v: LedgerView, after: LedgerView, finished: nat, r: BudgetResource) -> bool {
    &&& after.charged.at(r) + open_charge(v, r) == v.charged.at(r) + finished + open_charge(
        after,
        r,
    )
    &&& after.limits == v.limits
    &&& v.next_id <= after.next_id
}

proof fn beginning_is_accounted(
    v: LedgerView,
    turn: Option<Seq<char>>,
    limits: LimitsView,
    now: nat,
    later: nat,
    r: BudgetResource,
)
    ensures
        is_accounted(v, v.begun(turn, limits, now, later), 0, r),
{
    ticks_charge_no_run(v, now, r);
    let t = v.ticked(now);
    if v.begin_fault(now) is None {
        let id = (t.next_id + 1) as u64;
        let run = RunStateView {
            id,
            cleaning: false,
            report: RunReportView {
                turn,
                metrics: MetricsView::none(),
                limits: t.limits.meet(limits),
                charged: BudgetAmounts::none(),
                reserved: BudgetAmounts::none(),
                active: 0,
                cleanup: 0,
                open: true,
                stop: None,
            },
        };
        ticks_charge_no_run(LedgerView { next_id: id, run: Some(run), ..t }, later, r);
    }
}

/// Finishing a run takes its charge out of the ledger and into the report.
proof fn finishing_is_accounted(v: LedgerView, run: u64, now: nat, r: BudgetResource)
    ensures
        is_accounted(
            v,
            v.finished(run, now),
            finished_charge(v, LedgerStep::Finish { run, now }, r),
            r,
        ),
{
    ticks_charge_no_run(v, now, r);
}

proof fn requesting_is_accounted(
    v: LedgerView,
    run: u64,
    request: BudgetRequest,
    now: nat,
    r: BudgetResource,
)
    ensures
        is_accounted(v, v.requested(run, request, now), 0, r),
{
    ticks_charge_no_run(v, now, r);
    let t = v.ticked(now);
    let i = r.place();
    assert(BudgetResource::nth(i) == r);
    if t.reserve_fault(run, request) is None {
        laws::no_misfit(t, request.amounts, 0);
    }
}

proof fn settling_is_accounted(
    v: LedgerView,
    id: u64,
    usage: BudgetUsage,
    now: nat,
    r: BudgetResource,
)
    requires
        v.wf(),
    ensures
        is_accounted(v, v.settled(id, usage, now), 0, r),
{
    ticks_charge_no_run(v, now, r);
    laws::tick_keeps_agreement(v, now);
    laws::position_found(v.ticked(now).pending, id, 0);
}

/// Every step is accounted for.
proof fn steps_are_accounted(v: LedgerView, step: LedgerStep, r: BudgetResource)
    requires
        v.wf(),
    ensures
        is_accounted(v, v.after(step), finished_charge(v, step, r), r),
{
    reveal(LedgerView::after);
    match step {
        LedgerStep::Tick { now } => ticks_charge_no_run(v, now, r),
        LedgerStep::Begin { turn, limits, now, later } => beginning_is_accounted(
            v,
            turn,
            limits,
            now,
            later,
            r,
        ),
        LedgerStep::Bind { run, turn, now } => binding_is_quiet(v, run, turn, now, r),
        LedgerStep::Prepare { run, now } => preparing_is_quiet(v, run, now, r),
        LedgerStep::Finish { run, now } => finishing_is_accounted(v, run, now, r),
        LedgerStep::AbandonRun { run, now } => abandoning_is_quiet(v, run, now, r),
        LedgerStep::Expire { run, now } => expiring_is_quiet(v, run, now, r),
        LedgerStep::StopWith { run, reason, now } => stopping_is_quiet(v, run, reason, now, r),
        LedgerStep::BeginCleanup { run, now } => cleaning_is_quiet(v, run, now, r),
        LedgerStep::Record { run, metrics } => recording_is_quiet(v, run, metrics, r),
        LedgerStep::Request { run, request, now } => requesting_is_accounted(
            v,
            run,
            request,
            now,
            r,
        ),
        LedgerStep::Start { run, id, now } => starting_is_quiet(v, run, id, now, r),
        LedgerStep::Cancel { id, now } => cancelling_is_quiet(v, id, now, r),
        LedgerStep::Settle { id, usage, now } => settling_is_accounted(v, id, usage, now, r),
        LedgerStep::AbandonReservation { id, now } => letting_go_is_quiet(v, id, now, r),
    }
}

/// Consumption accumulates from run to run: over any steps a task is charged exactly
/// what its finished runs reported and what its open run has been charged since.
pub proof fn charges_accumulate(v: LedgerView, steps: Seq<LedgerStep>, r: BudgetResource)
    requires
        v.wf(),
    ensures
        v.after_all(steps).wf(),
        v.after_all(steps).charged.at(r) + open_charge(v, r) == v.charged.at(r)
            + finished_charges(v, steps, r) + open_charge(v.after_all(steps), r),
    decreases steps.len(),
{
    if steps.len() > 0 {
        let before = v.after_all(steps.drop_last());
        charges_accumulate(v, steps.drop_last(), r);
        agreement_is_invariant(before, steps.last());
        steps_are_accounted(before, steps.last(), r);
    }
}

/// Where every run of a new task has been finished, the task's charge is the sum of
/// what the reports of its runs say.
pub proof fn finished_runs_add_up(
    identity: IdentityView,
    limits: LimitsView,
    mode: TokenBudgetMode,
    now: nat,
    steps: Seq<LedgerStep>,
    r: BudgetResource,
)
    requires
        identity.is_named(),
        LedgerView::fresh(identity, limits, mode, now).after_all(steps).run is None,
    ensures
        LedgerView::fresh(identity, limits, mode, now).after_all(steps).charged.at(r)
            == finished_charges(LedgerView::fresh(identity, limits, mode, now), steps, r),
{
    laws::fresh_agrees(identity, limits, mode, now);
    charges_accumulate(LedgerView::fresh(identity, limits, mode, now), steps, r);
}

/// Once the runs of a new task have been finished, the next one begins with nothing
/// charged or held, under the tighter of the task's limits and its own, and the task's
/// report shows the sum of what the reports of the earlier runs say.
pub proof fn next_runs_find_the_sum(
    identity: IdentityView,
    limits: LimitsView,
    mode: TokenBudgetMode,
    now: nat,
    steps: Seq<LedgerStep>,
    turn: Option<Seq<char>>,
    run_limits: LimitsView,
    begun: nat,
    later: nat,
    r: BudgetResource,
)
    requires
        identity.is_named(),
        LedgerView::fresh(identity, limits, mode, now).after_all(steps).begin_fault(begun) is None,
    ensures
        ({
            let first = LedgerView::fresh(identity, limits, mode, now);
            let report = first.after_all(steps).begun(turn, run_limits, begun, later).report();
            &&& report.charged.at(r) == finished_charges(first, steps, r)
            &&& report.run is Some
            &&& report.run->0.charged.at(r) == 0
            &&& report.run->0.reserved.at(r) == 0
            &&& report.limits == limits
            &&& report.run->0.limits == limits.meet(run_limits)
        }),
{
    let first = LedgerView::fresh(identity, limits, mode, now);
    let v = first.after_all(steps);
    ticks_charge_no_run(v, begun, r);
    finished_runs_add_up(identity, limits, mode, now, steps, r);
    runs_begin_empty(v, turn, run_limits, begun, later);
    laws::fresh_agrees(identity, limits, mode, now);
    limits_stay(first, steps);
}

/// No step changes the limits of a task.
proof fn limits_stay(v: LedgerView, steps: Seq<LedgerStep>)
    requires
        v.wf(),
    ensures
        v.after_all(steps).limits == v.limits,
    decreases steps.len(),
{
    if steps.len() > 0 {
        let before = v.after_all(steps.drop_last());
        limits_stay(v, steps.drop_last());
        charges_accumulate(v, steps.drop_last(), BudgetResource::Steps);
        steps_are_accounted(before, steps.last(), BudgetResource::Steps);
    }
}

/// A run begins with nothing charged or held, under the tighter of the task's limits
/// and its own, and leaves the task's charge as it was.
pub proof fn runs_begin_empty(
    v: LedgerView,
    turn: Option<Seq<char>>,
    limits: LimitsView,
    now: nat,
    later: nat,
)
    requires
        v.begin_fault(now) is None,
    ensures
        ({
            let after = v.begun(turn, limits, now, later);
            &&& after.run is Some
            &&& after.run->0.report.charged == BudgetAmounts::none()
            &&& after.run->0.report.reserved == BudgetAmounts::none()
            &&& after.run->0.report.limits == v.limits.meet(limits)
            &&& after.limits == v.limits
            &&& after.charged == v.charged
        }),
{
}

/// Time that passes in an open run is accounted to the nanosecond: what is not
/// active is cleanup, and active time never passes the task's limit.
pub proof fn time_is_accounted(v: LedgerView, now: nat)
    requires
        v.wf(),
        v.writable_fault() is None,
        v.run is Some,
        v.run->0.report.open,
        v.clock <= now,
        v.cleanup + (now - v.clock) < model::time_end(),
    ensures
        ({
            let t = v.ticked(now);
            &&& t.active + t.cleanup == v.active + v.cleanup + (now - v.clock)
            &&& t.active <= v.limits.active || t.active == v.active
            &&& t.clock == now
        }),
{
}

} // verus!
