//! The ledger as a mathematical state, and every step it can take.

use crate::budget::audit::{GrantView, RecoveryView};
use crate::budget::vocabulary;
use crate::budget::vocabulary::{
    BudgetAmounts, BudgetPendingReport, BudgetRequest, BudgetResource, BudgetStopReason, BudgetUsage, BudgetUsageReport, IdentityView, LimitsView, MetricsView, ReportView, RunReportView, TokenBoundEvidence, TokenBudgetMode, UsageTotals, UsageValue,
};
use vstd::prelude::*;

verus! {

#[derive(Clone, Copy, Debug, PartialEq, Eq, Structural)]
pub enum BudgetError {
    /// This ledger has been sealed for checkpoint transfer.
    CheckpointSealed,
    /// Task, session and agent identity must be nonempty.
    InvalidIdentity,
    /// Budget binding identity does not match the request or recorded event.
    IdentityMismatch,
    /// A task run is already active.
    RunActive,
    /// This run is closed.
    RunClosed,
    Stopped(BudgetStopReason),
    /// A reservation must consume at least one attempt.
    EmptyRequest,
    /// Missing verified token bound.
    UnverifiedTokenBound(BudgetResource),
    /// An unknown token estimate cannot be zero.
    ZeroTokenEstimate(BudgetResource),
    /// Reservation has already started.
    AlreadyStarted,
    /// Reservation has not started.
    NotStarted,
    /// Reservation is unavailable.
    ReservationMissing,
    /// Pending reservations must be settled before finishing.
    PendingReservations,
    /// The lock around the ledger was poisoned.
    Poisoned,
}

pub struct RunStateView {
    pub id: u64,
    pub report: RunReportView,
    pub cleaning: bool,
}

/// Everything a ledger knows. Times are nanoseconds.
pub struct LedgerView {
    pub identity: IdentityView,
    pub limits: LimitsView,
    pub token_mode: TokenBudgetMode,
    pub sealed: bool,
    pub recovery_frozen: bool,
    pub revision: u64,
    pub charged: BudgetAmounts,
    pub reserved: BudgetAmounts,
    pub usage: BudgetUsageReport,
    pub active: nat,
    pub cleanup: nat,
    pub stop: Option<BudgetStopReason>,
    pub run: Option<RunStateView>,
    pub pending: Seq<BudgetPendingReport>,
    pub next_id: u64,
    pub clock: nat,
    /// Audits of earlier images, carried along unchanged.
    pub grants: Seq<GrantView>,
    pub recoveries: Seq<RecoveryView>,
}

/// The first length of time that no `Duration` can hold.
pub open spec fn time_end() -> nat {
    0x1_0000_0000_0000_0000 * 1_000_000_000
}

/// A stop, once set, is never replaced.
pub open spec fn first_stop(
    stop: Option<BudgetStopReason>,
    reason: BudgetStopReason,
) -> Option<BudgetStopReason> {
    match stop {
        Some(earlier) => Some(earlier),
        None => Some(reason),
    }
}

pub open spec fn monus(a: nat, b: nat) -> nat {
    if b <= a {
        (a - b) as nat
    } else {
        0
    }
}

/// What `limit` still admits beside `charged` and `reserved`.
pub open spec fn fits_within(charged: u64, reserved: u64, requested: u64, limit: u64) -> bool {
    charged + reserved + requested <= limit
}

/// What all of `pending` together ask of one resource.
pub open spec fn total(pending: Seq<BudgetPendingReport>, resource: BudgetResource) -> nat
    decreases pending.len(),
{
    if pending.len() == 0 {
        0
    } else {
        total(pending.drop_last(), resource) + pending.last().request.amounts.at(resource) as nat
    }
}

/// What is wrong with a request on its own, if anything.
pub open spec fn request_fault(request: BudgetRequest, mode: TokenBudgetMode) -> Option<
    BudgetError,
> {
    let amounts = request.amounts;
    if amounts.steps == 0 && amounts.model_requests == 0 && amounts.tool_calls == 0
        && amounts.corrections == 0 {
        Some(BudgetError::EmptyRequest)
    } else {
        match token_fault(
            BudgetResource::InputTokens,
            amounts,
            request.input_tokens,
            mode,
        ) {
            Some(fault) => Some(fault),
            None => token_fault(
                BudgetResource::OutputTokens,
                amounts,
                request.output_tokens,
                mode,
            ),
        }
    }
}

/// A token amount that matters needs a verified bound, or in soft mode an
/// estimate above zero.
pub open spec fn token_fault(
    resource: BudgetResource,
    amounts: BudgetAmounts,
    evidence: TokenBoundEvidence,
    mode: TokenBudgetMode,
) -> Option<BudgetError> {
    let amount = amounts.at(resource);
    if (amounts.model_requests > 0 || amount > 0) && evidence
        != TokenBoundEvidence::VerifiedUpperBound {
        if mode == TokenBudgetMode::Hard {
            Some(BudgetError::UnverifiedTokenBound(resource))
        } else if amount == 0 {
            Some(BudgetError::ZeroTokenEstimate(resource))
        } else {
            None
        }
    } else {
        None
    }
}

/// Where the reservation `id` stands among `pending`, looking from `from` on.
pub open spec fn position(pending: Seq<BudgetPendingReport>, id: u64, from: int) -> Option<int>
    decreases pending.len() - from,
{
    if from < 0 || from >= pending.len() {
        None
    } else if pending[from].id == id {
        Some(from)
    } else {
        position(pending, id, from + 1)
    }
}

/// `amounts` with the attempts of `more` added.
pub open spec fn with_attempts(amounts: BudgetAmounts, more: BudgetAmounts) -> BudgetAmounts {
    BudgetAmounts {
        steps: (amounts.steps + more.steps) as u64,
        model_requests: (amounts.model_requests + more.model_requests) as u64,
        tool_calls: (amounts.tool_calls + more.tool_calls) as u64,
        corrections: (amounts.corrections + more.corrections) as u64,
        ..amounts
    }
}

/// `amounts` with the variable resources of `more` added.
pub open spec fn with_variables(amounts: BudgetAmounts, more: BudgetAmounts) -> BudgetAmounts {
    BudgetAmounts {
        input_tokens: (amounts.input_tokens + more.input_tokens) as u64,
        output_tokens: (amounts.output_tokens + more.output_tokens) as u64,
        tool_output_bytes: (amounts.tool_output_bytes + more.tool_output_bytes) as u64,
        ..amounts
    }
}

/// `amounts` with the variable resources of `less` taken away.
pub open spec fn without_variables(amounts: BudgetAmounts, less: BudgetAmounts) -> BudgetAmounts {
    BudgetAmounts {
        input_tokens: (amounts.input_tokens - less.input_tokens) as u64,
        output_tokens: (amounts.output_tokens - less.output_tokens) as u64,
        tool_output_bytes: (amounts.tool_output_bytes - less.tool_output_bytes) as u64,
        ..amounts
    }
}

/// What a settled value costs: an actual amount as it is, an estimate no less
/// than was reserved, an unknown amount exactly what was reserved.
pub open spec fn debit(value: UsageValue, reserved: u64) -> u64 {
    match value {
        UsageValue::Actual(amount) => amount,
        UsageValue::Estimated(amount) => if amount < reserved {
            reserved
        } else {
            amount
        },
        UsageValue::Unknown => reserved,
    }
}

/// Evidence totals after one more value, unless they overflow.
pub open spec fn observed(
    totals: UsageTotals,
    value: UsageValue,
    reserved: u64,
    applicable: bool,
) -> Option<UsageTotals> {
    match value {
        UsageValue::Actual(amount) => if totals.actual + amount <= u64::MAX {
            Some(UsageTotals { actual: (totals.actual + amount) as u64, ..totals })
        } else {
            None
        },
        UsageValue::Estimated(amount) => if totals.estimated + amount <= u64::MAX {
            Some(UsageTotals { estimated: (totals.estimated + amount) as u64, ..totals })
        } else {
            None
        },
        UsageValue::Unknown => if !applicable && reserved == 0 {
            Some(totals)
        } else if totals.unknown + 1 <= u64::MAX {
            Some(UsageTotals { unknown: (totals.unknown + 1) as u64, ..totals })
        } else {
            None
        },
    }
}

/// What settling does to the accounts.
pub struct Settlement {
    pub charged: BudgetAmounts,
    pub run_charged: BudgetAmounts,
    pub usage: BudgetUsageReport,
    pub breach: Option<BudgetResource>,
}

/// The settled accounts, unless some sum overflows.
pub open spec fn settlement_of(
    charged: BudgetAmounts,
    run_charged: BudgetAmounts,
    usage: BudgetUsageReport,
    request: BudgetAmounts,
    used: BudgetUsage,
) -> Option<Settlement> {
    let by_model = request.model_requests > 0;
    let by_tool = request.tool_calls > 0;
    let input = observed(usage.input_tokens, used.input_tokens, request.input_tokens, by_model);
    let output = observed(usage.output_tokens, used.output_tokens, request.output_tokens, by_model);
    let bytes = observed(
        usage.tool_output_bytes,
        used.tool_output_bytes,
        request.tool_output_bytes,
        by_tool,
    );
    let costs = BudgetAmounts {
        input_tokens: debit(used.input_tokens, request.input_tokens),
        output_tokens: debit(used.output_tokens, request.output_tokens),
        tool_output_bytes: debit(used.tool_output_bytes, request.tool_output_bytes),
        ..BudgetAmounts::none()
    };
    if input is Some && output is Some && bytes is Some && variables_fit(charged, costs)
        && variables_fit(run_charged, costs) {
        Some(
            Settlement {
                charged: with_variables(charged, costs),
                run_charged: with_variables(run_charged, costs),
                usage: BudgetUsageReport {
                    input_tokens: input->0,
                    output_tokens: output->0,
                    tool_output_bytes: bytes->0,
                },
                breach: if costs.input_tokens > request.input_tokens {
                    Some(BudgetResource::InputTokens)
                } else if costs.output_tokens > request.output_tokens {
                    Some(BudgetResource::OutputTokens)
                } else if costs.tool_output_bytes > request.tool_output_bytes {
                    Some(BudgetResource::ToolOutputBytes)
                } else {
                    None
                },
            },
        )
    } else {
        None
    }
}

/// No variable resource overflows in the sum.
pub open spec fn variables_fit(amounts: BudgetAmounts, more: BudgetAmounts) -> bool {
    &&& amounts.input_tokens + more.input_tokens <= u64::MAX
    &&& amounts.output_tokens + more.output_tokens <= u64::MAX
    &&& amounts.tool_output_bytes + more.tool_output_bytes <= u64::MAX
}

impl LedgerView {
    /// Why nothing may be written at all, if so.
    pub open spec fn writable_fault(self) -> Option<BudgetError> {
        if self.sealed {
            Some(BudgetError::CheckpointSealed)
        } else if self.recovery_frozen {
            Some(BudgetError::Stopped(BudgetStopReason::RecoveryRequired))
        } else {
            None
        }
    }

    /// Why the run `id` may not act, if so.
    pub open spec fn run_fault(self, id: u64) -> Option<BudgetError> {
        match self.writable_fault() {
            Some(fault) => Some(fault),
            None => if self.run is Some && self.run->0.id == id && self.run->0.report.open {
                None
            } else {
                Some(BudgetError::RunClosed)
            },
        }
    }

    /// The stop in force: the task's own before that of the run.
    pub open spec fn stop_in_force(self) -> Option<BudgetStopReason> {
        match self.stop {
            Some(reason) => Some(reason),
            None => match self.run {
                Some(run) => run.report.stop,
                None => None,
            },
        }
    }

    /// Why no further work may be admitted, if so.
    pub open spec fn stop_fault(self) -> Option<BudgetError> {
        match self.writable_fault() {
            Some(fault) => Some(fault),
            None => match self.stop_in_force() {
                Some(reason) => Some(BudgetError::Stopped(reason)),
                None => None,
            },
        }
    }

    /// Why the run `id` may not admit work, if so.
    pub open spec fn active_fault(self, id: u64) -> Option<BudgetError> {
        match self.run_fault(id) {
            Some(fault) => Some(fault),
            None => self.stop_fault(),
        }
    }

    /// The ledger after a clock sample. Time faults stop admission, never settlement.
    pub open spec fn ticked(self, now: nat) -> LedgerView {
        if self.sealed || self.recovery_frozen {
            self
        } else if now < self.clock {
            LedgerView {
                stop: first_stop(self.stop, BudgetStopReason::ClockMovedBackwards),
                ..self
            }
        } else {
            let sampled = LedgerView { clock: now, ..self };
            match self.run {
                Some(run) => if run.report.open || self.pending.len() > 0 {
                    sampled.spent(run, (now - self.clock) as nat)
                } else {
                    sampled
                },
                None => sampled,
            }
        }
    }

    /// The ledger after `elapsed` in the run: active time as far as limits allow,
    /// the rest cleanup.
    pub open spec fn spent(self, run: RunStateView, elapsed: nat) -> LedgerView {
        let stopped = self.stop is Some || run.report.stop is Some;
        let task_left = monus(self.limits.active, self.active);
        let run_left = monus(run.report.limits.active, run.report.active);
        let left = vocabulary::min_nat(task_left, run_left);
        let active = if stopped || run.cleaning {
            0
        } else {
            vocabulary::min_nat(elapsed, left)
        };
        let cleanup = (elapsed - active) as nat;
        let expired = !stopped && !run.cleaning && elapsed >= left;
        let stop = if expired && task_left <= run_left {
            Some(BudgetStopReason::ActiveTime)
        } else {
            self.stop
        };
        let run_stop = if expired && run_left < task_left {
            Some(BudgetStopReason::ActiveTime)
        } else {
            run.report.stop
        };
        let holds = self.cleanup + cleanup < time_end() && run.report.cleanup + cleanup
            < time_end();
        LedgerView {
            active: self.active + active,
            cleanup: if holds {
                self.cleanup + cleanup
            } else {
                self.cleanup
            },
            stop: if holds {
                stop
            } else {
                first_stop(stop, BudgetStopReason::AccountingOverflow)
            },
            run: Some(
                RunStateView {
                    report: RunReportView {
                        active: run.report.active + active,
                        cleanup: if holds {
                            run.report.cleanup + cleanup
                        } else {
                            run.report.cleanup
                        },
                        stop: run_stop,
                        ..run.report
                    },
                    ..run
                },
            ),
            ..self
        }
    }

    /// The ledger of a new task.
    pub open spec fn fresh(
        identity: IdentityView,
        limits: LimitsView,
        token_mode: TokenBudgetMode,
        now: nat,
    ) -> LedgerView {
        LedgerView {
            identity,
            limits,
            token_mode,
            sealed: false,
            recovery_frozen: false,
            revision: 0,
            charged: BudgetAmounts::none(),
            reserved: BudgetAmounts::none(),
            usage: BudgetUsageReport::none(),
            active: 0,
            cleanup: 0,
            stop: None,
            run: None,
            pending: Seq::empty(),
            next_id: 0,
            clock: now,
            grants: Seq::empty(),
            recoveries: Seq::empty(),
        }
    }

    /// Why no run can begin at `now`, if so.
    pub open spec fn begin_fault(self, now: nat) -> Option<BudgetError> {
        match self.writable_fault() {
            Some(fault) => Some(fault),
            None => {
                let t = self.ticked(now);
                if t.run is Some {
                    Some(BudgetError::RunActive)
                } else {
                    match t.stop_fault() {
                        Some(fault) => Some(fault),
                        None => if t.next_id == u64::MAX {
                            Some(BudgetError::Stopped(BudgetStopReason::AccountingOverflow))
                        } else {
                            None
                        },
                    }
                }
            },
        }
    }

    /// The ledger once a run was asked for at `now` and, if it began, sampled again
    /// at `later`.
    pub open spec fn begun(
        self,
        turn: Option<Seq<char>>,
        limits: LimitsView,
        now: nat,
        later: nat,
    ) -> LedgerView {
        if self.writable_fault() is Some {
            self
        } else {
            let t = self.ticked(now);
            if t.run is Some || t.stop_fault() is Some {
                t
            } else if t.next_id == u64::MAX {
                LedgerView {
                    stop: first_stop(t.stop, BudgetStopReason::AccountingOverflow),
                    ..t
                }
            } else {
                let id = (t.next_id + 1) as u64;
                LedgerView {
                    next_id: id,
                    run: Some(
                        RunStateView {
                            id,
                            cleaning: false,
                            report: RunReportView {
                                turn,
                                metrics: MetricsView::none(),
                                limits: t.limits.meet(limits),
                                charged: BudgetAmounts::none(),
                                reserved: BudgetAmounts::none(),
                                active: 0,
                                cleanup: 0,
                                open: true,
                                stop: None,
                            },
                        },
                    ),
                    ..t
                }.ticked(later)
            }
        }
    }

    /// The ledger with another account of its run.
    pub open spec fn with_run(self, run: RunStateView) -> LedgerView {
        LedgerView { run: Some(run), ..self }
    }

    pub open spec fn with_run_report(self, report: RunReportView) -> LedgerView {
        LedgerView { run: Some(RunStateView { report, ..self.run->0 }), ..self }
    }

    /// Binding a turn works once, on a run that has none.
    pub open spec fn bind_fault(self, id: u64, now: nat) -> Option<BudgetError> {
        let t = self.ticked(now);
        match t.run_fault(id) {
            Some(fault) => Some(fault),
            None => if t.run->0.report.turn is Some {
                Some(BudgetError::IdentityMismatch)
            } else {
                None
            },
        }
    }

    pub open spec fn bound(self, id: u64, turn: Seq<char>, now: nat) -> LedgerView {
        let t = self.ticked(now);
        if self.bind_fault(id, now) is Some {
            t
        } else {
            t.with_run_report(RunReportView { turn: Some(turn), ..t.run->0.report })
        }
    }

    pub open spec fn prepare_fault(self, id: u64, now: nat) -> Option<BudgetError> {
        let t = self.ticked(now);
        match t.run_fault(id) {
            Some(fault) => Some(fault),
            None => if t.pending.len() > 0 {
                Some(BudgetError::PendingReservations)
            } else {
                None
            },
        }
    }

    /// Consumption closed, the lease kept.
    pub open spec fn prepared(self, id: u64, now: nat) -> LedgerView {
        let t = self.ticked(now);
        if self.prepare_fault(id, now) is Some {
            t
        } else {
            t.with_run_report(RunReportView { open: false, ..t.run->0.report })
        }
    }

    pub open spec fn finish_fault(self, id: u64, now: nat) -> Option<BudgetError> {
        match self.writable_fault() {
            Some(fault) => Some(fault),
            None => {
                let t = self.ticked(now);
                if !(t.run is Some && t.run->0.id == id) {
                    Some(BudgetError::RunClosed)
                } else if t.pending.len() > 0 {
                    Some(BudgetError::PendingReservations)
                } else {
                    None
                }
            },
        }
    }

    pub open spec fn finished(self, id: u64, now: nat) -> LedgerView {
        if self.writable_fault() is Some {
            self
        } else {
            let t = self.ticked(now);
            if self.finish_fault(id, now) is Some {
                t
            } else {
                LedgerView { run: None, ..t }
            }
        }
    }

    /// An unfinished run was dropped: it closes and the task freezes.
    pub open spec fn run_abandoned(self, id: u64, now: nat) -> LedgerView {
        if self.writable_fault() is Some {
            self
        } else {
            let t = self.ticked(now);
            if t.run is Some && t.run->0.id == id {
                LedgerView {
                    stop: first_stop(t.stop, BudgetStopReason::RunAbandoned),
                    ..t.with_run_report(RunReportView { open: false, ..t.run->0.report })
                }
            } else {
                t
            }
        }
    }

    /// An executor's timer fired: whoever runs out first stops, unless stopped already.
    pub open spec fn expired(self, id: u64, now: nat) -> LedgerView {
        let t = self.ticked(now);
        if t.run_fault(id) is Some || t.stop_fault() is Some {
            t
        } else {
            let run = t.run->0;
            if t.limits.active - t.active <= run.report.limits.active - run.report.active {
                LedgerView { stop: Some(BudgetStopReason::ActiveTime), ..t }
            } else {
                t.with_run_report(
                    RunReportView { stop: Some(BudgetStopReason::ActiveTime), ..run.report },
                )
            }
        }
    }

    pub open spec fn stopped_with(self, id: u64, reason: BudgetStopReason, now: nat) -> LedgerView {
        let t = self.ticked(now);
        if t.run_fault(id) is Some {
            t
        } else {
            t.with_run_report(
                RunReportView {
                    stop: first_stop(t.run->0.report.stop, reason),
                    ..t.run->0.report
                },
            )
        }
    }

    pub open spec fn cleaning_begun(self, id: u64, now: nat) -> LedgerView {
        let t = self.ticked(now);
        if t.run_fault(id) is Some {
            t
        } else {
            t.with_run(RunStateView { cleaning: true, ..t.run->0 })
        }
    }

    /// Whether metrics of run `id` are still kept.
    pub open spec fn keeps_metrics(self, id: u64) -> bool {
        self.writable_fault() is None && self.run is Some && self.run->0.id == id
    }

    pub open spec fn with_metrics(self, id: u64, metrics: MetricsView) -> LedgerView {
        if self.keeps_metrics(id) {
            self.with_run_report(RunReportView { metrics, ..self.run->0.report })
        } else {
            self
        }
    }

    /// The first resource, from the `i`th on, that a request does not fit into,
    /// and whether it is the task's limit (else the run's).
    pub open spec fn misfit(self, amounts: BudgetAmounts, i: int) -> Option<(BudgetResource, bool)>
        decreases 7 - i,
    {
        if i >= 7 {
            None
        } else {
            let r = BudgetResource::nth(i);
            let run = self.run->0.report;
            if !fits_within(
                self.charged.at(r),
                self.reserved.at(r),
                amounts.at(r),
                self.limits.resources.at(r),
            ) {
                Some((r, true))
            } else if !fits_within(
                run.charged.at(r),
                run.reserved.at(r),
                amounts.at(r),
                run.limits.resources.at(r),
            ) {
                Some((r, false))
            } else {
                self.misfit(amounts, i + 1)
            }
        }
    }

    /// Why a request is not granted, on a ledger whose clock was just sampled.
    pub open spec fn reserve_fault(self, id: u64, request: BudgetRequest) -> Option<BudgetError> {
        match self.active_fault(id) {
            Some(fault) => Some(fault),
            None => match request_fault(request, self.token_mode) {
                Some(fault) => Some(fault),
                None => match self.misfit(request.amounts, 0) {
                    Some((resource, _)) => Some(
                        BudgetError::Stopped(BudgetStopReason::ResourceLimit(resource)),
                    ),
                    None => if self.next_id == u64::MAX {
                        Some(BudgetError::Stopped(BudgetStopReason::AccountingOverflow))
                    } else {
                        None
                    },
                },
            },
        }
    }

    /// The ledger after a request at `now`: all of it is taken, or nothing but the
    /// evidence of the stop.
    pub open spec fn requested(self, id: u64, request: BudgetRequest, now: nat) -> LedgerView {
        let t = self.ticked(now);
        if t.active_fault(id) is Some || request_fault(request, t.token_mode) is Some {
            t
        } else {
            match t.misfit(request.amounts, 0) {
                Some((resource, of_task)) => if of_task {
                    LedgerView { stop: Some(BudgetStopReason::ResourceLimit(resource)), ..t }
                } else {
                    t.with_run_report(
                        RunReportView {
                            stop: Some(BudgetStopReason::ResourceLimit(resource)),
                            ..t.run->0.report
                        },
                    )
                },
                None => if t.next_id == u64::MAX {
                    LedgerView {
                        stop: first_stop(t.stop, BudgetStopReason::AccountingOverflow),
                        ..t
                    }
                } else {
                    t.granted(request)
                },
            }
        }
    }

    /// Attempts charged, variable resources held, the reservation pending.
    pub open spec fn granted(self, request: BudgetRequest) -> LedgerView {
        let id = (self.next_id + 1) as u64;
        let run = self.run->0;
        LedgerView {
            next_id: id,
            charged: with_attempts(self.charged, request.amounts),
            reserved: with_variables(self.reserved, request.amounts),
            run: Some(
                RunStateView {
                    report: RunReportView {
                        charged: with_attempts(run.report.charged, request.amounts),
                        reserved: with_variables(run.report.reserved, request.amounts),
                        ..run.report
                    },
                    ..run
                },
            ),
            pending: self.pending.push(
                BudgetPendingReport {
                    id,
                    request,
                    started: false,
                    abandoned: false,
                    failed_usage: None,
                },
            ),
            ..self
        }
    }

    pub open spec fn at(self, id: u64) -> Option<int> {
        position(self.pending, id, 0)
    }

    pub open spec fn start_fault(self, run_id: u64, id: u64) -> Option<BudgetError> {
        match self.active_fault(run_id) {
            Some(fault) => Some(fault),
            None => match self.at(id) {
                None => Some(BudgetError::ReservationMissing),
                Some(i) => if self.pending[i].started {
                    Some(BudgetError::AlreadyStarted)
                } else {
                    None
                },
            },
        }
    }

    pub open spec fn started(self, run_id: u64, id: u64, now: nat) -> LedgerView {
        let t = self.ticked(now);
        if t.start_fault(run_id, id) is Some {
            t
        } else {
            let i = t.at(id)->0;
            LedgerView {
                pending: t.pending.update(
                    i,
                    BudgetPendingReport { started: true, ..t.pending[i] },
                ),
                ..t
            }
        }
    }

    /// The variable resources of the `i`th reservation given back and the
    /// reservation gone.
    pub open spec fn released(self, i: int) -> LedgerView {
        let amounts = self.pending[i].request.amounts;
        let run = self.run->0;
        LedgerView {
            reserved: without_variables(self.reserved, amounts),
            run: Some(
                RunStateView {
                    report: RunReportView {
                        reserved: without_variables(run.report.reserved, amounts),
                        ..run.report
                    },
                    ..run
                },
            ),
            pending: self.pending.remove(i),
            ..self
        }
    }

    pub open spec fn cancel_fault(self, id: u64, now: nat) -> Option<BudgetError> {
        match self.writable_fault() {
            Some(fault) => Some(fault),
            None => {
                let t = self.ticked(now);
                match t.at(id) {
                    None => Some(BudgetError::ReservationMissing),
                    Some(i) => if t.pending[i].started {
                        Some(BudgetError::AlreadyStarted)
                    } else {
                        None
                    },
                }
            },
        }
    }

    pub open spec fn cancelled(self, id: u64, now: nat) -> LedgerView {
        if self.writable_fault() is Some {
            self
        } else {
            let t = self.ticked(now);
            if self.cancel_fault(id, now) is Some {
                t
            } else {
                t.released(t.at(id)->0)
            }
        }
    }

    /// The accounts as settling the `i`th reservation leaves them.
    pub open spec fn settlement(self, i: int, usage: BudgetUsage) -> Option<Settlement> {
        settlement_of(
            self.charged,
            self.run->0.report.charged,
            self.usage,
            self.pending[i].request.amounts,
            usage,
        )
    }

    pub open spec fn settle_fault(self, id: u64, usage: BudgetUsage, now: nat) -> Option<
        BudgetError,
    > {
        match self.writable_fault() {
            Some(fault) => Some(fault),
            None => {
                let t = self.ticked(now);
                match t.at(id) {
                    None => Some(BudgetError::ReservationMissing),
                    Some(i) => if !t.pending[i].started {
                        Some(BudgetError::NotStarted)
                    } else {
                        match t.settlement(i, usage) {
                            None => Some(
                                BudgetError::Stopped(BudgetStopReason::AccountingOverflow),
                            ),
                            Some(done) => match done.breach {
                                Some(resource) => Some(
                                    BudgetError::Stopped(
                                        BudgetStopReason::UsageExceededReservation(resource),
                                    ),
                                ),
                                None => None,
                            },
                        }
                    },
                }
            },
        }
    }

    /// The reservation is charged with what it used, or keeps its evidence where
    /// arithmetic prevents that. Usage is never clamped.
    pub open spec fn settled(self, id: u64, usage: BudgetUsage, now: nat) -> LedgerView {
        if self.writable_fault() is Some {
            self
        } else {
            let t = self.ticked(now);
            match t.at(id) {
                None => t,
                Some(i) => if !t.pending[i].started {
                    t
                } else {
                    match t.settlement(i, usage) {
                        None => LedgerView {
                            stop: first_stop(t.stop, BudgetStopReason::AccountingOverflow),
                            pending: t.pending.update(
                                i,
                                BudgetPendingReport { failed_usage: Some(usage), ..t.pending[i] },
                            ),
                            ..t
                        },
                        Some(done) => t.charged_with(i, done),
                    }
                },
            }
        }
    }

    pub open spec fn charged_with(self, i: int, done: Settlement) -> LedgerView {
        let r = self.released(i);
        LedgerView {
            charged: done.charged,
            usage: done.usage,
            run: Some(
                RunStateView {
                    report: RunReportView {
                        charged: done.run_charged,
                        ..r.run->0.report
                    },
                    ..r.run->0
                },
            ),
            stop: match done.breach {
                Some(resource) => first_stop(
                    r.stop,
                    BudgetStopReason::UsageExceededReservation(resource),
                ),
                None => r.stop,
            },
            ..r
        }
    }

    /// An unresolved reservation was dropped: it stays charged and the task freezes.
    pub open spec fn reservation_abandoned(self, id: u64, now: nat) -> LedgerView {
        if self.writable_fault() is Some {
            self
        } else {
            let t = self.ticked(now);
            match t.at(id) {
                None => t,
                Some(i) => LedgerView {
                    stop: first_stop(t.stop, BudgetStopReason::AbandonedReservation),
                    pending: t.pending.update(
                        i,
                        BudgetPendingReport { abandoned: true, ..t.pending[i] },
                    ),
                    ..t
                },
            }
        }
    }

    /// Settled by an owner that lets go of the reservation with it: one that stays
    /// unresolved is abandoned.
    pub open spec fn settled_for_good(self, id: u64, usage: BudgetUsage, now: nat) -> LedgerView {
        let s = self.settled(id, usage, now);
        if s.pending.len() < self.pending.len() {
            s
        } else {
            s.reservation_abandoned(id, now)
        }
    }

    /// Cancelled by an owner that lets go of the reservation with it.
    pub open spec fn cancelled_for_good(self, id: u64, now: nat) -> LedgerView {
        let c = self.cancelled(id, now);
        if self.cancel_fault(id, now) is None {
            c
        } else {
            c.reservation_abandoned(id, now)
        }
    }

    /// What a report shows of the ledger.
    pub open spec fn report(self) -> ReportView {
        ReportView {
            identity: self.identity,
            limits: self.limits,
            token_mode: self.token_mode,
            charged: self.charged,
            reserved: self.reserved,
            active: self.active,
            cleanup: self.cleanup,
            stop: self.stop,
            usage: self.usage,
            run: match self.run {
                Some(run) => Some(run.report),
                None => None,
            },
            pending: self.pending,
        }
    }

    /// Whether waiters have something to learn.
    pub open spec fn has_news(self) -> bool {
        self.sealed || self.recovery_frozen || self.stop is Some || match self.run {
            Some(run) => run.report.stop is Some || !run.report.open,
            None => true,
        }
    }

    /// Every account agrees with every other.
    pub open spec fn wf(self) -> bool {
        &&& self.identity.is_named()
        &&& self.run is None ==> self.pending.len() == 0
        &&& self.run is Some ==> self.run_agrees(self.run->0)
        &&& self.pending_agrees()
        &&& self.next_id == 0 ==> self.run is None && self.charged == BudgetAmounts::none()
            && self.active == 0
        &&& self.evidence_covered()
        &&& self.stop is None ==> self.within_limits()
        &&& self.recovery_frozen ==> self.stop is Some
    }

    /// A run's share never exceeds the task's account.
    pub open spec fn run_agrees(self, run: RunStateView) -> bool {
        let report = run.report;
        &&& 1 <= run.id <= self.next_id
        &&& report.reserved == self.reserved
        &&& report.limits.within(self.limits)
        &&& report.active <= self.active
        &&& report.cleanup <= self.cleanup
        &&& forall|r: BudgetResource|
            #![trigger report.charged.at(r)]
            report.charged.at(r) <= self.charged.at(r)
        &&& forall|r: BudgetResource|
            r.counts_attempts() ==> #[trigger] total(self.pending, r) <= report.charged.at(r)
        &&& self.stop is None && report.stop is None ==> {
            &&& report.active <= report.limits.active
            &&& forall|r: BudgetResource|
                fits_within(
                    report.charged.at(r),
                    report.reserved.at(r),
                    0,
                    #[trigger] report.limits.resources.at(r),
                )
        }
    }

    /// Held amounts are exactly what the pending reservations hold.
    pub open spec fn pending_agrees(self) -> bool {
        &&& forall|i: int, j: int|
            0 <= i < j < self.pending.len() ==> (#[trigger] self.pending[i]).id < (
            #[trigger] self.pending[j]).id
        &&& forall|i: int|
            0 <= i < self.pending.len() ==> self.reservation_agrees(#[trigger] self.pending[i])
        &&& forall|r: BudgetResource|
            #[trigger] self.reserved.at(r) == if r.counts_attempts() {
                0
            } else {
                total(self.pending, r)
            }
    }

    pub open spec fn reservation_agrees(self, p: BudgetPendingReport) -> bool {
        &&& 1 <= p.id <= self.next_id
        &&& self.run is Some ==> p.id != self.run->0.id
        &&& request_fault(p.request, self.token_mode) is None
        &&& p.failed_usage is Some ==> p.started
    }

    /// Reported usage never exceeds the conservative charge.
    pub open spec fn evidence_covered(self) -> bool {
        forall|r: BudgetResource|
            #![trigger self.usage.at(r)]
            self.usage.at(r).actual + self.usage.at(r).estimated <= self.charged.at(r)
    }

    pub open spec fn within_limits(self) -> bool {
        &&& self.active <= self.limits.active
        &&& forall|r: BudgetResource|
            fits_within(
                self.charged.at(r),
                self.reserved.at(r),
                0,
                #[trigger] self.limits.resources.at(r),
            )
    }
}

} // verus!
