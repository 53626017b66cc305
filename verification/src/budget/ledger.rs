//! The shared ledger of one task, independent of executors and persistence.
//!
//! The host owns [`TaskBudget`] and a single [`BudgetRun`]. Trusted admission code
//! holds [`BudgetScope`] and retains each reservation until it can settle usage.
//! Every step takes the host's clock sample as an argument. A host that shares the
//! ledger guards it with one lock, samples its clock under that lock, and calls
//! `abandon` where a run or a reservation is lost. Settling and cancelling take the
//! reservation with them, whatever they answer.

use crate::budget::audit;
use crate::budget::audit::{
    clone_grants, clone_recoveries, BudgetGrantRecord, BudgetRecoveryRecord,
};
use crate::budget::checkpoint;
use crate::budget::checkpoint::{BudgetCheckpointError, BudgetEventCursor};
use crate::budget::laws;
use crate::budget::model;
use crate::budget::model::{BudgetError, LedgerView, RunStateView, Settlement};
use crate::budget::restore;
use crate::budget::promises::finish_report;
use crate::budget::sealed::{BudgetCheckpoint, BudgetCheckpointVersion, BudgetRestoreContext};
use crate::budget::vocabulary;
use crate::budget::vocabulary::{
    clone_pending, clone_turn, BudgetAmounts, BudgetEventCounts, BudgetEventKind,
    BudgetExecutionMetrics, BudgetIdentity, BudgetLimits, BudgetPendingReport, BudgetReport,
    BudgetRequest, BudgetResource, BudgetRunReport, BudgetStopReason, BudgetUsage,
    BudgetUsageReport, MetricsView, TokenBoundEvidence, TokenBudgetMode, UsageTotals,
    UsageValue,
};
use crate::id::TurnId;
use crate::record::Record;
use crate::time::Duration;
use vstd::prelude::*;

verus! {

pub(crate) struct RunState {
    pub(crate) id: u64,
    pub(crate) report: BudgetRunReport,
    pub(crate) cleaning: bool,
}

impl RunState {
    pub(crate) open spec fn view(&self) -> RunStateView {
        RunStateView { id: self.id, report: self.report@, cleaning: self.cleaning }
    }
}

/// The ledger of a task: charges, holds, runs and their stops.
pub struct TaskBudget {
    pub(crate) identity: BudgetIdentity,
    pub(crate) limits: BudgetLimits,
    pub(crate) token_mode: TokenBudgetMode,
    pub(crate) sealed: bool,
    pub(crate) recovery_frozen: bool,
    pub(crate) checkpoint_revision: u64,
    pub(crate) charged: BudgetAmounts,
    pub(crate) reserved: BudgetAmounts,
    pub(crate) usage: BudgetUsageReport,
    pub(crate) active_time: Duration,
    pub(crate) cleanup_time: Duration,
    pub(crate) stop: Option<BudgetStopReason>,
    pub(crate) run: Option<RunState>,
    pub(crate) pending: Vec<BudgetPendingReport>,
    pub(crate) next_id: u64,
    pub(crate) last_clock: Duration,
    pub(crate) grants: Vec<BudgetGrantRecord>,
    pub(crate) recoveries: Vec<BudgetRecoveryRecord>,
}

/// Host-owned run lease. Abandoning an unfinished lease freezes the task.
#[derive(Debug)]
pub struct BudgetRun {
    id: u64,
    finished: bool,
}

/// Consumption authority for one run.
#[derive(Clone, Copy, Debug)]
pub struct BudgetScope {
    run_id: u64,
}

/// Settlement ownership of one reservation. Abandoning it keeps what is unresolved.
#[derive(Debug)]
pub struct BudgetReservation {
    run_id: u64,
    id: u64,
}

pub(crate) fn overflow() -> (error: BudgetError)
    ensures
        error == BudgetError::Stopped(BudgetStopReason::AccountingOverflow),
{
    BudgetError::Stopped(BudgetStopReason::AccountingOverflow)
}

pub(crate) fn fits(charged: u64, reserved: u64, requested: u64, limit: u64) -> (answer: bool)
    ensures
        answer == model::fits_within(charged, reserved, requested, limit),
{
    match charged.checked_add(reserved) {
        None => false,
        Some(value) => match value.checked_add(requested) {
            None => false,
            Some(value) => value <= limit,
        },
    }
}

fn first(stop: Option<BudgetStopReason>, reason: BudgetStopReason) -> (kept: Option<
    BudgetStopReason,
>)
    ensures
        kept == model::first_stop(stop, reason),
{
    match stop {
        Some(earlier) => Some(earlier),
        None => Some(reason),
    }
}

fn validate_tokens(
    resource: BudgetResource,
    amounts: &BudgetAmounts,
    evidence: TokenBoundEvidence,
    mode: TokenBudgetMode,
) -> (result: Result<(), BudgetError>)
    ensures
        match result {
            Ok(_) => model::token_fault(resource, *amounts, evidence, mode) is None,
            Err(e) => model::token_fault(resource, *amounts, evidence, mode) == Some(e),
        },
{
    let amount: u64 = amounts.get(resource);
    if (amounts.model_requests > 0 || amount > 0) && evidence
        != TokenBoundEvidence::VerifiedUpperBound {
        if mode == TokenBudgetMode::Hard {
            return Err(BudgetError::UnverifiedTokenBound(resource));
        }
        if amount == 0 {
            return Err(BudgetError::ZeroTokenEstimate(resource));
        }
    }
    Ok(())
}

/// Whether a request can be considered at all.
pub fn validate_request(request: &BudgetRequest, mode: TokenBudgetMode) -> (result: Result<
    (),
    BudgetError,
>)
    ensures
        match result {
            Ok(_) => model::request_fault(*request, mode) is None,
            Err(e) => model::request_fault(*request, mode) == Some(e),
        },
{
    let amounts = &request.amounts;
    if amounts.steps == 0 && amounts.model_requests == 0 && amounts.tool_calls == 0
        && amounts.corrections == 0 {
        return Err(BudgetError::EmptyRequest);
    }
    match validate_tokens(BudgetResource::InputTokens, amounts, request.input_tokens, mode) {
        Err(e) => Err(e),
        Ok(_) => validate_tokens(BudgetResource::OutputTokens, amounts, request.output_tokens, mode),
    }
}

fn observe(totals: UsageTotals, value: UsageValue, reserved: u64, applicable: bool) -> (after: Option<
    UsageTotals,
>)
    ensures
        after == model::observed(totals, value, reserved, applicable),
{
    match value {
        UsageValue::Actual(amount) => match totals.actual.checked_add(amount) {
            Some(actual) => Some(
                UsageTotals { actual, estimated: totals.estimated, unknown: totals.unknown },
            ),
            None => None,
        },
        UsageValue::Estimated(amount) => match totals.estimated.checked_add(amount) {
            Some(estimated) => Some(
                UsageTotals { actual: totals.actual, estimated, unknown: totals.unknown },
            ),
            None => None,
        },
        UsageValue::Unknown => if applicable || reserved > 0 {
            match totals.unknown.checked_add(1) {
                Some(unknown) => Some(
                    UsageTotals { actual: totals.actual, estimated: totals.estimated, unknown },
                ),
                None => None,
            }
        } else {
            Some(totals)
        },
    }
}

fn cost(value: UsageValue, reserved: u64) -> (amount: u64)
    ensures
        amount == model::debit(value, reserved),
{
    match value {
        UsageValue::Actual(amount) => amount,
        UsageValue::Estimated(amount) => if amount < reserved {
            reserved
        } else {
            amount
        },
        UsageValue::Unknown => reserved,
    }
}

fn add_variables(amounts: &BudgetAmounts, input: u64, output: u64, bytes: u64) -> (sum: Option<
    BudgetAmounts,
>)
    ensures
        ({
            let more = BudgetAmounts {
                input_tokens: input,
                output_tokens: output,
                tool_output_bytes: bytes,
                ..BudgetAmounts::none()
            };
            sum == if model::variables_fit(*amounts, more) {
                Some(model::with_variables(*amounts, more))
            } else {
                None
            }
        }),
{
    match (
        amounts.input_tokens.checked_add(input),
        amounts.output_tokens.checked_add(output),
        amounts.tool_output_bytes.checked_add(bytes),
    ) {
        (Some(input_tokens), Some(output_tokens), Some(tool_output_bytes)) => Some(
            BudgetAmounts {
                steps: amounts.steps,
                model_requests: amounts.model_requests,
                tool_calls: amounts.tool_calls,
                corrections: amounts.corrections,
                input_tokens,
                output_tokens,
                tool_output_bytes,
            },
        ),
        _ => None,
    }
}

/// The accounts that settling `request` with `used` leaves, unless a sum overflows.
pub fn settlement(
    charged: &BudgetAmounts,
    run_charged: &BudgetAmounts,
    usage: &BudgetUsageReport,
    request: &BudgetAmounts,
    used: &BudgetUsage,
) -> (done: Option<Settlement>)
    ensures
        done == model::settlement_of(*charged, *run_charged, *usage, *request, *used),
{
    let by_model: bool = request.model_requests > 0;
    let by_tool: bool = request.tool_calls > 0;
    let input = observe(usage.input_tokens, used.input_tokens, request.input_tokens, by_model);
    let output = observe(usage.output_tokens, used.output_tokens, request.output_tokens, by_model);
    let bytes = observe(
        usage.tool_output_bytes,
        used.tool_output_bytes,
        request.tool_output_bytes,
        by_tool,
    );
    let input_cost: u64 = cost(used.input_tokens, request.input_tokens);
    let output_cost: u64 = cost(used.output_tokens, request.output_tokens);
    let bytes_cost: u64 = cost(used.tool_output_bytes, request.tool_output_bytes);
    let breach = if input_cost > request.input_tokens {
        Some(BudgetResource::InputTokens)
    } else if output_cost > request.output_tokens {
        Some(BudgetResource::OutputTokens)
    } else if bytes_cost > request.tool_output_bytes {
        Some(BudgetResource::ToolOutputBytes)
    } else {
        None
    };
    match (input, output, bytes) {
        (Some(input_tokens), Some(output_tokens), Some(tool_output_bytes)) => {
            match (
                add_variables(charged, input_cost, output_cost, bytes_cost),
                add_variables(run_charged, input_cost, output_cost, bytes_cost),
            ) {
                (Some(charged), Some(run_charged)) => Some(
                    Settlement {
                        charged,
                        run_charged,
                        usage: BudgetUsageReport { input_tokens, output_tokens, tool_output_bytes },
                        breach,
                    },
                ),
                _ => None,
            }
        },
        _ => None,
    }
}

fn plus_attempts(amounts: &BudgetAmounts, more: &BudgetAmounts) -> (sum: BudgetAmounts)
    requires
        amounts.steps + more.steps <= u64::MAX,
        amounts.model_requests + more.model_requests <= u64::MAX,
        amounts.tool_calls + more.tool_calls <= u64::MAX,
        amounts.corrections + more.corrections <= u64::MAX,
    ensures
        sum == model::with_attempts(*amounts, *more),
{
    BudgetAmounts {
        steps: amounts.steps + more.steps,
        model_requests: amounts.model_requests + more.model_requests,
        tool_calls: amounts.tool_calls + more.tool_calls,
        corrections: amounts.corrections + more.corrections,
        input_tokens: amounts.input_tokens,
        output_tokens: amounts.output_tokens,
        tool_output_bytes: amounts.tool_output_bytes,
    }
}

fn plus_variables(amounts: &BudgetAmounts, more: &BudgetAmounts) -> (sum: BudgetAmounts)
    requires
        model::variables_fit(*amounts, *more),
    ensures
        sum == model::with_variables(*amounts, *more),
{
    BudgetAmounts {
        steps: amounts.steps,
        model_requests: amounts.model_requests,
        tool_calls: amounts.tool_calls,
        corrections: amounts.corrections,
        input_tokens: amounts.input_tokens + more.input_tokens,
        output_tokens: amounts.output_tokens + more.output_tokens,
        tool_output_bytes: amounts.tool_output_bytes + more.tool_output_bytes,
    }
}

fn minus_variables(amounts: &BudgetAmounts, less: &BudgetAmounts) -> (rest: BudgetAmounts)
    requires
        less.input_tokens <= amounts.input_tokens,
        less.output_tokens <= amounts.output_tokens,
        less.tool_output_bytes <= amounts.tool_output_bytes,
    ensures
        rest == model::without_variables(*amounts, *less),
{
    BudgetAmounts {
        steps: amounts.steps,
        model_requests: amounts.model_requests,
        tool_calls: amounts.tool_calls,
        corrections: amounts.corrections,
        input_tokens: amounts.input_tokens - less.input_tokens,
        output_tokens: amounts.output_tokens - less.output_tokens,
        tool_output_bytes: amounts.tool_output_bytes - less.tool_output_bytes,
    }
}

impl TaskBudget {
    pub closed spec fn view(&self) -> LedgerView {
        LedgerView {
            identity: self.identity@,
            limits: self.limits@,
            token_mode: self.token_mode,
            sealed: self.sealed,
            recovery_frozen: self.recovery_frozen,
            revision: self.checkpoint_revision,
            charged: self.charged,
            reserved: self.reserved,
            usage: self.usage,
            active: self.active_time.length(),
            cleanup: self.cleanup_time.length(),
            stop: self.stop,
            run: match self.run {
                Some(run) => Some(run@),
                None => None,
            },
            pending: self.pending@,
            next_id: self.next_id,
            clock: self.last_clock.length(),
            grants: audit::grant_views(self.grants@),
            recoveries: audit::recovery_views(self.recoveries@),
        }
    }

    /// Every account agrees with every other.
    pub open spec fn wf(&self) -> bool {
        self@.wf()
    }

    /// A ledger under the tighter of the host's and the task's own limits. `now` is
    /// the host's clock at this moment.
    pub fn new(
        identity: BudgetIdentity,
        host_limits: BudgetLimits,
        task_limits: BudgetLimits,
        token_mode: TokenBudgetMode,
        now: Duration,
    ) -> (result: Result<TaskBudget, BudgetError>)
        ensures
            match result {
                Ok(budget) => {
                    &&& identity@.is_named()
                    &&& budget.wf()
                    &&& budget@ == LedgerView::fresh(
                        identity@,
                        host_limits@.meet(task_limits@),
                        token_mode,
                        now.length(),
                    )
                },
                Err(e) => !identity@.is_named() && e == BudgetError::InvalidIdentity,
            },
    {
        if !identity.named() {
            return Err(BudgetError::InvalidIdentity);
        }
        proof {
            laws::fresh_agrees(
                identity@,
                host_limits@.meet(task_limits@),
                token_mode,
                now.length(),
            );
        }
        let limits = host_limits.tightened_by(task_limits);
        let budget = TaskBudget {
            identity,
            limits,
            token_mode,
            sealed: false,
            recovery_frozen: false,
            checkpoint_revision: 0,
            charged: BudgetAmounts::zero(),
            reserved: BudgetAmounts::zero(),
            usage: BudgetUsageReport::default(),
            active_time: Duration::zero(),
            cleanup_time: Duration::zero(),
            stop: None,
            run: None,
            pending: Vec::new(),
            next_id: 0,
            last_clock: now,
            grants: Vec::new(),
            recoveries: Vec::new(),
        };
        assert(budget@.grants =~= Seq::empty());
        assert(budget@.recoveries =~= Seq::empty());
        assert(budget@.pending =~= Seq::empty());
        Ok(budget)
    }

    pub fn identity(&self) -> (identity: &BudgetIdentity)
        ensures
            identity@ == self@.identity,
    {
        &self.identity
    }

    /// The ledger now belongs to the stored image `revision`.
    pub(crate) fn claim_revision(&mut self, revision: u64)
        ensures
            final(self)@ == (LedgerView { revision, ..old(self)@ }),
    {
        self.checkpoint_revision = revision;
    }

    pub(crate) fn tick(&mut self, now: Duration)
        ensures
            final(self)@ == old(self)@.ticked(now.length()),
    {
        if self.sealed || self.recovery_frozen {
            return ;
        }
        let elapsed = match now.checked_sub(self.last_clock) {
            Some(elapsed) => elapsed,
            None => {
                self.stop = first(self.stop, BudgetStopReason::ClockMovedBackwards);
                return ;
            },
        };
        self.last_clock = now;
        let has_pending: bool = self.pending.len() > 0;
        let mut run = match self.run.take() {
            Some(run) => run,
            None => {
                return ;
            },
        };
        if !run.report.open && !has_pending {
            self.run = Some(run);
            return ;
        }
        let stopped: bool = self.stop.is_some() || run.report.stop.is_some();
        let task_left = self.limits.active_time.saturating_sub(self.active_time);
        let run_left = run.report.limits.active_time.saturating_sub(run.report.active_time);
        let left = task_left.min(run_left);
        let active = if stopped || run.cleaning {
            Duration::zero()
        } else {
            elapsed.min(left)
        };
        let cleanup = elapsed.saturating_sub(active);
        self.active_time = self.active_time.add_within(active, &self.limits.active_time);
        run.report.active_time =
        run.report.active_time.add_within(active, &run.report.limits.active_time);
        if !stopped && !run.cleaning && !elapsed.shorter_than(&left) {
            if !run_left.shorter_than(&task_left) {
                self.stop = Some(BudgetStopReason::ActiveTime);
            } else {
                run.report.stop = Some(BudgetStopReason::ActiveTime);
            }
        }
        match (
            self.cleanup_time.checked_add(cleanup),
            run.report.cleanup_time.checked_add(cleanup),
        ) {
            (Some(task_time), Some(run_time)) => {
                self.cleanup_time = task_time;
                run.report.cleanup_time = run_time;
            },
            _ => {
                self.stop = first(self.stop, BudgetStopReason::AccountingOverflow);
            },
        }
        self.run = Some(run);
    }

    pub(crate) fn check_writable(&self) -> (result: Result<(), BudgetError>)
        ensures
            match result {
                Ok(_) => self@.writable_fault() is None,
                Err(e) => self@.writable_fault() == Some(e),
            },
    {
        if self.sealed {
            Err(BudgetError::CheckpointSealed)
        } else if self.recovery_frozen {
            Err(BudgetError::Stopped(BudgetStopReason::RecoveryRequired))
        } else {
            Ok(())
        }
    }

    fn check_run(&self, id: u64) -> (result: Result<(), BudgetError>)
        ensures
            match result {
                Ok(_) => self@.run_fault(id) is None && self.run is Some,
                Err(e) => self@.run_fault(id) == Some(e),
            },
    {
        match self.check_writable() {
            Err(e) => Err(e),
            Ok(_) => match &self.run {
                Some(run) => if run.id == id && run.report.open {
                    Ok(())
                } else {
                    Err(BudgetError::RunClosed)
                },
                None => Err(BudgetError::RunClosed),
            },
        }
    }

    fn check_stop(&self) -> (result: Result<(), BudgetError>)
        ensures
            match result {
                Ok(_) => self@.stop_fault() is None,
                Err(e) => self@.stop_fault() == Some(e),
            },
    {
        match self.check_writable() {
            Err(e) => Err(e),
            Ok(_) => match self.stop {
                Some(reason) => Err(BudgetError::Stopped(reason)),
                None => match &self.run {
                    Some(run) => match run.report.stop {
                        Some(reason) => Err(BudgetError::Stopped(reason)),
                        None => Ok(()),
                    },
                    None => Ok(()),
                },
            },
        }
    }

    fn check_admission(&self, id: u64) -> (result: Result<(), BudgetError>)
        ensures
            match result {
                Ok(_) => self@.active_fault(id) is None && self.run is Some,
                Err(e) => self@.active_fault(id) == Some(e),
            },
    {
        match self.check_run(id) {
            Err(e) => Err(e),
            Ok(_) => self.check_stop(),
        }
    }

    fn position(&self, id: u64) -> (place: Option<usize>)
        ensures
            match place {
                Some(i) => self@.at(id) == Some(i as int) && i < self.pending@.len()
                    && self.pending@[i as int].id == id,
                None => self@.at(id) is None,
            },
    {
        let mut i: usize = 0;
        while i < self.pending.len()
            invariant
                i <= self.pending@.len(),
                model::position(self.pending@, id, 0) == model::position(
                    self.pending@,
                    id,
                    i as int,
                ),
            decreases self.pending@.len() - i,
        {
            if self.pending[i].id == id {
                return Some(i);
            }
            i = i + 1;
        }
        None
    }

    pub(crate) fn snapshot(&self) -> (report: BudgetReport)
        ensures
            report@ == self@.report(),
            report.limits == self.limits,
    {
        BudgetReport {
            identity: self.identity.clone(),
            limits: self.limits,
            token_mode: self.token_mode,
            charged: self.charged,
            reserved: self.reserved,
            active_time: self.active_time,
            cleanup_time: self.cleanup_time,
            stop: self.stop,
            usage: self.usage,
            run: match &self.run {
                Some(run) => Some(run.report.clone()),
                None => None,
            },
            pending: clone_pending(&self.pending),
        }
    }

    fn begin_run_inner(
        &mut self,
        turn_id: Option<TurnId>,
        limits: BudgetLimits,
        now: Duration,
        later: Duration,
    ) -> (result: Result<BudgetRun, BudgetError>)
        requires
            old(self).wf(),
        ensures
            final(self).wf(),
            final(self)@ == old(self)@.begun(
                vocabulary::turn_view(turn_id),
                limits@,
                now.length(),
                later.length(),
            ),
            match result {
                Ok(run) => {
                    &&& old(self)@.begin_fault(now.length()) is None
                    &&& run.run_id() == old(self)@.next_id + 1
                    &&& !run.is_finished()
                },
                Err(e) => old(self)@.begin_fault(now.length()) == Some(e),
            },
    {
        proof {
            laws::begin_keeps_agreement(
                self@,
                vocabulary::turn_view(turn_id),
                limits@,
                now.length(),
                later.length(),
            );
            laws::tick_keeps_agreement(self@, now.length());
        }
        match self.check_writable() {
            Err(e) => {
                return Err(e);
            },
            Ok(_) => {},
        }
        self.tick(now);
        if self.run.is_some() {
            return Err(BudgetError::RunActive);
        }
        match self.check_stop() {
            Err(e) => {
                return Err(e);
            },
            Ok(_) => {},
        }
        let id: u64 = match self.allocate_id() {
            Ok(id) => id,
            Err(e) => {
                return Err(e);
            },
        };
        self.run =
        Some(
            RunState {
                id,
                cleaning: false,
                report: BudgetRunReport {
                    turn_id,
                    metrics: BudgetExecutionMetrics::default(),
                    limits: self.limits.tightened_by(limits),
                    charged: BudgetAmounts::zero(),
                    reserved: BudgetAmounts::zero(),
                    active_time: Duration::zero(),
                    cleanup_time: Duration::zero(),
                    open: true,
                    stop: None,
                },
            },
        );
        self.tick(later);
        Ok(BudgetRun { id, finished: false })
    }

    fn allocate_id(&mut self) -> (result: Result<u64, BudgetError>)
        ensures
            match result {
                Ok(id) => old(self)@.next_id < u64::MAX && id == old(self)@.next_id + 1
                    && final(self)@ == (LedgerView { next_id: id, ..old(self)@ })
                    && final(self).run == old(self).run && final(self).limits == old(self).limits
                    && final(self).reserved == old(self).reserved && final(self).charged == old(
                    self,
                ).charged && final(self).pending == old(self).pending,
                Err(e) => {
                    &&& old(self)@.next_id == u64::MAX
                    &&& e == BudgetError::Stopped(BudgetStopReason::AccountingOverflow)
                    &&& final(self)@ == (LedgerView {
                        stop: model::first_stop(
                            old(self)@.stop,
                            BudgetStopReason::AccountingOverflow,
                        ),
                        ..old(self)@
                    })
                },
            },
    {
        match self.next_id.checked_add(1) {
            Some(id) => {
                self.next_id = id;
                Ok(id)
            },
            None => {
                self.stop = first(self.stop, BudgetStopReason::AccountingOverflow);
                Err(overflow())
            },
        }
    }

    /// Begin a run bound to a turn. `now` and `later` are the host's clock before and
    /// after the run is entered.
    pub fn begin_run(
        &mut self,
        turn_id: TurnId,
        limits: BudgetLimits,
        now: Duration,
        later: Duration,
    ) -> (result: Result<BudgetRun, BudgetError>)
        requires
            old(self).wf(),
        ensures
            final(self).wf(),
            final(self)@ == old(self)@.begun(
                Some(turn_id@),
                limits@,
                now.length(),
                later.length(),
            ),
            match result {
                Ok(run) => {
                    &&& old(self)@.begin_fault(now.length()) is None
                    &&& run.run_id() == old(self)@.next_id + 1
                    &&& !run.is_finished()
                },
                Err(e) => old(self)@.begin_fault(now.length()) == Some(e),
            },
    {
        self.begin_run_inner(Some(turn_id), limits, now, later)
    }

    /// Begin timing before session admission has assigned a turn.
    pub fn begin_admission(&mut self, limits: BudgetLimits, now: Duration, later: Duration) -> (result:
        Result<BudgetRun, BudgetError>)
        requires
            old(self).wf(),
        ensures
            final(self).wf(),
            final(self)@ == old(self)@.begun(None, limits@, now.length(), later.length()),
            match result {
                Ok(run) => {
                    &&& old(self)@.begin_fault(now.length()) is None
                    &&& run.run_id() == old(self)@.next_id + 1
                    &&& !run.is_finished()
                },
                Err(e) => old(self)@.begin_fault(now.length()) == Some(e),
            },
    {
        self.begin_run_inner(None, limits, now, later)
    }

    /// What the ledger shows at `now`; a sealed ledger shows nothing.
    pub fn report(&mut self, now: Duration) -> (result: Result<BudgetReport, BudgetError>)
        requires
            old(self).wf(),
        ensures
            final(self).wf(),
            final(self)@ == old(self)@.ticked(now.length()),
            match result {
                Ok(report) => !old(self)@.sealed && report@ == final(self)@.report(),
                Err(e) => old(self)@.sealed && e == BudgetError::CheckpointSealed,
            },
    {
        proof {
            laws::tick_keeps_agreement(self@, now.length());
        }
        if self.sealed {
            return Err(BudgetError::CheckpointSealed);
        }
        self.tick(now);
        Ok(self.snapshot())
    }

    /// Whether waiters should look at the ledger again.
    pub fn has_news(&self) -> (answer: bool)
        ensures
            answer == self@.has_news(),
    {
        self.sealed || self.recovery_frozen || self.stop.is_some() || match &self.run {
            Some(run) => run.report.stop.is_some() || !run.report.open,
            None => true,
        }
    }

    /// The first resource that a request does not fit into.
    fn find_misfit(&self, run: &BudgetRunReport, amounts: &BudgetAmounts) -> (misfit: Option<
        (BudgetResource, bool),
    >)
        requires
            self.run is Some,
            *run == self.run->0.report,
        ensures
            misfit == self@.misfit(*amounts, 0),
    {
        let all = BudgetResource::ALL();
        let mut i: usize = 0;
        while i < 7
            invariant
                i <= 7,
                self.run is Some,
                *run == self.run->0.report,
                forall|j: int| 0 <= j < 7 ==> #[trigger] all@[j] == BudgetResource::nth(j),
                self@.misfit(*amounts, 0) == self@.misfit(*amounts, i as int),
            decreases 7 - i,
        {
            let resource = all[i];
            assert(all@[i as int] == BudgetResource::nth(i as int));
            let amount: u64 = amounts.get(resource);
            if !fits(
                self.charged.get(resource),
                self.reserved.get(resource),
                amount,
                self.limits.resources.get(resource),
            ) {
                return Some((resource, true));
            }
            if !fits(
                run.charged.get(resource),
                run.reserved.get(resource),
                amount,
                run.limits.resources.get(resource),
            ) {
                return Some((resource, false));
            }
            i = i + 1;
        }
        None
    }
}

impl BudgetRun {
    pub closed spec fn run_id(&self) -> u64 {
        self.id
    }

    pub closed spec fn is_finished(&self) -> bool {
        self.finished
    }

    /// Attach the real session turn exactly once, before controlled work.
    pub fn bind_turn(&mut self, budget: &mut TaskBudget, turn_id: TurnId, now: Duration) -> (result:
        Result<(), BudgetError>)
        requires
            old(budget).wf(),
        ensures
            *final(self) == *old(self),
            final(budget).wf(),
            final(budget)@ == old(budget)@.bound(old(self).run_id(), turn_id@, now.length()),
            match result {
                Ok(_) => old(budget)@.bind_fault(old(self).run_id(), now.length()) is None,
                Err(e) => old(budget)@.bind_fault(old(self).run_id(), now.length()) == Some(e),
            },
    {
        proof {
            laws::run_steps_keep_agreement(
                budget@,
                self.id,
                turn_id@,
                BudgetStopReason::ActiveTime,
                MetricsView::none(),
                now.length(),
            );
        }
        budget.tick(now);
        match budget.check_run(self.id) {
            Err(e) => {
                return Err(e);
            },
            Ok(_) => {},
        }
        match &mut budget.run {
            None => Err(BudgetError::RunClosed),
            Some(run) => {
                if run.report.turn_id.is_some() {
                    return Err(BudgetError::IdentityMismatch);
                }
                run.report.turn_id = Some(turn_id);
                Ok(())
            },
        }
    }

    pub fn scope(&self) -> (scope: BudgetScope)
        ensures
            scope.run() == self.run_id(),
    {
        BudgetScope { run_id: self.id }
    }

    /// Close consumption and sample a report while retaining the task lease through
    /// report and terminal persistence. Call `finish` after the persistence barrier.
    pub fn prepare_report(&mut self, budget: &mut TaskBudget, now: Duration) -> (result: Result<
        BudgetReport,
        BudgetError,
    >)
        requires
            old(budget).wf(),
        ensures
            *final(self) == *old(self),
            final(budget).wf(),
            final(budget)@ == old(budget)@.prepared(old(self).run_id(), now.length()),
            match result {
                Ok(report) => old(budget)@.prepare_fault(old(self).run_id(), now.length()) is None
                    && report@ == final(budget)@.report(),
                Err(e) => old(budget)@.prepare_fault(old(self).run_id(), now.length()) == Some(e),
            },
    {
        proof {
            laws::run_steps_keep_agreement(
                budget@,
                self.id,
                Seq::empty(),
                BudgetStopReason::ActiveTime,
                MetricsView::none(),
                now.length(),
            );
        }
        budget.tick(now);
        match budget.check_run(self.id) {
            Err(e) => {
                return Err(e);
            },
            Ok(_) => {},
        }
        if budget.pending.len() > 0 {
            return Err(BudgetError::PendingReservations);
        }
        match &mut budget.run {
            None => {
                return Err(BudgetError::RunClosed);
            },
            Some(run) => {
                run.report.open = false;
            },
        }
        Ok(budget.snapshot())
    }

    /// Retry after settling pending reservations. A stopped run can still finish.
    /// The report shows the closed run, which then leaves the ledger.
    pub fn finish(&mut self, budget: &mut TaskBudget, now: Duration) -> (result: Result<
        BudgetReport,
        BudgetError,
    >)
        requires
            old(budget).wf(),
        ensures
            final(self).run_id() == old(self).run_id(),
            final(self).is_finished() == (old(self).is_finished() || result is Ok),
            final(budget).wf(),
            final(budget)@ == old(budget)@.finished(old(self).run_id(), now.length()),
            match result {
                Ok(report) => {
                    &&& old(budget)@.finish_fault(old(self).run_id(), now.length()) is None
                    &&& report@ == finish_report(old(budget)@, now.length())
                },
                Err(e) => old(budget)@.finish_fault(old(self).run_id(), now.length()) == Some(e),
            },
    {
        proof {
            laws::run_steps_keep_agreement(
                budget@,
                self.id,
                Seq::empty(),
                BudgetStopReason::ActiveTime,
                MetricsView::none(),
                now.length(),
            );
        }
        match budget.check_writable() {
            Err(e) => {
                return Err(e);
            },
            Ok(_) => {},
        }
        budget.tick(now);
        let mine: bool = match &budget.run {
            Some(run) => run.id == self.id,
            None => false,
        };
        if !mine {
            return Err(BudgetError::RunClosed);
        }
        if budget.pending.len() > 0 {
            return Err(BudgetError::PendingReservations);
        }
        match &mut budget.run {
            None => {
                return Err(BudgetError::RunClosed);
            },
            Some(run) => {
                run.report.open = false;
            },
        }
        let report = budget.snapshot();
        budget.run = None;
        self.finished = true;
        Ok(report)
    }

    /// The lease goes out of use. Unless it was finished, the run closes and the task
    /// freezes.
    pub fn abandon(&self, budget: &mut TaskBudget, now: Duration)
        requires
            old(budget).wf(),
        ensures
            final(budget).wf(),
            final(budget)@ == if self.is_finished() {
                old(budget)@
            } else {
                old(budget)@.run_abandoned(self.run_id(), now.length())
            },
    {
        proof {
            laws::run_steps_keep_agreement(
                budget@,
                self.id,
                Seq::empty(),
                BudgetStopReason::ActiveTime,
                MetricsView::none(),
                now.length(),
            );
        }
        if self.finished {
            return ;
        }
        if budget.check_writable().is_err() {
            return ;
        }
        budget.tick(now);
        let mut mine: bool = false;
        match &mut budget.run {
            None => {},
            Some(run) => {
                if run.id == self.id {
                    run.report.open = false;
                    mine = true;
                }
            },
        }
        if mine {
            budget.stop = first(budget.stop, BudgetStopReason::RunAbandoned);
        }
    }
}

impl BudgetScope {
    pub closed spec fn run(&self) -> u64 {
        self.run_id
    }

    /// The turn that the run is bound to, if any.
    pub fn turn_id(&self, budget: &TaskBudget) -> (result: Result<Option<TurnId>, BudgetError>)
        ensures
            match result {
                Ok(turn) => budget@.run_fault(self.run()) is None && vocabulary::turn_view(turn)
                    == budget@.run->0.report.turn,
                Err(e) => budget@.run_fault(self.run()) == Some(e),
            },
    {
        match budget.check_run(self.run_id) {
            Err(e) => Err(e),
            Ok(_) => match &budget.run {
                Some(run) => Ok(clone_turn(&run.report.turn_id)),
                None => Err(BudgetError::RunClosed),
            },
        }
    }

    /// Whether the run may still admit work.
    pub fn check_active(&self, budget: &mut TaskBudget, now: Duration) -> (result: Result<
        (),
        BudgetError,
    >)
        requires
            old(budget).wf(),
        ensures
            final(budget).wf(),
            final(budget)@ == old(budget)@.ticked(now.length()),
            match result {
                Ok(_) => final(budget)@.active_fault(self.run()) is None,
                Err(e) => final(budget)@.active_fault(self.run()) == Some(e),
            },
    {
        proof {
            laws::tick_keeps_agreement(budget@, now.length());
        }
        budget.tick(now);
        budget.check_admission(self.run_id)
    }

    /// Active time that both the task and the run still allow.
    pub fn remaining_time(&self, budget: &mut TaskBudget, now: Duration) -> (result: Result<
        Duration,
        BudgetError,
    >)
        requires
            old(budget).wf(),
        ensures
            final(budget).wf(),
            final(budget)@ == old(budget)@.ticked(now.length()),
            match result {
                Ok(left) => {
                    let t = final(budget)@;
                    let run = t.run->0.report;
                    &&& t.active_fault(self.run()) is None
                    &&& left.length() == vocabulary::min_nat(
                        (t.limits.active - t.active) as nat,
                        (run.limits.active - run.active) as nat,
                    )
                },
                Err(e) => final(budget)@.active_fault(self.run()) == Some(e),
            },
    {
        proof {
            laws::tick_keeps_agreement(budget@, now.length());
        }
        budget.tick(now);
        match budget.check_admission(self.run_id) {
            Err(e) => {
                return Err(e);
            },
            Ok(_) => {},
        }
        match &budget.run {
            None => Err(BudgetError::RunClosed),
            Some(run) => {
                let task_left = budget.limits.active_time.saturating_sub(budget.active_time);
                let run_left = run.report.limits.active_time.saturating_sub(run.report.active_time);
                Ok(task_left.min(run_left))
            },
        }
    }

    /// Executor timer evidence. Does not erase any consumed or pending amounts.
    pub fn expire(&self, budget: &mut TaskBudget, now: Duration) -> (result: Result<
        (),
        BudgetError,
    >)
        requires
            old(budget).wf(),
        ensures
            final(budget).wf(),
            final(budget)@ == old(budget)@.expired(self.run(), now.length()),
            match result {
                Ok(_) => old(budget)@.ticked(now.length()).run_fault(self.run()) is None,
                Err(e) => old(budget)@.ticked(now.length()).run_fault(self.run()) == Some(e),
            },
    {
        proof {
            laws::run_steps_keep_agreement(
                budget@,
                self.run_id,
                Seq::empty(),
                BudgetStopReason::ActiveTime,
                MetricsView::none(),
                now.length(),
            );
            laws::tick_keeps_agreement(budget@, now.length());
        }
        budget.tick(now);
        match budget.check_run(self.run_id) {
            Err(e) => {
                return Err(e);
            },
            Ok(_) => {},
        }
        if budget.check_stop().is_ok() {
            let task_left = budget.limits.active_time.saturating_sub(budget.active_time);
            match &mut budget.run {
                None => {
                    return Err(BudgetError::RunClosed);
                },
                Some(run) => {
                    let run_left = run.report.limits.active_time.saturating_sub(
                        run.report.active_time,
                    );
                    if run_left.shorter_than(&task_left) {
                        run.report.stop = Some(BudgetStopReason::ActiveTime);
                        return Ok(());
                    }
                },
            }
            budget.stop = Some(BudgetStopReason::ActiveTime);
        }
        Ok(())
    }

    /// Stop the run for `reason`, unless it has a reason already.
    pub fn stop_with(&self, budget: &mut TaskBudget, reason: BudgetStopReason, now: Duration) -> (result:
        Result<(), BudgetError>)
        requires
            old(budget).wf(),
        ensures
            final(budget).wf(),
            final(budget)@ == old(budget)@.stopped_with(self.run(), reason, now.length()),
            match result {
                Ok(_) => old(budget)@.ticked(now.length()).run_fault(self.run()) is None,
                Err(e) => old(budget)@.ticked(now.length()).run_fault(self.run()) == Some(e),
            },
    {
        proof {
            laws::run_steps_keep_agreement(
                budget@,
                self.run_id,
                Seq::empty(),
                reason,
                MetricsView::none(),
                now.length(),
            );
        }
        budget.tick(now);
        match budget.check_run(self.run_id) {
            Err(e) => {
                return Err(e);
            },
            Ok(_) => {},
        }
        match &mut budget.run {
            None => Err(BudgetError::RunClosed),
            Some(run) => {
                run.report.stop = first(run.report.stop, reason);
                Ok(())
            },
        }
    }

    /// Enter cleanup after admission has been closed by the owning runtime.
    pub fn begin_cleanup(&self, budget: &mut TaskBudget, now: Duration) -> (result: Result<
        (),
        BudgetError,
    >)
        requires
            old(budget).wf(),
        ensures
            final(budget).wf(),
            final(budget)@ == old(budget)@.cleaning_begun(self.run(), now.length()),
            match result {
                Ok(_) => old(budget)@.ticked(now.length()).run_fault(self.run()) is None,
                Err(e) => old(budget)@.ticked(now.length()).run_fault(self.run()) == Some(e),
            },
    {
        proof {
            laws::run_steps_keep_agreement(
                budget@,
                self.run_id,
                Seq::empty(),
                BudgetStopReason::ActiveTime,
                MetricsView::none(),
                now.length(),
            );
        }
        budget.tick(now);
        match budget.check_run(self.run_id) {
            Err(e) => {
                return Err(e);
            },
            Ok(_) => {},
        }
        match &mut budget.run {
            None => Err(BudgetError::RunClosed),
            Some(run) => {
                run.cleaning = true;
                Ok(())
            },
        }
    }

    /// The metrics of the run while they are kept, to be put back by `put_metrics`.
    fn metrics(&self, budget: &TaskBudget) -> (metrics: Option<BudgetExecutionMetrics>)
        ensures
            match metrics {
                Some(m) => budget@.keeps_metrics(self.run()) && m@ == budget@.run->0.report.metrics,
                None => !budget@.keeps_metrics(self.run()),
            },
    {
        if budget.check_writable().is_err() {
            return None;
        }
        match &budget.run {
            Some(run) => if run.id == self.run_id {
                Some(run.report.metrics)
            } else {
                None
            },
            None => None,
        }
    }

    fn put_metrics(&self, budget: &mut TaskBudget, metrics: BudgetExecutionMetrics)
        requires
            old(budget).wf(),
            old(budget)@.keeps_metrics(self.run()),
        ensures
            final(budget).wf(),
            final(budget)@ == old(budget)@.with_metrics(self.run(), metrics@),
    {
        proof {
            laws::run_steps_keep_agreement(
                budget@,
                self.run_id,
                Seq::empty(),
                BudgetStopReason::ActiveTime,
                metrics@,
                0,
            );
        }
        match &mut budget.run {
            None => {},
            Some(run) => {
                run.report.metrics = metrics;
            },
        }
    }

    pub fn record_session_wait(&self, budget: &mut TaskBudget, elapsed: Duration)
        requires
            old(budget).wf(),
        ensures
            final(budget).wf(),
            final(budget)@ == old(budget)@.with_metrics(
                self.run(),
                MetricsView {
                    session_wait: elapsed.length(),
                    ..old(budget)@.run->0.report.metrics
                },
            ),
    {
        match self.metrics(budget) {
            Some(metrics) => {
                let mut metrics = metrics;
                metrics.session_wait = elapsed;
                self.put_metrics(budget, metrics);
            },
            None => {},
        }
    }

    pub fn record_model_timing(&self, budget: &mut TaskBudget, queue: Duration, execution: Duration)
        requires
            old(budget).wf(),
        ensures
            final(budget).wf(),
            final(budget)@ == old(budget)@.with_metrics(
                self.run(),
                MetricsView {
                    model_queue: saturated(
                        old(budget)@.run->0.report.metrics.model_queue + queue.length(),
                    ),
                    model_execution: saturated(
                        old(budget)@.run->0.report.metrics.model_execution + execution.length(),
                    ),
                    ..old(budget)@.run->0.report.metrics
                },
            ),
    {
        match self.metrics(budget) {
            Some(metrics) => {
                let mut metrics = metrics;
                metrics.model_queue = metrics.model_queue.saturating_add(queue);
                metrics.model_execution = metrics.model_execution.saturating_add(execution);
                self.put_metrics(budget, metrics);
            },
            None => {},
        }
    }

    pub fn record_tool_time(&self, budget: &mut TaskBudget, execution: Duration)
        requires
            old(budget).wf(),
        ensures
            final(budget).wf(),
            final(budget)@ == old(budget)@.with_metrics(
                self.run(),
                MetricsView {
                    tool_execution: saturated(
                        old(budget)@.run->0.report.metrics.tool_execution + execution.length(),
                    ),
                    ..old(budget)@.run->0.report.metrics
                },
            ),
    {
        match self.metrics(budget) {
            Some(metrics) => {
                let mut metrics = metrics;
                metrics.tool_execution = metrics.tool_execution.saturating_add(execution);
                self.put_metrics(budget, metrics);
            },
            None => {},
        }
    }

    pub fn record_evidence(&self, budget: &mut TaskBudget, kind: BudgetEventKind, confirmed: bool)
        requires
            old(budget).wf(),
        ensures
            final(budget).wf(),
            final(budget)@ == old(budget)@.with_metrics(
                self.run(),
                counted(old(budget)@.run->0.report.metrics, kind, confirmed),
            ),
    {
        match self.metrics(budget) {
            Some(metrics) => {
                let mut metrics = metrics;
                if confirmed {
                    metrics.confirmed = count(metrics.confirmed, kind);
                } else {
                    metrics.unconfirmed = count(metrics.unconfirmed, kind);
                }
                self.put_metrics(budget, metrics);
            },
            None => {},
        }
    }

    /// Reserve all dimensions atomically. Admission counts are never refunded.
    /// Token evidence must be established by trusted code before this call.
    pub fn reserve(&self, budget: &mut TaskBudget, request: BudgetRequest, now: Duration) -> (result:
        Result<BudgetReservation, BudgetError>)
        requires
            old(budget).wf(),
        ensures
            final(budget).wf(),
            final(budget)@ == old(budget)@.requested(self.run(), request, now.length()),
            match result {
                Ok(reservation) => {
                    &&& old(budget)@.ticked(now.length()).reserve_fault(self.run(), request) is None
                    &&& reservation.reservation_id() == old(budget)@.next_id + 1
                    &&& reservation.run() == self.run()
                },
                Err(e) => old(budget)@.ticked(now.length()).reserve_fault(self.run(), request)
                    == Some(e),
            },
    {
        proof {
            laws::request_keeps_agreement(budget@, self.run_id, request, now.length());
            laws::tick_keeps_agreement(budget@, now.length());
        }
        budget.tick(now);
        match budget.check_admission(self.run_id) {
            Err(e) => {
                return Err(e);
            },
            Ok(_) => {},
        }
        match validate_request(&request, budget.token_mode) {
            Err(e) => {
                return Err(e);
            },
            Ok(_) => {},
        }
        let ghost t = budget@;
        let misfit = match &budget.run {
            None => {
                return Err(BudgetError::RunClosed);
            },
            Some(run) => budget.find_misfit(&run.report, &request.amounts),
        };
        match misfit {
            Some((resource, of_task)) => {
                let reason = BudgetStopReason::ResourceLimit(resource);
                if of_task {
                    budget.stop = Some(reason);
                } else {
                    match &mut budget.run {
                        None => {},
                        Some(run) => {
                            run.report.stop = Some(reason);
                        },
                    }
                }
                return Err(BudgetError::Stopped(reason));
            },
            None => {},
        }
        let id: u64 = match budget.allocate_id() {
            Ok(id) => id,
            Err(e) => {
                return Err(e);
            },
        };
        proof {
            laws::no_misfit(t, request.amounts, 0);
            assert(BudgetResource::nth(0) == BudgetResource::Steps);
            assert(BudgetResource::nth(1) == BudgetResource::ModelRequests);
            assert(BudgetResource::nth(2) == BudgetResource::ToolCalls);
            assert(BudgetResource::nth(3) == BudgetResource::Corrections);
            assert(BudgetResource::nth(4) == BudgetResource::InputTokens);
            assert(BudgetResource::nth(5) == BudgetResource::OutputTokens);
            assert(BudgetResource::nth(6) == BudgetResource::ToolOutputBytes);
        }
        budget.charged = plus_attempts(&budget.charged, &request.amounts);
        budget.reserved = plus_variables(&budget.reserved, &request.amounts);
        match &mut budget.run {
            None => {},
            Some(run) => {
                run.report.charged = plus_attempts(&run.report.charged, &request.amounts);
                run.report.reserved = plus_variables(&run.report.reserved, &request.amounts);
            },
        }
        budget.pending.push(
            BudgetPendingReport {
                id,
                request,
                started: false,
                abandoned: false,
                failed_usage: None,
            },
        );
        Ok(BudgetReservation { run_id: self.run_id, id })
    }
}

/// A sum of times as a `Duration` holds it.
pub open spec fn saturated(sum: nat) -> nat {
    if sum < model::time_end() {
        sum
    } else {
        (model::time_end() - 1) as nat
    }
}

pub open spec fn up(count: u64) -> u64 {
    if count == u64::MAX {
        count
    } else {
        (count + 1) as u64
    }
}

/// Counts after one more event.
pub open spec fn count_after(counts: BudgetEventCounts, kind: BudgetEventKind) -> BudgetEventCounts {
    match kind {
        BudgetEventKind::ModelRequest => BudgetEventCounts {
            model_requests: up(counts.model_requests),
            ..counts
        },
        BudgetEventKind::ModelResult => BudgetEventCounts {
            model_results: up(counts.model_results),
            ..counts
        },
        BudgetEventKind::ToolCall => BudgetEventCounts {
            tool_calls: up(counts.tool_calls),
            ..counts
        },
        BudgetEventKind::ToolResult => BudgetEventCounts {
            tool_results: up(counts.tool_results),
            ..counts
        },
    }
}

pub open spec fn counted(metrics: MetricsView, kind: BudgetEventKind, confirmed: bool) -> MetricsView {
    if confirmed {
        MetricsView { confirmed: count_after(metrics.confirmed, kind), ..metrics }
    } else {
        MetricsView { unconfirmed: count_after(metrics.unconfirmed, kind), ..metrics }
    }
}

fn count(counts: BudgetEventCounts, kind: BudgetEventKind) -> (after: BudgetEventCounts)
    ensures
        after == count_after(counts, kind),
{
    let mut after = counts;
    match kind {
        BudgetEventKind::ModelRequest => {
            after.model_requests = counts.model_requests.saturating_add(1);
        },
        BudgetEventKind::ModelResult => {
            after.model_results = counts.model_results.saturating_add(1);
        },
        BudgetEventKind::ToolCall => {
            after.tool_calls = counts.tool_calls.saturating_add(1);
        },
        BudgetEventKind::ToolResult => {
            after.tool_results = counts.tool_results.saturating_add(1);
        },
    }
    after
}

impl BudgetReservation {
    pub closed spec fn reservation_id(&self) -> u64 {
        self.id
    }

    pub closed spec fn run(&self) -> u64 {
        self.run_id
    }

    /// Call immediately before entering work that may consume variable resources.
    pub fn mark_started(&mut self, budget: &mut TaskBudget, now: Duration) -> (result: Result<
        (),
        BudgetError,
    >)
        requires
            old(budget).wf(),
        ensures
            *final(self) == *old(self),
            final(budget).wf(),
            final(budget)@ == old(budget)@.started(
                old(self).run(),
                old(self).reservation_id(),
                now.length(),
            ),
            match result {
                Ok(_) => old(budget)@.ticked(now.length()).start_fault(
                    old(self).run(),
                    old(self).reservation_id(),
                ) is None,
                Err(e) => old(budget)@.ticked(now.length()).start_fault(
                    old(self).run(),
                    old(self).reservation_id(),
                ) == Some(e),
            },
    {
        proof {
            laws::reservation_steps_keep_agreement(budget@, self.run_id, self.id, now.length());
        }
        budget.tick(now);
        match budget.check_admission(self.run_id) {
            Err(e) => {
                return Err(e);
            },
            Ok(_) => {},
        }
        let i: usize = match budget.position(self.id) {
            Some(i) => i,
            None => {
                return Err(BudgetError::ReservationMissing);
            },
        };
        let mut pending = budget.pending[i];
        if pending.started {
            return Err(BudgetError::AlreadyStarted);
        }
        pending.started = true;
        budget.pending.set(i, pending);
        Ok(())
    }

    /// Only the trusted admission owner can assert that execution has not begun.
    /// Attempt charges remain even when variable reservations are released. The
    /// reservation is gone either way: refused, it is abandoned.
    pub fn cancel_before_start(self, budget: &mut TaskBudget, now: Duration) -> (result: Result<
        (),
        BudgetError,
    >)
        requires
            old(budget).wf(),
        ensures
            final(budget).wf(),
            final(budget)@ == old(budget)@.cancelled_for_good(self.reservation_id(), now.length()),
            match result {
                Ok(_) => old(budget)@.cancel_fault(self.reservation_id(), now.length()) is None,
                Err(e) => old(budget)@.cancel_fault(self.reservation_id(), now.length()) == Some(e),
            },
    {
        let result = self.give_back(budget, now);
        if result.is_err() {
            self.abandon(budget, now);
        }
        result
    }

    fn give_back(&self, budget: &mut TaskBudget, now: Duration) -> (result: Result<(), BudgetError>)
        requires
            old(budget).wf(),
        ensures
            final(budget).wf(),
            final(budget)@ == old(budget)@.cancelled(self.reservation_id(), now.length()),
            match result {
                Ok(_) => old(budget)@.cancel_fault(self.reservation_id(), now.length()) is None,
                Err(e) => old(budget)@.cancel_fault(self.reservation_id(), now.length()) == Some(e),
            },
    {
        proof {
            laws::reservation_steps_keep_agreement(budget@, self.run_id, self.id, now.length());
            laws::tick_keeps_agreement(budget@, now.length());
        }
        match budget.check_writable() {
            Err(e) => {
                return Err(e);
            },
            Ok(_) => {},
        }
        budget.tick(now);
        let i: usize = match budget.position(self.id) {
            Some(i) => i,
            None => {
                return Err(BudgetError::ReservationMissing);
            },
        };
        if budget.pending[i].started {
            return Err(BudgetError::AlreadyStarted);
        }
        release(budget, i);
        Ok(())
    }

    /// Cleanup remains possible after a budget stop or an abandoned run lease.
    /// Unknown usage keeps the full reservation; actual usage is never clamped. The
    /// reservation is gone either way: one that could not be charged is abandoned, and
    /// keeps what it was to be charged as evidence.
    pub fn settle(self, budget: &mut TaskBudget, usage: BudgetUsage, now: Duration) -> (result: Result<
        (),
        BudgetError,
    >)
        requires
            old(budget).wf(),
        ensures
            final(budget).wf(),
            final(budget)@ == old(budget)@.settled_for_good(
                self.reservation_id(),
                usage,
                now.length(),
            ),
            match result {
                Ok(_) => old(budget)@.settle_fault(self.reservation_id(), usage, now.length()) is None,
                Err(e) => old(budget)@.settle_fault(self.reservation_id(), usage, now.length())
                    == Some(e),
            },
    {
        let before: usize = budget.pending.len();
        let result = self.charge(budget, usage, now);
        if budget.pending.len() >= before {
            self.abandon(budget, now);
        }
        result
    }

    fn charge(&self, budget: &mut TaskBudget, usage: BudgetUsage, now: Duration) -> (result: Result<
        (),
        BudgetError,
    >)
        requires
            old(budget).wf(),
        ensures
            final(budget).wf(),
            final(budget)@ == old(budget)@.settled(self.reservation_id(), usage, now.length()),
            match result {
                Ok(_) => old(budget)@.settle_fault(self.reservation_id(), usage, now.length()) is None,
                Err(e) => old(budget)@.settle_fault(self.reservation_id(), usage, now.length())
                    == Some(e),
            },
    {
        proof {
            laws::settle_keeps_agreement(budget@, self.id, usage, now.length());
            laws::tick_keeps_agreement(budget@, now.length());
        }
        match budget.check_writable() {
            Err(e) => {
                return Err(e);
            },
            Ok(_) => {},
        }
        budget.tick(now);
        let i: usize = match budget.position(self.id) {
            Some(i) => i,
            None => {
                return Err(BudgetError::ReservationMissing);
            },
        };
        let mut pending = budget.pending[i];
        if !pending.started {
            return Err(BudgetError::NotStarted);
        }
        let done = match &budget.run {
            None => {
                return Err(BudgetError::RunClosed);
            },
            Some(run) => settlement(
                &budget.charged,
                &run.report.charged,
                &budget.usage,
                &pending.request.amounts,
                &usage,
            ),
        };
        match done {
            Some(done) => {
                release(budget, i);
                budget.charged = done.charged;
                match &mut budget.run {
                    None => {},
                    Some(run) => {
                        run.report.charged = done.run_charged;
                    },
                }
                budget.usage = done.usage;
                match done.breach {
                    Some(resource) => {
                        let reason = BudgetStopReason::UsageExceededReservation(resource);
                        budget.stop = first(budget.stop, reason);
                        Err(BudgetError::Stopped(reason))
                    },
                    None => Ok(()),
                }
            },
            None => {
                budget.stop = first(budget.stop, BudgetStopReason::AccountingOverflow);
                pending.failed_usage = Some(usage);
                budget.pending.set(i, pending);
                Err(overflow())
            },
        }
    }

    /// The reservation goes out of use unresolved: what it holds stays held and the task
    /// freezes.
    pub fn abandon(self, budget: &mut TaskBudget, now: Duration)
        requires
            old(budget).wf(),
        ensures
            final(budget).wf(),
            final(budget)@ == old(budget)@.reservation_abandoned(
                self.reservation_id(),
                now.length(),
            ),
    {
        proof {
            laws::reservation_steps_keep_agreement(budget@, self.run_id, self.id, now.length());
        }
        if budget.check_writable().is_err() {
            return ;
        }
        budget.tick(now);
        match budget.position(self.id) {
            Some(i) => {
                let mut pending = budget.pending[i];
                pending.abandoned = true;
                budget.pending.set(i, pending);
                budget.stop = first(budget.stop, BudgetStopReason::AbandonedReservation);
            },
            None => {},
        }
    }
}

/// Gives back what the `i`th reservation holds.
fn release(budget: &mut TaskBudget, i: usize)
    requires
        old(budget).wf(),
        i < old(budget).pending@.len(),
    ensures
        final(budget)@ == old(budget)@.released(i as int),
        final(budget).run is Some,
        final(budget)@.run is Some,
{
    proof {
        laws::held_covers(budget@, i as int, BudgetResource::InputTokens);
        laws::held_covers(budget@, i as int, BudgetResource::OutputTokens);
        laws::held_covers(budget@, i as int, BudgetResource::ToolOutputBytes);
    }
    let amounts = budget.pending[i].request.amounts;
    budget.reserved = minus_variables(&budget.reserved, &amounts);
    match &mut budget.run {
        None => {},
        Some(run) => {
            run.report.reserved = minus_variables(&run.report.reserved, &amounts);
        },
    }
    budget.pending.remove(i);
}

impl TaskBudget {
    /// Irreversibly seal this ledger and hand out its image. Drain work first for a
    /// resumable image. This does not cancel work, persist bytes, commit an event, or
    /// establish a crash-safe checkpoint.
    pub fn seal_checkpoint(&mut self, anchor: Option<BudgetEventCursor>, now: Duration) -> (result:
        Result<BudgetCheckpoint, BudgetCheckpointError>)
        ensures
            old(self).wf() ==> final(self).wf(),
            final(self)@ == old(self)@.after_seal(
                checkpoint::anchor_view(anchor),
                now.length(),
            ),
            match result {
                Ok(image) => {
                    &&& old(self)@.seal_fault(checkpoint::anchor_view(anchor), now.length()) is None
                    &&& image@ == old(self)@.ticked(now.length()).image(
                        checkpoint::anchor_view(anchor),
                    )
                },
                Err(e) => old(self)@.seal_fault(checkpoint::anchor_view(anchor), now.length())
                    == Some(e),
            },
    {
        proof {
            if self.wf() {
                laws::tick_keeps_agreement(self@, now.length());
            }
        }
        if self.sealed {
            return Err(BudgetCheckpointError::Budget(BudgetError::CheckpointSealed));
        }
        self.tick(now);
        let revision: u64 = match self.checkpoint_revision.checked_add(1) {
            Some(revision) => revision,
            None => {
                return Err(BudgetCheckpointError::RevisionExhausted);
            },
        };
        let version = if self.recoveries.len() > 0 {
            BudgetCheckpointVersion::V4
        } else if self.grants.len() > 0 {
            BudgetCheckpointVersion::V3
        } else {
            BudgetCheckpointVersion::V1
        };
        let image = BudgetCheckpoint {
            version,
            revision,
            next_id: self.next_id,
            anchor,
            report: self.snapshot(),
            run_id: match &self.run {
                Some(run) => Some(run.id),
                None => None,
            },
            recovery_frozen: self.recovery_frozen,
            execution_id: None,
            grants: clone_grants(&self.grants),
            recoveries: clone_recoveries(&self.recoveries),
        };
        assert(image@ == self@.image(checkpoint::anchor_view(anchor)));
        match image.validate() {
            Err(e) => {
                return Err(e);
            },
            Ok(_) => {},
        }
        self.sealed = true;
        Ok(image)
    }
}

impl TaskBudget {
    /// Restore only after the host has established exclusive ownership of the latest
    /// committed image and reconciled the event log. This does not prevent another
    /// process from restoring the same bytes.
    pub fn restore_checkpoint(
        checkpoint: BudgetCheckpoint,
        context: BudgetRestoreContext,
        now: Duration,
    ) -> (result: Result<TaskBudget, BudgetCheckpointError>)
        ensures
            match result {
                Ok(budget) => {
                    &&& checkpoint@.restore_fault(
                        context.identity@,
                        context.revision,
                        checkpoint::anchor_view(context.confirmed_anchor),
                    ) is None
                    &&& budget.wf()
                    &&& budget@ == checkpoint@.restored(context.host_limits@, now.length())
                },
                Err(e) => checkpoint@.restore_fault(
                    context.identity@,
                    context.revision,
                    checkpoint::anchor_view(context.confirmed_anchor),
                ) == Some(e),
            },
    {
        match checkpoint.validate() {
            Err(e) => {
                return Err(e);
            },
            Ok(_) => {},
        }
        if !checkpoint.report.identity.is_same(&context.identity) {
            return Err(BudgetCheckpointError::IdentityMismatch);
        }
        if checkpoint.revision != context.revision {
            return Err(
                BudgetCheckpointError::RevisionMismatch {
                    expected: context.revision,
                    actual: checkpoint.revision,
                },
            );
        }
        if !checkpoint::same_anchor(&checkpoint.anchor, &context.confirmed_anchor) {
            return Err(BudgetCheckpointError::AnchorMismatch);
        }
        proof {
            restore::restoring_gives_agreement(checkpoint@, context.host_limits@, now.length());
        }
        let report = checkpoint.report;
        let limits = report.limits.tightened_by(context.host_limits);
        let frozen: bool = checkpoint.recovery_frozen || report.run.is_some() || report.pending.len()
            > 0;
        let stop = if frozen {
            first(report.stop, BudgetStopReason::RecoveryRequired)
        } else if !report.active_time.shorter_than(&limits.active_time) {
            first(report.stop, BudgetStopReason::ActiveTime)
        } else {
            report.stop
        };
        let stop = restore::find_limit_stop(
            &report.charged,
            &report.reserved,
            &limits.resources,
            stop,
        );
        let run = match (&report.run, checkpoint.run_id) {
            (Some(run), Some(id)) => {
                let mut closed = run.clone();
                closed.open = false;
                closed.limits = closed.limits.tightened_by(limits);
                Some(RunState { id, report: closed, cleaning: true })
            },
            _ => None,
        };
        let pending = restore::sort_pending(&report.pending);
        Ok(
            TaskBudget {
                identity: report.identity,
                limits,
                token_mode: report.token_mode,
                sealed: false,
                recovery_frozen: frozen,
                checkpoint_revision: checkpoint.revision,
                charged: report.charged,
                reserved: report.reserved,
                usage: report.usage,
                active_time: report.active_time,
                cleanup_time: report.cleanup_time,
                stop,
                run,
                pending,
                next_id: checkpoint.next_id,
                last_clock: now,
                grants: checkpoint.grants,
                recoveries: checkpoint.recoveries,
            },
        )
    }
}

} // verus!
