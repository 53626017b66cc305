//! Which tool calls are let in, and what is owed until they are closed.

use crate::budget::ledger::{BudgetReservation, BudgetScope, TaskBudget};
use crate::budget::model::{time_end, BudgetError, LedgerView};
use crate::budget::vocabulary::{BudgetAmounts, BudgetRequest, BudgetStopReason, TokenBoundEvidence};
use crate::budget::wording;
use crate::id::TaskId;
use crate::json::{decimal, decimal_text, Json};
use crate::lifecycle::{
    acknowledge, count_failure, counted_up, counts_one_more, unheard, unheard_count, LifecycleState, Unacknowledged,
};
use crate::record::Record;
use crate::text::{byte_len, size};
use crate::time::Duration;
use crate::tool::failure::{
    aggregates, is_closure_error, ToolFinishMode, ToolPreflightError, ToolRuntimeError, ToolTurnFailure,
};
use crate::tool::vocabulary::{ToolCallOptions, ToolMetadata, MAX_TOOL_ARGUMENT_BYTES, MAX_TOOL_NAME_BYTES};
use vstd::prelude::*;

verus! {

/// Failures kept for a turn; further ones are counted.
pub const MAX_LIFECYCLE_FAILURES: usize = 32;

/// The shortest of three limits, of which two may be absent.
pub open spec fn tightest_time(runtime: Duration, tool: Option<Duration>, requested: Option<Duration>) -> nat {
    let first = match tool {
        Some(t) => if t.length() < runtime.length() {
            t.length()
        } else {
            runtime.length()
        },
        None => runtime.length(),
    };
    match requested {
        Some(r) => if r.length() < first {
            r.length()
        } else {
            first
        },
        None => first,
    }
}

/// The timeout of a call: the runtime's, the tool's or the caller's, whichever is
/// shortest.
pub fn effective_timeout(runtime: Duration, tool: Option<&ToolMetadata>, requested: Option<Duration>) -> (timeout: Duration)
    ensures
        timeout.length() == tightest_time(
            runtime,
            match tool {
                Some(metadata) => metadata.timeout_ceiling,
                None => None,
            },
            requested,
        ),
{
    let mut timeout = runtime;
    match tool {
        Some(metadata) => match metadata.timeout_ceiling {
            Some(ceiling) => {
                timeout = timeout.min(ceiling);
            },
            None => {},
        },
        None => {},
    }
    match requested {
        Some(requested) => timeout.min(requested),
        None => timeout,
    }
}

pub open spec fn tightest_size(runtime: usize, tool: Option<usize>, requested: Option<usize>) -> usize {
    let first = match tool {
        Some(t) => if t < runtime {
            t
        } else {
            runtime
        },
        None => runtime,
    };
    match requested {
        Some(r) => if r < first {
            r
        } else {
            first
        },
        None => first,
    }
}

/// The output limit of a call: the runtime's, the tool's or the caller's, whichever is
/// smallest.
pub fn effective_output_limit(runtime: usize, tool: Option<&ToolMetadata>, requested: Option<usize>) -> (limit: usize)
    ensures
        limit == tightest_size(
            runtime,
            match tool {
                Some(metadata) => metadata.output_ceiling_bytes,
                None => None,
            },
            requested,
        ),
{
    let mut limit: usize = runtime;
    match tool {
        Some(metadata) => match metadata.output_ceiling_bytes {
            Some(ceiling) => {
                if ceiling < limit {
                    limit = ceiling;
                }
            },
            None => {},
        },
        None => {},
    }
    match requested {
        Some(requested) => {
            if requested < limit {
                limit = requested;
            }
        },
        None => {},
    }
    limit
}

/// Why a call is turned down before anything else is looked at, if it is.
pub open spec fn preflight_fault(name: Seq<char>, arguments: Seq<char>) -> Option<ToolPreflightError> {
    if name.len() == 0 {
        Some(ToolPreflightError::EmptyName)
    } else if byte_len(name) > MAX_TOOL_NAME_BYTES {
        Some(
            ToolPreflightError::NameTooLong {
                actual: byte_len(name) as usize,
                max: MAX_TOOL_NAME_BYTES,
            },
        )
    } else if byte_len(arguments) > MAX_TOOL_ARGUMENT_BYTES {
        Some(
            ToolPreflightError::ArgumentsTooLarge {
                actual: byte_len(arguments) as usize,
                max: MAX_TOOL_ARGUMENT_BYTES,
            },
        )
    } else {
        None
    }
}

/// The call is made for another task than the one whose budget it is charged to.
pub open spec fn is_foreign(b: LedgerView, explicit_budget: bool, action_task: Option<&TaskId>) -> bool {
    explicit_budget && action_task is Some && action_task->0@ != b.identity.task
}

/// Active time that task and run still allow.
pub open spec fn time_left(t: LedgerView) -> nat {
    let run = t.run->0.report;
    crate::budget::vocabulary::min_nat(
        (t.limits.active - t.active) as nat,
        (run.limits.active - run.active) as nat,
    )
}

/// Why a call is turned down before room is looked for, if it is.
pub open spec fn check_fault(
    b: LedgerView,
    name: Seq<char>,
    arguments: Seq<char>,
    cancelled: bool,
    foreign: bool,
    run: u64,
    now: nat,
) -> Option<ToolRuntimeError> {
    if let Some(fault) = preflight_fault(name, arguments) {
        Some(ToolRuntimeError::Preflight(fault))
    } else if cancelled {
        Some(ToolRuntimeError::TurnClosed)
    } else if foreign {
        Some(ToolRuntimeError::Budget(BudgetError::IdentityMismatch))
    } else if let Some(e) = b.ticked(now).active_fault(run) {
        Some(ToolRuntimeError::Budget(e))
    } else {
        None
    }
}

/// The ledger after that check.
pub open spec fn checked_ledger(
    b: LedgerView,
    name: Seq<char>,
    arguments: Seq<char>,
    cancelled: bool,
    foreign: bool,
    run: u64,
    now: nat,
) -> LedgerView {
    if preflight_fault(name, arguments) is Some || cancelled {
        b
    } else if foreign {
        b.stopped_with(run, BudgetStopReason::IdentityMismatch, now)
    } else {
        b.ticked(now)
    }
}

/// Checks a call before it is let in: name, size, the turn, whose task it is, and the
/// time that its budget still has. The answer is that time.
pub fn check_call(
    name: &str,
    arguments: &Json,
    cancelled: bool,
    explicit_budget: bool,
    action_task: Option<&TaskId>,
    scope: &BudgetScope,
    budget: &mut TaskBudget,
    now: Duration,
) -> (result: Result<Duration, ToolRuntimeError>)
    requires
        old(budget).wf(),
    ensures
        final(budget).wf(),
        final(budget)@ == checked_ledger(
            old(budget)@,
            name@,
            arguments@,
            cancelled,
            is_foreign(old(budget)@, explicit_budget, action_task),
            scope.run(),
            now.length(),
        ),
        match (
            result,
            check_fault(
                old(budget)@,
                name@,
                arguments@,
                cancelled,
                is_foreign(old(budget)@, explicit_budget, action_task),
                scope.run(),
                now.length(),
            ),
        ) {
            (Ok(left), None) => left.length() == time_left(old(budget)@.ticked(now.length())),
            (Err(e), Some(fault)) => e == fault,
            _ => false,
        },
{
    if name.unicode_len() == 0 {
        return Err(ToolRuntimeError::Preflight(ToolPreflightError::EmptyName));
    }
    if size(name) > MAX_TOOL_NAME_BYTES {
        return Err(
            ToolRuntimeError::Preflight(
                ToolPreflightError::NameTooLong { actual: size(name), max: MAX_TOOL_NAME_BYTES },
            ),
        );
    }
    let argument_bytes: usize = size(arguments.as_str());
    if argument_bytes > MAX_TOOL_ARGUMENT_BYTES {
        return Err(
            ToolRuntimeError::Preflight(
                ToolPreflightError::ArgumentsTooLarge {
                    actual: argument_bytes,
                    max: MAX_TOOL_ARGUMENT_BYTES,
                },
            ),
        );
    }
    if cancelled {
        return Err(ToolRuntimeError::TurnClosed);
    }
    if explicit_budget {
        match action_task {
            Some(task) => {
                if !task.is_same(&budget.identity().task_id) {
                    let _ = scope.stop_with(budget, BudgetStopReason::IdentityMismatch, now);
                    return Err(ToolRuntimeError::Budget(BudgetError::IdentityMismatch));
                }
            },
            None => {},
        }
    }
    match scope.remaining_time(budget, now) {
        Ok(left) => Ok(left),
        Err(e) => Err(ToolRuntimeError::Budget(e)),
    }
}

/// The calls of one turn and what could not be closed of them.
#[derive(Debug, PartialEq, Eq)]
pub struct TurnControl {
    pub open: bool,
    pub jobs: Vec<u64>,
    pub failures: Vec<ToolRuntimeError>,
    pub omitted: usize,
}

impl TurnControl {
    pub open spec fn wf(&self) -> bool {
        &&& self.failures@.len() <= MAX_LIFECYCLE_FAILURES
        &&& self.omitted > 0 ==> self.failures@.len() == MAX_LIFECYCLE_FAILURES
        &&& forall|i: int| 0 <= i < self.failures@.len() ==> is_closure_error(#[trigger] self.failures@[i])
    }

    pub fn new() -> (control: Self)
        ensures
            control.wf(),
            control.open,
            control.jobs@.len() == 0,
            control.failures@.len() == 0,
            control.omitted == 0,
    {
        TurnControl { open: true, jobs: Vec::new(), failures: Vec::new(), omitted: 0 }
    }

    /// The failure is kept, or counted where there is no room.
    pub open spec fn keeps(before: TurnControl, after: TurnControl, failure: ToolRuntimeError) -> bool {
        if before.failures@.len() < MAX_LIFECYCLE_FAILURES {
            after.failures@ == before.failures@.push(failure) && after.omitted == before.omitted
        } else {
            after.failures@ == before.failures@ && after.omitted == counted_up(
                before.omitted as int,
            )
        }
    }

    pub fn record(&mut self, failure: ToolRuntimeError)
        requires
            old(self).wf(),
            is_closure_error(failure),
        ensures
            final(self).wf(),
            final(self).open == old(self).open,
            final(self).jobs@ == old(self).jobs@,
            Self::keeps(*old(self), *final(self), failure),
    {
        if self.failures.len() < MAX_LIFECYCLE_FAILURES {
            self.failures.push(failure);
        } else {
            self.omitted = self.omitted.saturating_add(1);
        }
    }

    /// Lets no further call in. The answer is the calls to be cancelled.
    pub fn begin_finish(&mut self, mode: ToolFinishMode) -> (cancelled: Vec<u64>)
        requires
            old(self).wf(),
        ensures
            final(self).wf(),
            *final(self) == (TurnControl { open: false, ..*old(self) }),
            cancelled@ == if mode == ToolFinishMode::Cancel {
                old(self).jobs@
            } else {
                Seq::<u64>::empty()
            },
    {
        self.open = false;
        let mut cancelled: Vec<u64> = Vec::new();
        if mode == ToolFinishMode::Cancel {
            let mut i: usize = 0;
            while i < self.jobs.len()
                invariant
                    i <= self.jobs@.len(),
                    cancelled@ == self.jobs@.take(i as int),
                decreases self.jobs@.len() - i,
            {
                cancelled.push(self.jobs[i]);
                assert(cancelled@ =~= self.jobs@.take(i + 1));
                i = i + 1;
            }
            assert(self.jobs@.take(self.jobs@.len() as int) =~= self.jobs@);
        }
        cancelled
    }

    /// Ends a turn whose calls are drained. `own_run` is what finishing a budget of the
    /// turn's own came to, where it has one.
    pub fn finish(&mut self, own_run: Option<BudgetError>) -> (result: Result<(), ToolTurnFailure>)
        requires
            old(self).wf(),
        ensures
            final(self).wf(),
            final(self).failures@.len() == 0,
            final(self).omitted == 0,
            final(self).open == old(self).open,
            final(self).jobs@ == old(self).jobs@,
            match own_run {
                None => ends_with(old(self).failures@, old(self).omitted, result),
                Some(e) => exists|last: TurnControl| #[trigger]
                    finish_noted(*old(self), last, e) && ends_with(
                        last.failures@,
                        last.omitted,
                        result,
                    ),
            },
    {
        match own_run {
            Some(e) => {
                let failure = ToolRuntimeError::Internal {
                    code: "tool_budget_finish_failed".to_owned(),
                    message: e.text(),
                };
                assert(is_finish_failure(failure, e));
                self.record(failure);
                assert(finish_noted(*old(self), *self, e));
            },
            None => {},
        }
        let mut failures: Vec<ToolRuntimeError> = Vec::new();
        std::mem::swap(&mut failures, &mut self.failures);
        let omitted: usize = self.omitted;
        self.omitted = 0;
        match ToolTurnFailure::from_bounded_failures(failures, omitted) {
            Ok(Some(failure)) => Err(failure),
            _ => Ok(()),
        }
    }

    fn forget(&mut self, id: u64)
        ensures
            *final(self) == (TurnControl { jobs: final(self).jobs, ..*old(self) }),
            final(self).jobs@ == old(self).jobs@.filter(|j: u64| j != id),
    {
        let jobs = without(&self.jobs, id);
        self.jobs = jobs;
    }
}

pub open spec fn is_finish_failure(failure: ToolRuntimeError, error: BudgetError) -> bool {
    failure matches ToolRuntimeError::Internal { code, message } && code@
        == "tool_budget_finish_failed"@ && message@ == wording::error_text_of(error)
}

/// The failure to finish the budget is kept beside the others.
pub open spec fn finish_noted(before: TurnControl, after: TurnControl, error: BudgetError) -> bool {
    exists|failure: ToolRuntimeError| #[trigger]
        is_finish_failure(failure, error) && TurnControl::keeps(before, after, failure)
}

/// What a turn ends with: the failures that could not be closed, if any.
pub open spec fn ends_with(failures: Seq<ToolRuntimeError>, omitted: usize, result: Result<(), ToolTurnFailure>) -> bool {
    match result {
        Ok(_) => failures.len() == 0,
        Err(failure) => failures.len() > 0 && aggregates(failures, omitted, Ok(Some(failure))),
    }
}

fn without(ids: &Vec<u64>, id: u64) -> (rest: Vec<u64>)
    ensures
        rest@ == ids@.filter(|j: u64| j != id),
{
    let ghost before = ids@;
    let ghost keeps = |j: u64| j != id;
    let mut rest: Vec<u64> = Vec::new();
    let mut i: usize = 0;
    proof {
        reveal(Seq::filter);
        assert(before.take(0) =~= Seq::empty());
    }
    while i < ids.len()
        invariant
            i <= ids@.len(),
            ids@ == before,
            keeps == (|j: u64| j != id),
            rest@ == before.take(i as int).filter(keeps),
        decreases ids@.len() - i,
    {
        proof {
            reveal(Seq::filter);
            assert(before.take(i + 1).drop_last() =~= before.take(i as int));
        }
        if ids[i] != id {
            rest.push(ids[i]);
        }
        i = i + 1;
    }
    assert(before.take(before.len() as int) =~= before);
    rest
}

/// The shared state behind the runtime's lock.
#[derive(Debug, PartialEq, Eq)]
pub struct RuntimeControl {
    pub lifecycle: LifecycleState,
    pub max_in_flight: usize,
    pub next_turn_id: u64,
    pub next_job_id: u64,
    pub jobs: Vec<u64>,
    pub unacknowledged: Vec<Unacknowledged>,
}

impl RuntimeControl {
    /// Never more calls than allowed, each with a number of its own.
    pub open spec fn wf(&self) -> bool {
        &&& self.jobs@.len() <= self.max_in_flight
        &&& forall|i: int| 0 <= i < self.jobs@.len() ==> #[trigger] self.jobs@[i] < self.next_job_id
        &&& self.jobs@.no_duplicates()
    }

    pub fn new(max_in_flight: usize) -> (control: Self)
        ensures
            control.wf(),
            control.lifecycle == LifecycleState::Constructed,
            control.max_in_flight == max_in_flight,
            control.next_turn_id == 0,
            control.next_job_id == 0,
            control.jobs@.len() == 0,
            control.unacknowledged@.len() == 0,
    {
        RuntimeControl {
            lifecycle: LifecycleState::Constructed,
            max_in_flight,
            next_turn_id: 0,
            next_job_id: 0,
            jobs: Vec::new(),
            unacknowledged: Vec::new(),
        }
    }

    pub fn start(&mut self) -> (result: Result<(), &'static str>)
        requires
            old(self).wf(),
        ensures
            final(self).wf(),
            if old(self).lifecycle == LifecycleState::Constructed {
                result is Ok && *final(self) == (RuntimeControl {
                    lifecycle: LifecycleState::Running,
                    ..*old(self)
                })
            } else {
                result == Err::<(), &'static str>("ToolRuntime lifecycle start was repeated")
                    && *final(self) == *old(self)
            },
    {
        if self.lifecycle != LifecycleState::Constructed {
            return Err("ToolRuntime lifecycle start was repeated");
        }
        self.lifecycle = LifecycleState::Running;
        Ok(())
    }

    /// The number of a turn that is bound.
    pub fn bind_turn(&mut self) -> (result: Result<u64, ToolRuntimeError>)
        requires
            old(self).wf(),
        ensures
            final(self).wf(),
            if old(self).lifecycle != LifecycleState::Running {
                result == Err::<u64, ToolRuntimeError>(ToolRuntimeError::Stopped) && *final(self)
                    == *old(self)
            } else if old(self).next_turn_id == u64::MAX {
                &&& result matches Err(ToolRuntimeError::Internal { code, message })
                &&& code@ == "tool_turn_id_exhausted"@
                &&& message@ == "Tool turn ID space is exhausted"@
                &&& *final(self) == *old(self)
            } else {
                &&& result == Ok::<u64, ToolRuntimeError>(old(self).next_turn_id)
                &&& *final(self) == (RuntimeControl {
                    next_turn_id: (old(self).next_turn_id + 1) as u64,
                    ..*old(self)
                })
            },
    {
        if self.lifecycle != LifecycleState::Running {
            return Err(ToolRuntimeError::Stopped);
        }
        let id: u64 = self.next_turn_id;
        if id == u64::MAX {
            return Err(
                ToolRuntimeError::Internal {
                    code: "tool_turn_id_exhausted".to_owned(),
                    message: "Tool turn ID space is exhausted".to_owned(),
                },
            );
        }
        self.next_turn_id = id + 1;
        Ok(id)
    }

    /// What one call reserves.
    pub open spec fn reserves(output_limit: usize) -> BudgetRequest {
        BudgetRequest {
            amounts: BudgetAmounts {
                steps: 0,
                model_requests: 0,
                tool_calls: 1,
                corrections: 0,
                input_tokens: 0,
                output_tokens: 0,
                tool_output_bytes: output_limit as u64,
            },
            input_tokens: TokenBoundEvidence::Estimate,
            output_tokens: TokenBoundEvidence::Estimate,
        }
    }

    /// Why a call is not let in, before its budget is asked, if it is not.
    pub open spec fn entry_fault(&self, turn_open: bool) -> Option<ToolRuntimeError> {
        if self.lifecycle != LifecycleState::Running {
            Some(ToolRuntimeError::Stopped)
        } else if self.jobs@.len() >= self.max_in_flight {
            Some(ToolRuntimeError::Overloaded)
        } else if !turn_open {
            Some(ToolRuntimeError::Stopped)
        } else if self.next_job_id == u64::MAX {
            Some(ToolRuntimeError::Overloaded)
        } else {
            None
        }
    }

    /// Lets a call in. Room and budget are taken together: a call that is turned down
    /// takes nothing from the budget.
    pub fn accept(
        &mut self,
        turn: &mut TurnControl,
        scope: &BudgetScope,
        budget: &mut TaskBudget,
        output_limit: usize,
        now: Duration,
    ) -> (result: Result<(u64, BudgetReservation), ToolRuntimeError>)
        requires
            old(self).wf(),
            old(turn).wf(),
            old(budget).wf(),
        ensures
            final(self).wf(),
            final(turn).wf(),
            final(budget).wf(),
            match old(self).entry_fault(old(turn).open) {
                Some(fault) => {
                    &&& result == Err::<(u64, BudgetReservation), ToolRuntimeError>(fault)
                    &&& final(budget)@ == old(budget)@
                },
                None => {
                    &&& final(budget)@ == old(budget)@.requested(
                        scope.run(),
                        Self::reserves(output_limit),
                        now.length(),
                    )
                    &&& match old(budget)@.ticked(now.length()).reserve_fault(
                        scope.run(),
                        Self::reserves(output_limit),
                    ) {
                        Some(e) => result == Err::<(u64, BudgetReservation), ToolRuntimeError>(
                            ToolRuntimeError::Budget(e),
                        ),
                        None => {
                            &&& result matches Ok((id, held))
                            &&& id == old(self).next_job_id
                            &&& held.reservation_id() == old(budget)@.next_id + 1
                            &&& held.run() == scope.run()
                            &&& final(self).next_job_id == old(self).next_job_id + 1
                            &&& final(self).jobs@ == old(self).jobs@.push(id)
                            &&& final(self).lifecycle == old(self).lifecycle
                            &&& final(self).max_in_flight == old(self).max_in_flight
                            &&& final(self).next_turn_id == old(self).next_turn_id
                            &&& final(self).unacknowledged@ == old(self).unacknowledged@
                            &&& final(turn).jobs@ == old(turn).jobs@.push(id)
                            &&& final(turn).open == old(turn).open
                            &&& final(turn).failures@ == old(turn).failures@
                            &&& final(turn).omitted == old(turn).omitted
                        },
                    }
                },
            },
            result is Err ==> *final(self) == *old(self) && *final(turn) == *old(turn),
    {
        if self.lifecycle != LifecycleState::Running {
            return Err(ToolRuntimeError::Stopped);
        }
        if self.jobs.len() >= self.max_in_flight {
            return Err(ToolRuntimeError::Overloaded);
        }
        if !turn.open {
            return Err(ToolRuntimeError::Stopped);
        }
        let id: u64 = self.next_job_id;
        if id == u64::MAX {
            return Err(ToolRuntimeError::Overloaded);
        }
        let request = BudgetRequest::new(
            BudgetAmounts {
                steps: 0,
                model_requests: 0,
                tool_calls: 1,
                corrections: 0,
                input_tokens: 0,
                output_tokens: 0,
                tool_output_bytes: output_limit as u64,
            },
        );
        let held = match scope.reserve(budget, request, now) {
            Err(e) => {
                return Err(ToolRuntimeError::Budget(e));
            },
            Ok(held) => held,
        };
        self.next_job_id = id + 1;
        self.jobs.push(id);
        turn.jobs.push(id);
        Ok((id, held))
    }

    /// A call is over. The answers are whether the runtime and the turn are drained.
    pub fn complete_job(
        &mut self,
        turn: &mut TurnControl,
        turn_id: u64,
        id: u64,
        closure_failure: Option<ToolRuntimeError>,
    ) -> (drained: (bool, bool))
        requires
            old(self).wf(),
            old(turn).wf(),
            closure_failure matches Some(e) ==> is_closure_error(e),
        ensures
            final(self).wf(),
            final(turn).wf(),
            final(self).jobs@ == old(self).jobs@.filter(|j: u64| j != id),
            final(turn).jobs@ == old(turn).jobs@.filter(|j: u64| j != id),
            final(self).lifecycle == old(self).lifecycle,
            final(self).max_in_flight == old(self).max_in_flight,
            final(self).next_turn_id == old(self).next_turn_id,
            final(self).next_job_id == old(self).next_job_id,
            final(turn).open == old(turn).open,
            drained.0 == (final(self).jobs@.len() == 0),
            drained.1 == (final(turn).jobs@.len() == 0),
            match closure_failure {
                None => {
                    &&& final(self).unacknowledged@ == old(self).unacknowledged@
                    &&& final(turn).failures@ == old(turn).failures@
                    &&& final(turn).omitted == old(turn).omitted
                },
                Some(failure) => {
                    &&& counts_one_more(
                        old(self).unacknowledged@,
                        final(self).unacknowledged@,
                        turn_id,
                    )
                    &&& TurnControl::keeps(*old(turn), *final(turn), failure)
                },
            },
    {
        match closure_failure {
            Some(failure) => {
                turn.record(failure);
                count_failure(&mut self.unacknowledged, turn_id);
            },
            None => {},
        }
        let ghost before = self.jobs@;
        let jobs = without(&self.jobs, id);
        proof {
            let keeps = |j: u64| j != id;
            filtered_are_distinct(before, keeps);
            assert forall|i: int| 0 <= i < jobs@.len() implies #[trigger] jobs@[i]
                < self.next_job_id by {
                assert(before.contains(before.filter(keeps)[i]));
            }
        }
        self.jobs = jobs;
        turn.forget(id);
        (self.jobs.len() == 0, turn.jobs.len() == 0)
    }

    pub fn acknowledge_turn(&mut self, turn_id: u64)
        requires
            old(self).wf(),
        ensures
            final(self).wf(),
            *final(self) == (RuntimeControl {
                unacknowledged: final(self).unacknowledged,
                ..*old(self)
            }),
            final(self).unacknowledged@ == old(self).unacknowledged@.filter(
                |u: Unacknowledged| u.turn_id != turn_id,
            ),
    {
        acknowledge(&mut self.unacknowledged, turn_id);
    }

    /// Lets no call in any more, and says whether there is anything to stop: then all
    /// calls are to be cancelled.
    pub fn begin_stop(&mut self) -> (stopping: bool)
        requires
            old(self).wf(),
        ensures
            final(self).wf(),
            stopping == (old(self).lifecycle != LifecycleState::Stopped),
            *final(self) == if stopping {
                RuntimeControl { lifecycle: LifecycleState::Stopping, ..*old(self) }
            } else {
                *old(self)
            },
    {
        if self.lifecycle == LifecycleState::Stopped {
            return false;
        }
        self.lifecycle = LifecycleState::Stopping;
        true
    }

    /// Ends a stop once everything is drained: the words for what nobody heard.
    pub fn finish_stop(&mut self) -> (result: Result<(), String>)
        requires
            old(self).wf(),
        ensures
            final(self).wf(),
            final(self).lifecycle == LifecycleState::Stopped,
            final(self).unacknowledged@.len() == 0,
            final(self).jobs@ == old(self).jobs@,
            final(self).max_in_flight == old(self).max_in_flight,
            final(self).next_turn_id == old(self).next_turn_id,
            final(self).next_job_id == old(self).next_job_id,
            match result {
                Ok(_) => old(self).unacknowledged@.len() == 0,
                Err(text) => old(self).unacknowledged@.len() > 0 && text@ == decimal(
                    unheard(old(self).unacknowledged@) as nat,
                ) + " Tool operation(s) failed canonical closure before shutdown"@,
            },
    {
        let count: usize = unheard_count(&self.unacknowledged);
        let any: bool = self.unacknowledged.len() > 0;
        self.lifecycle = LifecycleState::Stopped;
        self.unacknowledged = Vec::new();
        if !any {
            return Ok(());
        }
        let mut text = decimal_text(count as u64);
        text.push_str(" Tool operation(s) failed canonical closure before shutdown");
        Err(text)
    }
}

proof fn filtered_are_distinct(ids: Seq<u64>, keeps: spec_fn(u64) -> bool)
    requires
        ids.no_duplicates(),
    ensures
        ids.filter(keeps).no_duplicates(),
        ids.filter(keeps).len() <= ids.len(),
        forall|i: int|
            0 <= i < ids.filter(keeps).len() ==> ids.contains(#[trigger] ids.filter(keeps)[i]),
    decreases ids.len(),
{
    reveal(Seq::filter);
    if ids.len() > 0 {
        let front = ids.drop_last();
        filtered_are_distinct(front, keeps);
        let kept = ids.filter(keeps);
        assert forall|i: int| 0 <= i < front.filter(keeps).len() implies #[trigger] front.filter(
            keeps,
        )[i] != ids.last() && ids.contains(front.filter(keeps)[i]) by {
            assert(front.contains(front.filter(keeps)[i]));
            let j = front.index_of(front.filter(keeps)[i]);
            assert(ids[j] == front.filter(keeps)[i]);
        }
        assert forall|i: int| 0 <= i < kept.len() implies ids.contains(#[trigger] kept[i]) by {
            if i < front.filter(keeps).len() {
                assert(kept[i] == front.filter(keeps)[i]);
            } else {
                assert(ids[ids.len() - 1] == kept[i]);
            }
        }
    }
}

/// A call that was let in.
#[derive(Debug)]
pub struct CallStart {
    pub job_id: u64,
    pub reservation: BudgetReservation,
    pub timeout: Duration,
    /// When the call has taken its time.
    pub deadline: Duration,
    /// Active time that the budget still allows.
    pub budget_time: Duration,
    /// When that time is over, where the clock reaches so far.
    pub budget_deadline: Option<Duration>,
    pub output_limit: usize,
}

/// The ceiling that a tool sets for the time of its calls.
pub open spec fn time_ceiling(tool: Option<&ToolMetadata>) -> Option<Duration> {
    match tool {
        Some(metadata) => metadata.timeout_ceiling,
        None => None,
    }
}

/// Starts a call: checks it, works its limits and deadlines out, and lets it in together
/// with its budget.
pub fn begin_call(
    control: &mut RuntimeControl,
    turn: &mut TurnControl,
    scope: &BudgetScope,
    budget: &mut TaskBudget,
    name: &str,
    arguments: &Json,
    tool: Option<&ToolMetadata>,
    options: &ToolCallOptions,
    default_timeout: Duration,
    max_output_bytes: usize,
    explicit_budget: bool,
    cancelled: bool,
    now: Duration,
) -> (result: Result<CallStart, ToolRuntimeError>)
    requires
        old(control).wf(),
        old(turn).wf(),
        old(budget).wf(),
        now.length() + tightest_time(default_timeout, time_ceiling(tool), options.timeout)
            < time_end(),
    ensures
        final(control).wf(),
        final(turn).wf(),
        final(budget).wf(),
        result is Err ==> *final(control) == *old(control) && *final(turn) == *old(turn),
        ({
            let b = old(budget)@;
            let foreign = explicit_budget && options.action is Some
                && options.action->0@.decision.task_id != b.identity.task;
            let fault = check_fault(
                b,
                name@,
                arguments@,
                cancelled,
                foreign,
                scope.run(),
                now.length(),
            );
            let checked = checked_ledger(
                b,
                name@,
                arguments@,
                cancelled,
                foreign,
                scope.run(),
                now.length(),
            );
            let limit = tightest_size(
                max_output_bytes,
                match tool {
                    Some(metadata) => metadata.output_ceiling_bytes,
                    None => None,
                },
                options.max_output_bytes,
            );
            let request = RuntimeControl::reserves(limit);
            if fault is Some {
                result == Err::<CallStart, ToolRuntimeError>(fault->0) && final(budget)@ == checked
            } else if let Some(e) = old(control).entry_fault(old(turn).open) {
                result == Err::<CallStart, ToolRuntimeError>(e) && final(budget)@ == checked
            } else {
                &&& final(budget)@ == checked.requested(scope.run(), request, now.length())
                &&& match checked.ticked(now.length()).reserve_fault(scope.run(), request) {
                    Some(e) => result == Err::<CallStart, ToolRuntimeError>(
                        ToolRuntimeError::Budget(e),
                    ),
                    None => {
                        &&& result matches Ok(started)
                        &&& started.job_id == old(control).next_job_id
                        &&& started.output_limit == limit
                        &&& started.budget_time.length() == time_left(b.ticked(now.length()))
                        &&& started.timeout.length() == tightest_time(
                            default_timeout,
                            time_ceiling(tool),
                            options.timeout,
                        )
                        &&& started.deadline.length() == now.length() + started.timeout.length()
                        &&& match started.budget_deadline {
                            Some(end) => end.length() == now.length()
                                + started.budget_time.length(),
                            None => now.length() + started.budget_time.length() >= time_end(),
                        }
                        &&& started.reservation.run() == scope.run()
                        &&& started.reservation.reservation_id() == checked.next_id + 1
                        &&& final(control).lifecycle == old(control).lifecycle
                        &&& final(control).max_in_flight == old(control).max_in_flight
                        &&& final(control).next_turn_id == old(control).next_turn_id
                        &&& final(control).next_job_id == old(control).next_job_id + 1
                        &&& final(control).jobs@ == old(control).jobs@.push(started.job_id)
                        &&& final(control).unacknowledged@ == old(control).unacknowledged@
                        &&& final(turn).open == old(turn).open
                        &&& final(turn).jobs@ == old(turn).jobs@.push(started.job_id)
                        &&& final(turn).failures@ == old(turn).failures@
                        &&& final(turn).omitted == old(turn).omitted
                    },
                }
            }
        }),
{
    let action_task: Option<&TaskId> = match &options.action {
        Some(action) => Some(&action.decision.task_id),
        None => None,
    };
    let budget_time = match check_call(
        name,
        arguments,
        cancelled,
        explicit_budget,
        action_task,
        scope,
        budget,
        now,
    ) {
        Err(e) => {
            return Err(e);
        },
        Ok(left) => left,
    };
    let timeout = effective_timeout(default_timeout, tool, options.timeout);
    let output_limit: usize = effective_output_limit(
        max_output_bytes,
        tool,
        options.max_output_bytes,
    );
    let deadline = now.saturating_add(timeout);
    let budget_deadline = now.checked_add(budget_time);
    match control.accept(turn, scope, budget, output_limit, now) {
        Err(e) => Err(e),
        Ok((job_id, reservation)) => Ok(
            CallStart {
                job_id,
                reservation,
                timeout,
                deadline,
                budget_time,
                budget_deadline,
                output_limit,
            },
        ),
    }
}

/// A runtime that stops lets nothing in, and one that is full neither.
pub proof fn closed_doors_stay_closed(control: RuntimeControl, turn_open: bool)
    requires
        control.wf(),
        control.lifecycle != LifecycleState::Running || control.jobs@.len() == control.max_in_flight
            || !turn_open,
    ensures
        control.entry_fault(turn_open) is Some,
{
}

} // verus!
