//! What may be spent: admission within every limit, and time.

use crate::budget::laws;
use crate::budget::model;
use crate::budget::model::LedgerView;
use crate::budget::vocabulary::{
    BudgetAmounts, BudgetRequest, BudgetResource, BudgetStopReason, LimitsView, TokenBoundEvidence, TokenBudgetMode,
};
use vstd::prelude::*;

verus! {

/// What is charged, what is held and what is asked for stay within the limit, of every
/// resource.
pub open spec fn has_room_for(
    charged: BudgetAmounts,
    held: BudgetAmounts,
    asked: BudgetAmounts,
    limit: BudgetAmounts,
) -> bool {
    &&& charged.steps + held.steps + asked.steps <= limit.steps
    &&& charged.model_requests + held.model_requests + asked.model_requests <= limit.model_requests
    &&& charged.tool_calls + held.tool_calls + asked.tool_calls <= limit.tool_calls
    &&& charged.corrections + held.corrections + asked.corrections <= limit.corrections
    &&& charged.input_tokens + held.input_tokens + asked.input_tokens <= limit.input_tokens
    &&& charged.output_tokens + held.output_tokens + asked.output_tokens <= limit.output_tokens
    &&& charged.tool_output_bytes + held.tool_output_bytes + asked.tool_output_bytes <= limit.tool_output_bytes
}

/// Attempts are charged at once.
pub open spec fn attempts_charged(
    before: BudgetAmounts,
    after: BudgetAmounts,
    asked: BudgetAmounts,
) -> bool {
    &&& after.steps == before.steps + asked.steps
    &&& after.model_requests == before.model_requests + asked.model_requests
    &&& after.tool_calls == before.tool_calls + asked.tool_calls
    &&& after.corrections == before.corrections + asked.corrections
    &&& after.input_tokens == before.input_tokens
    &&& after.output_tokens == before.output_tokens
    &&& after.tool_output_bytes == before.tool_output_bytes
}

/// Everything else is held until it is known.
pub open spec fn variables_held(before: BudgetAmounts, after: BudgetAmounts, asked: BudgetAmounts) -> bool {
    &&& after.steps == before.steps
    &&& after.model_requests == before.model_requests
    &&& after.tool_calls == before.tool_calls
    &&& after.corrections == before.corrections
    &&& after.input_tokens == before.input_tokens + asked.input_tokens
    &&& after.output_tokens == before.output_tokens + asked.output_tokens
    &&& after.tool_output_bytes == before.tool_output_bytes + asked.tool_output_bytes
}

/// An amount of tokens that matters is bounded for certain, or, where the mode allows it,
/// estimated above nothing.
pub open spec fn is_believable(
    tokens: u64,
    by_model: bool,
    evidence: TokenBoundEvidence,
    mode: TokenBudgetMode,
) -> bool {
    ||| evidence == TokenBoundEvidence::VerifiedUpperBound
    ||| tokens == 0 && !by_model
    ||| mode == TokenBudgetMode::Soft && tokens > 0
}

/// Work is admitted exactly where it counts an attempt, its tokens are believable, its run
/// is open, nothing has stopped run or task, and all that it asks for fits every limit of
/// both beside what is charged and held. Its attempts are then charged and its other
/// amounts held, in the task's account and in the run's; refused, it takes nothing.
pub proof fn work_is_admitted_within_every_limit(
    v: LedgerView,
    run: u64,
    request: BudgetRequest,
    now: nat,
)
    requires
        v.wf(),
    ensures
        ({
            let t = v.ticked(now);
            let after = v.requested(run, request, now);
            let asked = request.amounts;
            let report = t.run->0.report;
            let may = {
                &&& !v.sealed && !v.recovery_frozen
                &&& t.run is Some && t.run->0.id == run && report.open
                &&& t.stop is None && report.stop is None
                &&& asked.steps + asked.model_requests + asked.tool_calls + asked.corrections > 0
                &&& is_believable(
                    asked.input_tokens,
                    asked.model_requests > 0,
                    request.input_tokens,
                    v.token_mode,
                )
                &&& is_believable(
                    asked.output_tokens,
                    asked.model_requests > 0,
                    request.output_tokens,
                    v.token_mode,
                )
                &&& has_room_for(v.charged, v.reserved, asked, v.limits.resources)
                &&& has_room_for(report.charged, report.reserved, asked, report.limits.resources)
                &&& v.next_id < u64::MAX
            };
            &&& may <==> t.reserve_fault(run, request) is None
            &&& if may {
                &&& attempts_charged(v.charged, after.charged, asked)
                &&& variables_held(v.reserved, after.reserved, asked)
                &&& attempts_charged(v.run->0.report.charged, after.run->0.report.charged, asked)
                &&& variables_held(v.run->0.report.reserved, after.run->0.report.reserved, asked)
                &&& after.pending.len() == v.pending.len() + 1
                &&& after.pending.last().request == request
                &&& !after.pending.last().started
                &&& after.stop is None
            } else {
                &&& after.charged == v.charged
                &&& after.reserved == v.reserved
                &&& after.pending == v.pending
            }
        }),
{
    laws::tick_keeps_agreement(v, now);
    let t = v.ticked(now);
    let asked = request.amounts;
    let report = t.run->0.report;
    assert(t.charged == v.charged && t.reserved == v.reserved && t.pending == v.pending);
    assert(t.limits == v.limits && t.next_id == v.next_id && t.token_mode == v.token_mode);
    reveal_with_fuel(LedgerView::misfit, 8);
    assert(BudgetResource::nth(0) == BudgetResource::Steps);
    assert(BudgetResource::nth(1) == BudgetResource::ModelRequests);
    assert(BudgetResource::nth(2) == BudgetResource::ToolCalls);
    assert(BudgetResource::nth(3) == BudgetResource::Corrections);
    assert(BudgetResource::nth(4) == BudgetResource::InputTokens);
    assert(BudgetResource::nth(5) == BudgetResource::OutputTokens);
    assert(BudgetResource::nth(6) == BudgetResource::ToolOutputBytes);
    if t.run is Some {
        assert(report.charged == v.run->0.report.charged);
        assert(report.reserved == v.run->0.report.reserved);
    }
    assert(t.misfit(asked, 0) is None <==> (has_room_for(
        t.charged,
        t.reserved,
        asked,
        t.limits.resources,
    ) && has_room_for(report.charged, report.reserved, asked, report.limits.resources)));
}

/// Of two limits the tighter one holds, of every resource and of time.
pub proof fn the_tighter_limit_holds(a: LimitsView, b: LimitsView)
    ensures
        ({
            let both = a.meet(b);
            &&& both.resources.steps <= a.resources.steps && both.resources.steps <= b.resources.steps && (both.resources.steps == a.resources.steps || both.resources.steps == b.resources.steps)
            &&& both.resources.model_requests <= a.resources.model_requests && both.resources.model_requests <= b.resources.model_requests && (both.resources.model_requests == a.resources.model_requests || both.resources.model_requests == b.resources.model_requests)
            &&& both.resources.tool_calls <= a.resources.tool_calls && both.resources.tool_calls <= b.resources.tool_calls && (both.resources.tool_calls == a.resources.tool_calls || both.resources.tool_calls == b.resources.tool_calls)
            &&& both.resources.corrections <= a.resources.corrections && both.resources.corrections <= b.resources.corrections && (both.resources.corrections == a.resources.corrections || both.resources.corrections == b.resources.corrections)
            &&& both.resources.input_tokens <= a.resources.input_tokens && both.resources.input_tokens <= b.resources.input_tokens && (both.resources.input_tokens == a.resources.input_tokens || both.resources.input_tokens == b.resources.input_tokens)
            &&& both.resources.output_tokens <= a.resources.output_tokens && both.resources.output_tokens <= b.resources.output_tokens && (both.resources.output_tokens == a.resources.output_tokens || both.resources.output_tokens == b.resources.output_tokens)
            &&& both.resources.tool_output_bytes <= a.resources.tool_output_bytes && both.resources.tool_output_bytes <= b.resources.tool_output_bytes && (both.resources.tool_output_bytes == a.resources.tool_output_bytes || both.resources.tool_output_bytes == b.resources.tool_output_bytes)
            &&& both.active <= a.active && both.active <= b.active && (both.active == a.active
                || both.active == b.active)
        }),
{
}

/// Time is charged as active while a run works, and stops the work when the time of the
/// task or of the run is used up; once something has stopped, or the run cleans up, time
/// is cleanup. A clock that goes back stops the task and charges nothing.
pub proof fn active_time_runs_out(v: LedgerView, now: nat)
    requires
        v.wf(),
        v.writable_fault() is None,
        v.run is Some,
        v.run->0.report.open,
        v.cleanup + now < model::time_end(),
        v.run->0.report.cleanup + now < model::time_end(),
    ensures
        ({
            let t = v.ticked(now);
            let run = v.run->0.report;
            let after = t.run->0.report;
            let idle = v.stop is Some || run.stop is Some || v.run->0.cleaning;
            let elapsed = now - v.clock;
            if now < v.clock {
                &&& t.stop is Some
                &&& t.active == v.active && t.cleanup == v.cleanup && t.clock == v.clock
                &&& t.run == v.run
            } else if idle {
                &&& t.active == v.active && after.active == run.active
                &&& t.cleanup == v.cleanup + elapsed && after.cleanup == run.cleanup + elapsed
                &&& t.stop == v.stop && after.stop == run.stop
            } else if v.active + elapsed < v.limits.active && run.active + elapsed < run.limits.active {
                &&& t.active == v.active + elapsed && after.active == run.active + elapsed
                &&& t.cleanup == v.cleanup && after.cleanup == run.cleanup
                &&& t.stop is None && after.stop is None
            } else {
                &&& t.stop == Some(BudgetStopReason::ActiveTime) || after.stop == Some(
                    BudgetStopReason::ActiveTime,
                )
                &&& t.active <= v.active + elapsed
                &&& v.active <= v.limits.active ==> t.active <= v.limits.active
                &&& run.active <= run.limits.active ==> after.active <= run.limits.active
                &&& t.active + t.cleanup == v.active + v.cleanup + elapsed
                &&& v.active <= v.limits.active && run.active <= run.limits.active ==> t.active
                    == v.limits.active || after.active == run.limits.active
            }
        }),
{
}

} // verus!
