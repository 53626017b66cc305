//! What a grant may change, and what a model call costs.

use crate::budget::grant::{verdict, ExpectationView};
use crate::budget::audit::GrantRequestView;
use crate::budget::sealed::CheckpointView;
use crate::budget::vocabulary::{BudgetAmounts, BudgetResource, BudgetStopReason, LimitsView, UsageValue};
use crate::llm::accounting::{call_reserves, counted_tokens, ModelTokenEstimate};
use crate::session::event::SessionEventView;
use vstd::prelude::*;

verus! {

/// No limit of the first is above the second.
pub open spec fn is_no_higher(a: LimitsView, b: LimitsView) -> bool {
    &&& a.resources.steps <= b.resources.steps
    &&& a.resources.model_requests <= b.resources.model_requests
    &&& a.resources.tool_calls <= b.resources.tool_calls
    &&& a.resources.corrections <= b.resources.corrections
    &&& a.resources.input_tokens <= b.resources.input_tokens
    &&& a.resources.output_tokens <= b.resources.output_tokens
    &&& a.resources.tool_output_bytes <= b.resources.tool_output_bytes
    &&& a.active <= b.active
}

/// What was charged is within the limits.
pub open spec fn is_covered(charged: BudgetAmounts, limits: LimitsView) -> bool {
    &&& charged.steps <= limits.resources.steps
    &&& charged.model_requests <= limits.resources.model_requests
    &&& charged.tool_calls <= limits.resources.tool_calls
    &&& charged.corrections <= limits.resources.corrections
    &&& charged.input_tokens <= limits.resources.input_tokens
    &&& charged.output_tokens <= limits.resources.output_tokens
    &&& charged.tool_output_bytes <= limits.resources.tool_output_bytes
}

/// A grant raises limits and lowers none, never above what the host allows, and covers
/// what was already charged. It lifts only a stop that is about a limit, and only by
/// raising that limit. Nothing that was charged changes, and the grant is on record.
pub proof fn grants_raise_limits_within_the_ceiling(
    base: CheckpointView,
    expected: ExpectationView,
    history: Seq<SessionEventView>,
    request: GrantRequestView,
)
    requires
        verdict(Some(base), expected, history, request) is Granted,
    ensures
        ({
            let next = verdict(Some(base), expected, history, request)->image;
            let old = base.image.report;
            let new = next.image.report;
            &&& new.limits == request.new_limits
            &&& is_no_higher(old.limits, new.limits)
            &&& old.limits != new.limits
            &&& is_no_higher(new.limits, expected.limits)
            &&& is_covered(old.charged, new.limits)
            &&& old.active < new.limits.active
            &&& new.charged == old.charged && new.usage == old.usage && new.active == old.active
            &&& new.stop is None
            &&& match old.stop {
                None => true,
                Some(BudgetStopReason::ActiveTime) => new.limits.active > old.limits.active,
                Some(BudgetStopReason::ResourceLimit(resource)) => match resource {
                    BudgetResource::Steps => new.limits.resources.steps > old.limits.resources.steps,
                    BudgetResource::ModelRequests => new.limits.resources.model_requests > old.limits.resources.model_requests,
                    BudgetResource::ToolCalls => new.limits.resources.tool_calls > old.limits.resources.tool_calls,
                    BudgetResource::Corrections => new.limits.resources.corrections > old.limits.resources.corrections,
                    BudgetResource::InputTokens => new.limits.resources.input_tokens > old.limits.resources.input_tokens,
                    BudgetResource::OutputTokens => new.limits.resources.output_tokens > old.limits.resources.output_tokens,
                    BudgetResource::ToolOutputBytes => new.limits.resources.tool_output_bytes > old.limits.resources.tool_output_bytes,
                },
                Some(_) => false,
            }
            &&& next.image.revision == base.image.revision + 1
            &&& next.grants.len() == base.grants.len() + 1
            &&& next.grants.last().request == request
            &&& next.grants.last().old_limits == old.limits
            &&& next.grants.last().old_stop == old.stop
            &&& base.image.report.identity == expected.identity
            &&& base.image.revision == expected.revision
            &&& base.image.anchor == expected.anchor
        }),
{
    let old = base.image.report.limits;
    let new = request.new_limits;
    let charged = base.image.report.charged;
    assert(old.resources.at(BudgetResource::Steps) <= new.resources.at(BudgetResource::Steps));
    assert(new.resources.at(BudgetResource::Steps) <= expected.limits.resources.at(BudgetResource::Steps));
    assert(charged.at(BudgetResource::Steps) <= new.resources.at(BudgetResource::Steps));
    assert(old.resources.at(BudgetResource::ModelRequests) <= new.resources.at(BudgetResource::ModelRequests));
    assert(new.resources.at(BudgetResource::ModelRequests) <= expected.limits.resources.at(BudgetResource::ModelRequests));
    assert(charged.at(BudgetResource::ModelRequests) <= new.resources.at(BudgetResource::ModelRequests));
    assert(old.resources.at(BudgetResource::ToolCalls) <= new.resources.at(BudgetResource::ToolCalls));
    assert(new.resources.at(BudgetResource::ToolCalls) <= expected.limits.resources.at(BudgetResource::ToolCalls));
    assert(charged.at(BudgetResource::ToolCalls) <= new.resources.at(BudgetResource::ToolCalls));
    assert(old.resources.at(BudgetResource::Corrections) <= new.resources.at(BudgetResource::Corrections));
    assert(new.resources.at(BudgetResource::Corrections) <= expected.limits.resources.at(BudgetResource::Corrections));
    assert(charged.at(BudgetResource::Corrections) <= new.resources.at(BudgetResource::Corrections));
    assert(old.resources.at(BudgetResource::InputTokens) <= new.resources.at(BudgetResource::InputTokens));
    assert(new.resources.at(BudgetResource::InputTokens) <= expected.limits.resources.at(BudgetResource::InputTokens));
    assert(charged.at(BudgetResource::InputTokens) <= new.resources.at(BudgetResource::InputTokens));
    assert(old.resources.at(BudgetResource::OutputTokens) <= new.resources.at(BudgetResource::OutputTokens));
    assert(new.resources.at(BudgetResource::OutputTokens) <= expected.limits.resources.at(BudgetResource::OutputTokens));
    assert(charged.at(BudgetResource::OutputTokens) <= new.resources.at(BudgetResource::OutputTokens));
    assert(old.resources.at(BudgetResource::ToolOutputBytes) <= new.resources.at(BudgetResource::ToolOutputBytes));
    assert(new.resources.at(BudgetResource::ToolOutputBytes) <= expected.limits.resources.at(BudgetResource::ToolOutputBytes));
    assert(charged.at(BudgetResource::ToolOutputBytes) <= new.resources.at(BudgetResource::ToolOutputBytes));
}

/// A model call reserves one step, one request and the tokens that it is expected to take,
/// and settles with the tokens that the provider counted; what it did not count stays
/// unknown.
pub proof fn model_calls_reserve_what_they_are_expected_to_take(
    estimate: ModelTokenEstimate,
    tokens: Option<u64>,
)
    ensures
        ({
            let request = call_reserves(estimate);
            &&& request.amounts.steps == 1 && request.amounts.model_requests == 1
            &&& request.amounts.tool_calls == 0 && request.amounts.corrections == 0
            &&& request.amounts.input_tokens == estimate.input_tokens
            &&& request.amounts.output_tokens == estimate.output_tokens
            &&& request.amounts.tool_output_bytes == 0
            &&& request.input_tokens == estimate.input_evidence
            &&& request.output_tokens == estimate.output_evidence
        }),
        counted_tokens(tokens) is Unknown <==> tokens is None,
        tokens matches Some(n) ==> counted_tokens(tokens) == UsageValue::Actual(n),
{
}

} // verus!
