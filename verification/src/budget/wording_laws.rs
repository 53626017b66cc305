//! Names and texts that tell resources, stops and errors apart.

use crate::budget::model::BudgetError;
use crate::budget::vocabulary::{BudgetResource, BudgetStopReason};
use crate::budget::wording::{error_text_of, resource_name_of, stop_name_of};
use vstd::prelude::*;

verus! {

/// The name is that of the resource and of no other.
pub open spec fn names_resource(name: Seq<char>, resource: BudgetResource) -> bool {
    &&& name == "Steps"@ <==> resource == BudgetResource::Steps
    &&& name == "ModelRequests"@ <==> resource == BudgetResource::ModelRequests
    &&& name == "ToolCalls"@ <==> resource == BudgetResource::ToolCalls
    &&& name == "Corrections"@ <==> resource == BudgetResource::Corrections
    &&& name == "InputTokens"@ <==> resource == BudgetResource::InputTokens
    &&& name == "OutputTokens"@ <==> resource == BudgetResource::OutputTokens
    &&& name == "ToolOutputBytes"@ <==> resource == BudgetResource::ToolOutputBytes
}

/// Every resource has a name of its own.
pub proof fn resources_are_named(resource: BudgetResource)
    ensures
        names_resource(resource_name_of(resource), resource),
{
    reveal_strlit("Steps");
    reveal_strlit("ModelRequests");
    reveal_strlit("ToolCalls");
    reveal_strlit("Corrections");
    reveal_strlit("InputTokens");
    reveal_strlit("OutputTokens");
    reveal_strlit("ToolOutputBytes");
    assert("Steps"@.len() != "ModelRequests"@.len());
    assert("Steps"@.len() != "ToolCalls"@.len());
    assert("ModelRequests"@.len() != "ToolCalls"@.len());
    assert("Steps"@.len() != "Corrections"@.len());
    assert("ModelRequests"@.len() != "Corrections"@.len());
    assert("ToolCalls"@.len() != "Corrections"@.len());
    assert("Steps"@.len() != "InputTokens"@.len());
    assert("ModelRequests"@.len() != "InputTokens"@.len());
    assert("ToolCalls"@.len() != "InputTokens"@.len());
    assert("Corrections"@[0] != "InputTokens"@[0]);
    assert("Steps"@.len() != "OutputTokens"@.len());
    assert("ModelRequests"@.len() != "OutputTokens"@.len());
    assert("ToolCalls"@.len() != "OutputTokens"@.len());
    assert("Corrections"@.len() != "OutputTokens"@.len());
    assert("InputTokens"@.len() != "OutputTokens"@.len());
    assert("Steps"@.len() != "ToolOutputBytes"@.len());
    assert("ModelRequests"@.len() != "ToolOutputBytes"@.len());
    assert("ToolCalls"@.len() != "ToolOutputBytes"@.len());
    assert("Corrections"@.len() != "ToolOutputBytes"@.len());
    assert("InputTokens"@.len() != "ToolOutputBytes"@.len());
    assert("OutputTokens"@.len() != "ToolOutputBytes"@.len());
}

/// A stop that is about a resource is told with the name of that resource, and so is an
/// error that is about a resource; an error about a stop is told with the name of the stop.
pub proof fn resources_are_told_by_name(resource: BudgetResource, reason: BudgetStopReason)
    ensures
        exists|name: Seq<char>|
            #[trigger] names_resource(name, resource) && stop_name_of(
                BudgetStopReason::ResourceLimit(resource),
            ) == "ResourceLimit("@ + name + ")"@ && stop_name_of(
                BudgetStopReason::UsageExceededReservation(resource),
            ) == "UsageExceededReservation("@ + name + ")"@ && error_text_of(
                BudgetError::UnverifiedTokenBound(resource),
            ) == "missing verified token bound: "@ + name && error_text_of(
                BudgetError::ZeroTokenEstimate(resource),
            ) == "an unknown token estimate cannot be zero: "@ + name,
        error_text_of(BudgetError::Stopped(reason)) == "budget stopped: "@ + stop_name_of(reason),
{
    resources_are_named(resource);
    assert(names_resource(resource_name_of(resource), resource));
}

} // verus!
