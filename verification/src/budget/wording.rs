//! Budget errors in words.

use crate::budget::model::BudgetError;
use crate::budget::vocabulary::{BudgetResource, BudgetStopReason};
use vstd::prelude::*;

verus! {

/// The name of a resource.
pub open spec fn resource_name_of(resource: BudgetResource) -> Seq<char> {
    match resource {
        BudgetResource::Steps => "Steps"@,
        BudgetResource::ModelRequests => "ModelRequests"@,
        BudgetResource::ToolCalls => "ToolCalls"@,
        BudgetResource::Corrections => "Corrections"@,
        BudgetResource::InputTokens => "InputTokens"@,
        BudgetResource::OutputTokens => "OutputTokens"@,
        BudgetResource::ToolOutputBytes => "ToolOutputBytes"@,
    }
}

/// The name of a resource.
pub fn resource_name(resource: BudgetResource) -> (name: &'static str)
    ensures
        name@ == resource_name_of(resource),
{
    match resource {
        BudgetResource::Steps => "Steps",
        BudgetResource::ModelRequests => "ModelRequests",
        BudgetResource::ToolCalls => "ToolCalls",
        BudgetResource::Corrections => "Corrections",
        BudgetResource::InputTokens => "InputTokens",
        BudgetResource::OutputTokens => "OutputTokens",
        BudgetResource::ToolOutputBytes => "ToolOutputBytes",
    }
}

/// The name of a stop reason, with the resource it is about where it has one.
pub open spec fn stop_name_of(reason: BudgetStopReason) -> Seq<char> {
    match reason {
        BudgetStopReason::RecoveryRequired => "RecoveryRequired"@,
        BudgetStopReason::ResourceLimit(r) => "ResourceLimit("@ + resource_name_of(r) + ")"@,
        BudgetStopReason::ActiveTime => "ActiveTime"@,
        BudgetStopReason::UsageExceededReservation(r) => "UsageExceededReservation("@ + resource_name_of(r) + ")"@,
        BudgetStopReason::AbandonedReservation => "AbandonedReservation"@,
        BudgetStopReason::RunAbandoned => "RunAbandoned"@,
        BudgetStopReason::ClockMovedBackwards => "ClockMovedBackwards"@,
        BudgetStopReason::AccountingOverflow => "AccountingOverflow"@,
        BudgetStopReason::IdentityMismatch => "IdentityMismatch"@,
        BudgetStopReason::InvalidRequest => "InvalidRequest"@,
    }
}

/// The name of a stop reason, with the resource it is about where it has one.
pub fn stop_name(reason: BudgetStopReason) -> (name: String)
    ensures
        name@ == stop_name_of(reason),
{
    match reason {
        BudgetStopReason::RecoveryRequired => "RecoveryRequired".to_owned(),
        BudgetStopReason::ResourceLimit(r) => around("ResourceLimit(", resource_name(r), ")"),
        BudgetStopReason::ActiveTime => "ActiveTime".to_owned(),
        BudgetStopReason::UsageExceededReservation(r) => around("UsageExceededReservation(", resource_name(r), ")"),
        BudgetStopReason::AbandonedReservation => "AbandonedReservation".to_owned(),
        BudgetStopReason::RunAbandoned => "RunAbandoned".to_owned(),
        BudgetStopReason::ClockMovedBackwards => "ClockMovedBackwards".to_owned(),
        BudgetStopReason::AccountingOverflow => "AccountingOverflow".to_owned(),
        BudgetStopReason::IdentityMismatch => "IdentityMismatch".to_owned(),
        BudgetStopReason::InvalidRequest => "InvalidRequest".to_owned(),
    }
}

/// Three texts, one after the other.
fn around(left: &str, middle: &str, right: &str) -> (text: String)
    ensures
        text@ == left@ + middle@ + right@,
{
    let mut text = left.to_owned();
    text.push_str(middle);
    text.push_str(right);
    text
}

/// A budget error as one line of text.
pub open spec fn error_text_of(error: BudgetError) -> Seq<char> {
    match error {
        BudgetError::CheckpointSealed => "this ledger has been sealed for checkpoint transfer"@,
        BudgetError::InvalidIdentity => "task, session and agent identity must be nonempty"@,
        BudgetError::IdentityMismatch => "budget binding identity does not match the request or recorded event"@,
        BudgetError::RunActive => "a task run is already active"@,
        BudgetError::RunClosed => "this run is closed"@,
        BudgetError::EmptyRequest => "a reservation must consume at least one attempt"@,
        BudgetError::AlreadyStarted => "reservation has already started"@,
        BudgetError::NotStarted => "reservation has not started"@,
        BudgetError::ReservationMissing => "reservation is unavailable"@,
        BudgetError::PendingReservations => "pending reservations must be settled before finishing"@,
        BudgetError::Poisoned => "budget lock was poisoned"@,
        BudgetError::Stopped(reason) => "budget stopped: "@ + stop_name_of(reason),
        BudgetError::UnverifiedTokenBound(r) => "missing verified token bound: "@
            + resource_name_of(r),
        BudgetError::ZeroTokenEstimate(r) => "an unknown token estimate cannot be zero: "@
            + resource_name_of(r),
    }
}

impl BudgetError {
    /// The error as one line of text.
    pub fn text(self) -> (text: String)
        ensures
            text@ == error_text_of(self),
    {
        match self {
            BudgetError::CheckpointSealed => "this ledger has been sealed for checkpoint transfer".to_owned(),
            BudgetError::InvalidIdentity => "task, session and agent identity must be nonempty".to_owned(),
            BudgetError::IdentityMismatch => "budget binding identity does not match the request or recorded event".to_owned(),
            BudgetError::RunActive => "a task run is already active".to_owned(),
            BudgetError::RunClosed => "this run is closed".to_owned(),
            BudgetError::EmptyRequest => "a reservation must consume at least one attempt".to_owned(),
            BudgetError::AlreadyStarted => "reservation has already started".to_owned(),
            BudgetError::NotStarted => "reservation has not started".to_owned(),
            BudgetError::ReservationMissing => "reservation is unavailable".to_owned(),
            BudgetError::PendingReservations => "pending reservations must be settled before finishing".to_owned(),
            BudgetError::Poisoned => "budget lock was poisoned".to_owned(),
            BudgetError::Stopped(reason) => {
                let mut text = "budget stopped: ".to_owned();
                text.push_str(stop_name(reason).as_str());
                text
            },
            BudgetError::UnverifiedTokenBound(r) => {
                let mut text = "missing verified token bound: ".to_owned();
                text.push_str(resource_name(r));
                text
            },
            BudgetError::ZeroTokenEstimate(r) => {
                let mut text = "an unknown token estimate cannot be zero: ".to_owned();
                text.push_str(resource_name(r));
                text
            },
        }
    }
}

} // verus!
