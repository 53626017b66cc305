//! Tool outcomes as JSON text.

use crate::json::{json_string, quote};
use crate::session::tool_record::{
    ToolFailureCategory, ToolRecordedOutcome, ToolRecordedOutcomeView,
};
use vstd::prelude::*;

verus! {

/// The recorded name of a failure category.
pub open spec fn category_name_of(category: ToolFailureCategory) -> Seq<char> {
    match category {
        ToolFailureCategory::Unavailable => "unavailable"@,
        ToolFailureCategory::InvalidArguments => "invalid_arguments"@,
        ToolFailureCategory::Denied => "denied"@,
        ToolFailureCategory::GuardFault => "guard_fault"@,
        ToolFailureCategory::ApprovalUnavailable => "approval_unavailable"@,
        ToolFailureCategory::ApprovalDenied => "approval_denied"@,
        ToolFailureCategory::ApprovalFault => "approval_fault"@,
        ToolFailureCategory::Timeout => "timeout"@,
        ToolFailureCategory::Cancelled => "cancelled"@,
        ToolFailureCategory::BodyFailure => "body_failure"@,
        ToolFailureCategory::BodyPanic => "body_panic"@,
        ToolFailureCategory::OutputLimit => "output_limit"@,
        ToolFailureCategory::Budget => "budget"@,
    }
}

/// The recorded name of a failure category.
pub fn category_name(category: ToolFailureCategory) -> (name: &'static str)
    ensures
        name@ == category_name_of(category),
{
    match category {
        ToolFailureCategory::Unavailable => "unavailable",
        ToolFailureCategory::InvalidArguments => "invalid_arguments",
        ToolFailureCategory::Denied => "denied",
        ToolFailureCategory::GuardFault => "guard_fault",
        ToolFailureCategory::ApprovalUnavailable => "approval_unavailable",
        ToolFailureCategory::ApprovalDenied => "approval_denied",
        ToolFailureCategory::ApprovalFault => "approval_fault",
        ToolFailureCategory::Timeout => "timeout",
        ToolFailureCategory::Cancelled => "cancelled",
        ToolFailureCategory::BodyFailure => "body_failure",
        ToolFailureCategory::BodyPanic => "body_panic",
        ToolFailureCategory::OutputLimit => "output_limit",
        ToolFailureCategory::Budget => "budget",
    }
}

/// A truth value in JSON.
pub open spec fn bool_text_of(value: bool) -> Seq<char> {
    if value {
        "true"@
    } else {
        "false"@
    }
}

/// A truth value in JSON.
pub fn bool_text(value: bool) -> (text: &'static str)
    ensures
        text@ == bool_text_of(value),
{
    if value {
        "true"
    } else {
        "false"
    }
}

/// A tool outcome as the JSON that a model reads.
pub open spec fn outcome_json_of(outcome: ToolRecordedOutcomeView) -> Seq<char> {
    match outcome {
        ToolRecordedOutcomeView::Succeeded { output } => "{\"status\":\"succeeded\",\"output\":"@
            + json_string(output) + "}"@,
        ToolRecordedOutcomeView::Failed { category, code, message, retryable } =>
            "{\"status\":\"failed\",\"category\":\""@ + category_name_of(category)
            + "\",\"code\":"@ + json_string(code) + ",\"message\":"@ + json_string(message)
            + ",\"retryable\":"@ + bool_text_of(retryable) + "}"@,
    }
}

/// A tool outcome as the JSON that a model reads.
pub fn outcome_json(outcome: &ToolRecordedOutcome) -> (text: String)
    ensures
        text@ == outcome_json_of(outcome@),
{
    match outcome {
        ToolRecordedOutcome::Succeeded { output } => {
            let mut text = "{\"status\":\"succeeded\",\"output\":".to_owned();
            text.push_str(quote(output.as_str()).as_str());
            text.push_str("}");
            text
        },
        ToolRecordedOutcome::Failed { category, code, message, retryable } => {
            let mut text = "{\"status\":\"failed\",\"category\":\"".to_owned();
            text.push_str(category_name(*category));
            text.push_str("\",\"code\":");
            text.push_str(quote(code.as_str()).as_str());
            text.push_str(",\"message\":");
            text.push_str(quote(message.as_str()).as_str());
            text.push_str(",\"retryable\":");
            text.push_str(bool_text(*retryable));
            text.push_str("}");
            text
        },
    }
}

} // verus!
