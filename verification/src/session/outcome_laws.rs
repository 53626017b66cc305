//! What the recorded outcome of a tool call says to whoever reads it.

use crate::json::json_string;
use crate::json_reading::{
    field, follows_member, is_plain, member_goes_before, member_text, object_is_spelled, plain_is_quoted,
    read_json, spelled_is_read, spells, text_is_spelled, truth_is_spelled, JsonValue, Member,
};
use crate::session::outcome_text::{bool_text_of, category_name_of, outcome_json_of};
use crate::session::tool_record::{ToolFailureCategory, ToolRecordedOutcomeView};
use vstd::prelude::*;

verus! {

/// The name is that of the category and of no other.
pub open spec fn names_category(name: Seq<char>, category: ToolFailureCategory) -> bool {
    &&& name == "unavailable"@ <==> category == ToolFailureCategory::Unavailable
    &&& name == "invalid_arguments"@ <==> category == ToolFailureCategory::InvalidArguments
    &&& name == "denied"@ <==> category == ToolFailureCategory::Denied
    &&& name == "guard_fault"@ <==> category == ToolFailureCategory::GuardFault
    &&& name == "approval_unavailable"@ <==> category == ToolFailureCategory::ApprovalUnavailable
    &&& name == "approval_denied"@ <==> category == ToolFailureCategory::ApprovalDenied
    &&& name == "approval_fault"@ <==> category == ToolFailureCategory::ApprovalFault
    &&& name == "timeout"@ <==> category == ToolFailureCategory::Timeout
    &&& name == "cancelled"@ <==> category == ToolFailureCategory::Cancelled
    &&& name == "body_failure"@ <==> category == ToolFailureCategory::BodyFailure
    &&& name == "body_panic"@ <==> category == ToolFailureCategory::BodyPanic
    &&& name == "output_limit"@ <==> category == ToolFailureCategory::OutputLimit
    &&& name == "budget"@ <==> category == ToolFailureCategory::Budget
}

/// The name of a category is written as it is.
pub proof fn category_is_plain(category: ToolFailureCategory)
    ensures
        is_plain(category_name_of(category)),
        names_category(category_name_of(category), category),
{
    reveal_strlit("unavailable");
    reveal_strlit("invalid_arguments");
    reveal_strlit("denied");
    reveal_strlit("guard_fault");
    reveal_strlit("approval_unavailable");
    reveal_strlit("approval_denied");
    reveal_strlit("approval_fault");
    reveal_strlit("timeout");
    reveal_strlit("cancelled");
    reveal_strlit("body_failure");
    reveal_strlit("body_panic");
    reveal_strlit("output_limit");
    reveal_strlit("budget");
    assert("unavailable"@.len() != "invalid_arguments"@.len());
    assert("unavailable"@.len() != "denied"@.len());
    assert("invalid_arguments"@.len() != "denied"@.len());
    assert("unavailable"@[0] != "guard_fault"@[0]);
    assert("invalid_arguments"@.len() != "guard_fault"@.len());
    assert("denied"@.len() != "guard_fault"@.len());
    assert("unavailable"@.len() != "approval_unavailable"@.len());
    assert("invalid_arguments"@.len() != "approval_unavailable"@.len());
    assert("denied"@.len() != "approval_unavailable"@.len());
    assert("guard_fault"@.len() != "approval_unavailable"@.len());
    assert("unavailable"@.len() != "approval_denied"@.len());
    assert("invalid_arguments"@.len() != "approval_denied"@.len());
    assert("denied"@.len() != "approval_denied"@.len());
    assert("guard_fault"@.len() != "approval_denied"@.len());
    assert("approval_unavailable"@.len() != "approval_denied"@.len());
    assert("unavailable"@.len() != "approval_fault"@.len());
    assert("invalid_arguments"@.len() != "approval_fault"@.len());
    assert("denied"@.len() != "approval_fault"@.len());
    assert("guard_fault"@.len() != "approval_fault"@.len());
    assert("approval_unavailable"@.len() != "approval_fault"@.len());
    assert("approval_denied"@.len() != "approval_fault"@.len());
    assert("unavailable"@.len() != "timeout"@.len());
    assert("invalid_arguments"@.len() != "timeout"@.len());
    assert("denied"@.len() != "timeout"@.len());
    assert("guard_fault"@.len() != "timeout"@.len());
    assert("approval_unavailable"@.len() != "timeout"@.len());
    assert("approval_denied"@.len() != "timeout"@.len());
    assert("approval_fault"@.len() != "timeout"@.len());
    assert("unavailable"@.len() != "cancelled"@.len());
    assert("invalid_arguments"@.len() != "cancelled"@.len());
    assert("denied"@.len() != "cancelled"@.len());
    assert("guard_fault"@.len() != "cancelled"@.len());
    assert("approval_unavailable"@.len() != "cancelled"@.len());
    assert("approval_denied"@.len() != "cancelled"@.len());
    assert("approval_fault"@.len() != "cancelled"@.len());
    assert("timeout"@.len() != "cancelled"@.len());
    assert("unavailable"@.len() != "body_failure"@.len());
    assert("invalid_arguments"@.len() != "body_failure"@.len());
    assert("denied"@.len() != "body_failure"@.len());
    assert("guard_fault"@.len() != "body_failure"@.len());
    assert("approval_unavailable"@.len() != "body_failure"@.len());
    assert("approval_denied"@.len() != "body_failure"@.len());
    assert("approval_fault"@.len() != "body_failure"@.len());
    assert("timeout"@.len() != "body_failure"@.len());
    assert("cancelled"@.len() != "body_failure"@.len());
    assert("unavailable"@.len() != "body_panic"@.len());
    assert("invalid_arguments"@.len() != "body_panic"@.len());
    assert("denied"@.len() != "body_panic"@.len());
    assert("guard_fault"@.len() != "body_panic"@.len());
    assert("approval_unavailable"@.len() != "body_panic"@.len());
    assert("approval_denied"@.len() != "body_panic"@.len());
    assert("approval_fault"@.len() != "body_panic"@.len());
    assert("timeout"@.len() != "body_panic"@.len());
    assert("cancelled"@.len() != "body_panic"@.len());
    assert("body_failure"@.len() != "body_panic"@.len());
    assert("unavailable"@.len() != "output_limit"@.len());
    assert("invalid_arguments"@.len() != "output_limit"@.len());
    assert("denied"@.len() != "output_limit"@.len());
    assert("guard_fault"@.len() != "output_limit"@.len());
    assert("approval_unavailable"@.len() != "output_limit"@.len());
    assert("approval_denied"@.len() != "output_limit"@.len());
    assert("approval_fault"@.len() != "output_limit"@.len());
    assert("timeout"@.len() != "output_limit"@.len());
    assert("cancelled"@.len() != "output_limit"@.len());
    assert("body_failure"@[0] != "output_limit"@[0]);
    assert("body_panic"@.len() != "output_limit"@.len());
    assert("unavailable"@.len() != "budget"@.len());
    assert("invalid_arguments"@.len() != "budget"@.len());
    assert("denied"@[0] != "budget"@[0]);
    assert("guard_fault"@.len() != "budget"@.len());
    assert("approval_unavailable"@.len() != "budget"@.len());
    assert("approval_denied"@.len() != "budget"@.len());
    assert("approval_fault"@.len() != "budget"@.len());
    assert("timeout"@.len() != "budget"@.len());
    assert("cancelled"@.len() != "budget"@.len());
    assert("body_failure"@.len() != "budget"@.len());
    assert("body_panic"@.len() != "budget"@.len());
    assert("output_limit"@.len() != "budget"@.len());
}

/// Whoever reads a recorded outcome finds whether the call succeeded or failed, and with
/// what words.
pub open spec fn says_recorded(value: JsonValue, outcome: ToolRecordedOutcomeView) -> bool {
    match outcome {
        ToolRecordedOutcomeView::Succeeded { output } => {
            &&& field(value, "status"@) == Some(JsonValue::Text("succeeded"@))
            &&& field(value, "output"@) == Some(JsonValue::Text(output))
        },
        ToolRecordedOutcomeView::Failed { category, code, message, retryable } => {
            &&& field(value, "status"@) == Some(JsonValue::Text("failed"@))
            &&& field(value, "category"@) matches Some(JsonValue::Text(name))
            &&& names_category(name, category)
            &&& field(value, "code"@) == Some(JsonValue::Text(code))
            &&& field(value, "message"@) == Some(JsonValue::Text(message))
            &&& field(value, "retryable"@) == Some(JsonValue::Truth(retryable))
        },
    }
}

/// A recorded success is read as a success.
#[verifier::spinoff_prover]
pub proof fn recorded_successes_can_be_read(output: Seq<char>)
    ensures
        read_json(outcome_json_of(ToolRecordedOutcomeView::Succeeded { output })) is Some,
        spells(outcome_json_of(ToolRecordedOutcomeView::Succeeded { output }), read_json(outcome_json_of(ToolRecordedOutcomeView::Succeeded { output }))->0),
        ({
            let value = read_json(outcome_json_of(ToolRecordedOutcomeView::Succeeded { output }))->0;
            says_recorded(value, ToolRecordedOutcomeView::Succeeded { output })
        }),
{
    reveal_strlit("status");
    reveal_strlit("output");
    reveal_strlit("{\"status\":\"succeeded\",\"output\":");
    reveal_strlit("}");
    assert("status"@[0] != "output"@[0]);
    reveal_strlit("succeeded");
    plain_is_quoted("succeeded"@);
    text_is_spelled(output);
    let a2 = seq!['}'];
    let m2 = Seq::<Member>::empty();
    assert(follows_member(a2, m2));
    let x1 = json_string(output);
    let v1 = JsonValue::Text(output);
    member_goes_before("output"@, x1, v1, a2, m2);
    let a1 = member_text("output"@, x1, a2);
    let m1 = seq![Member { key: "output"@, value: v1 }] + m2;
    let x0 = seq!['"'] + "succeeded"@ + seq!['"'];
    let v0 = JsonValue::Text("succeeded"@);
    member_goes_before("status"@, x0, v0, a1, m1);
    let a0 = member_text("status"@, x0, a1);
    let m0 = seq![Member { key: "status"@, value: v0 }] + m1;
    object_is_spelled(a0.skip(1), m0);
    assert(outcome_json_of(ToolRecordedOutcomeView::Succeeded { output }) =~= seq!['{'] + a0.skip(1));
    spelled_is_read(outcome_json_of(ToolRecordedOutcomeView::Succeeded { output }), JsonValue::Object(m0));
}

/// A recorded failure is read as a failure, of its own category.
#[verifier::spinoff_prover]
#[verifier::rlimit(60)]
pub proof fn recorded_failures_can_be_read(
    category: ToolFailureCategory,
    code: Seq<char>,
    message: Seq<char>,
    retryable: bool,
)
    ensures
        read_json(outcome_json_of(ToolRecordedOutcomeView::Failed { category, code, message, retryable })) is Some,
        spells(outcome_json_of(ToolRecordedOutcomeView::Failed { category, code, message, retryable }), read_json(outcome_json_of(ToolRecordedOutcomeView::Failed { category, code, message, retryable }))->0),
        ({
            let value = read_json(outcome_json_of(ToolRecordedOutcomeView::Failed { category, code, message, retryable }))->0;
            says_recorded(value, ToolRecordedOutcomeView::Failed { category, code, message, retryable })
        }),
{
    reveal_strlit("status");
    reveal_strlit("category");
    reveal_strlit("code");
    reveal_strlit("message");
    reveal_strlit("retryable");
    reveal_strlit("{\"status\":\"failed\",\"category\":\"");
    reveal_strlit("\",\"code\":");
    reveal_strlit(",\"message\":");
    reveal_strlit(",\"retryable\":");
    reveal_strlit("}");
    assert("status"@.len() != "category"@.len());
    assert("status"@.len() != "code"@.len());
    assert("category"@.len() != "code"@.len());
    assert("status"@.len() != "message"@.len());
    assert("category"@.len() != "message"@.len());
    assert("code"@.len() != "message"@.len());
    assert("status"@.len() != "retryable"@.len());
    assert("category"@.len() != "retryable"@.len());
    assert("code"@.len() != "retryable"@.len());
    assert("message"@.len() != "retryable"@.len());
    reveal_strlit("failed");
    plain_is_quoted("failed"@);
    text_is_spelled(code);
    text_is_spelled(message);
    truth_is_spelled(retryable);
    category_is_plain(category);
    plain_is_quoted(category_name_of(category));
    let a5 = seq!['}'];
    let m5 = Seq::<Member>::empty();
    assert(follows_member(a5, m5));
    let x4 = bool_text_of(retryable);
    let v4 = JsonValue::Truth(retryable);
    member_goes_before("retryable"@, x4, v4, a5, m5);
    let a4 = member_text("retryable"@, x4, a5);
    let m4 = seq![Member { key: "retryable"@, value: v4 }] + m5;
    let x3 = json_string(message);
    let v3 = JsonValue::Text(message);
    member_goes_before("message"@, x3, v3, a4, m4);
    let a3 = member_text("message"@, x3, a4);
    let m3 = seq![Member { key: "message"@, value: v3 }] + m4;
    let x2 = json_string(code);
    let v2 = JsonValue::Text(code);
    member_goes_before("code"@, x2, v2, a3, m3);
    let a2 = member_text("code"@, x2, a3);
    let m2 = seq![Member { key: "code"@, value: v2 }] + m3;
    let x1 = seq!['"'] + category_name_of(category) + seq!['"'];
    let v1 = JsonValue::Text(category_name_of(category));
    member_goes_before("category"@, x1, v1, a2, m2);
    let a1 = member_text("category"@, x1, a2);
    let m1 = seq![Member { key: "category"@, value: v1 }] + m2;
    let x0 = seq!['"'] + "failed"@ + seq!['"'];
    let v0 = JsonValue::Text("failed"@);
    member_goes_before("status"@, x0, v0, a1, m1);
    let a0 = member_text("status"@, x0, a1);
    let m0 = seq![Member { key: "status"@, value: v0 }] + m1;
    object_is_spelled(a0.skip(1), m0);
    assert(outcome_json_of(ToolRecordedOutcomeView::Failed { category, code, message, retryable }) =~= seq!['{'] + a0.skip(1));
    spelled_is_read(outcome_json_of(ToolRecordedOutcomeView::Failed { category, code, message, retryable }), JsonValue::Object(m0));
}

/// A recorded outcome is read as it was recorded.
pub proof fn recorded_outcomes_can_be_read(outcome: ToolRecordedOutcomeView)
    ensures
        read_json(outcome_json_of(outcome)) matches Some(value) && says_recorded(value, outcome),
        spells(outcome_json_of(outcome), read_json(outcome_json_of(outcome))->0),
{
    match outcome {
        ToolRecordedOutcomeView::Succeeded { output } => recorded_successes_can_be_read(output),
        ToolRecordedOutcomeView::Failed { category, code, message, retryable } =>
            recorded_failures_can_be_read(category, code, message, retryable),
    }
}

} // verus!
