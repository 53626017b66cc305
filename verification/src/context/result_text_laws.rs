//! What the view of a tool's result says to whoever reads it.

use crate::context::result_text::{content_json_of, outcome_view_json_of, reference_json_of, result_json_of};
use crate::context::viewing::{
    ContentReferenceView, ContentScopeView, ToolContentModel, ToolOutcomeModel, ToolResultModel,
};
use crate::json::{decimal, json_string};
use crate::json_reading::{
    field, follows_member, member_goes_before, member_text, null_is_spelled, number_is_spelled, number_of,
    object_is_spelled, plain_is_quoted, read_json, spelled_is_read, spells, text_is_spelled, truth_is_spelled,
    JsonValue, Member,
};
use crate::session::outcome_laws::{category_is_plain, names_category};
use crate::session::outcome_text::{bool_text_of, category_name_of};
use crate::session::tool_record::ToolFailureCategory;
use vstd::prelude::*;

verus! {

/// The value spells the number.
pub open spec fn says_number(value: Option<JsonValue>, n: int) -> bool {
    value matches Some(JsonValue::Number(digits)) && number_of(digits) == n
}

spec fn scope_json_of(scope: ContentScopeView) -> Seq<char> {
    "{\"expires_at_ms\":"@ + decimal(scope.expires_at_ms as nat) + ",\"session_id\":"@ + json_string(
        scope.session_id,
    ) + ",\"task_id\":"@ + json_string(scope.task_id) + "}"@
}

/// A scope.
#[verifier::spinoff_prover]
proof fn scope_can_be_read(scope: ContentScopeView)
    ensures
        read_json(scope_json_of(scope)) is Some,
        spells(scope_json_of(scope), read_json(scope_json_of(scope))->0),
        ({
            let value = read_json(scope_json_of(scope))->0;
            &&& says_number(field(value, "expires_at_ms"@), scope.expires_at_ms as int)
            &&& field(value, "session_id"@) == Some(JsonValue::Text(scope.session_id))
            &&& field(value, "task_id"@) == Some(JsonValue::Text(scope.task_id))
        }),
{
    reveal_strlit("expires_at_ms");
    reveal_strlit("session_id");
    reveal_strlit("task_id");
    reveal_strlit("{\"expires_at_ms\":");
    reveal_strlit(",\"session_id\":");
    reveal_strlit(",\"task_id\":");
    reveal_strlit("}");
    assert("expires_at_ms"@.len() != "session_id"@.len());
    assert("expires_at_ms"@.len() != "task_id"@.len());
    assert("session_id"@.len() != "task_id"@.len());
    number_is_spelled(scope.expires_at_ms as nat);
    text_is_spelled(scope.session_id);
    text_is_spelled(scope.task_id);
    let a3 = seq!['}'];
    let m3 = Seq::<Member>::empty();
    assert(follows_member(a3, m3));
    let x2 = json_string(scope.task_id);
    let v2 = JsonValue::Text(scope.task_id);
    member_goes_before("task_id"@, x2, v2, a3, m3);
    let a2 = member_text("task_id"@, x2, a3);
    let m2 = seq![Member { key: "task_id"@, value: v2 }] + m3;
    let x1 = json_string(scope.session_id);
    let v1 = JsonValue::Text(scope.session_id);
    member_goes_before("session_id"@, x1, v1, a2, m2);
    let a1 = member_text("session_id"@, x1, a2);
    let m1 = seq![Member { key: "session_id"@, value: v1 }] + m2;
    let x0 = decimal(scope.expires_at_ms as nat);
    let v0 = JsonValue::Number(decimal(scope.expires_at_ms as nat));
    member_goes_before("expires_at_ms"@, x0, v0, a1, m1);
    let a0 = member_text("expires_at_ms"@, x0, a1);
    let m0 = seq![Member { key: "expires_at_ms"@, value: v0 }] + m1;
    object_is_spelled(a0.skip(1), m0);
    assert(scope_json_of(scope) =~= seq!['{'] + a0.skip(1));
    spelled_is_read(scope_json_of(scope), JsonValue::Object(m0));
}

/// The value says where the whole content is kept.
pub open spec fn says_reference(value: JsonValue, r: ContentReferenceView) -> bool {
    &&& field(value, "scope"@) matches Some(scope)
    &&& says_number(field(scope, "expires_at_ms"@), r.scope.expires_at_ms as int)
    &&& field(scope, "session_id"@) == Some(JsonValue::Text(r.scope.session_id))
    &&& field(scope, "task_id"@) == Some(JsonValue::Text(r.scope.task_id))
    &&& field(value, "source_event"@) == Some(JsonValue::Text(r.source_event))
    &&& field(value, "store_id"@) == Some(JsonValue::Text(r.store_id))
    &&& says_number(field(value, "total_bytes"@), r.total_bytes as int)
}

/// A reference is read with every part that it takes to find the content.
#[verifier::spinoff_prover]
#[verifier::rlimit(30)]
pub proof fn references_can_be_read(r: ContentReferenceView)
    ensures
        read_json(reference_json_of(r)) is Some,
        spells(reference_json_of(r), read_json(reference_json_of(r))->0),
        ({
            let value = read_json(reference_json_of(r))->0;
            says_reference(value, r)
        }),
{
    reveal_strlit("scope");
    reveal_strlit("source_event");
    reveal_strlit("store_id");
    reveal_strlit("total_bytes");
    reveal_strlit("{\"scope\":{\"expires_at_ms\":");
    reveal_strlit("{\"expires_at_ms\":");
    reveal_strlit(",\"session_id\":");
    reveal_strlit(",\"task_id\":");
    reveal_strlit("},\"source_event\":");
    reveal_strlit("}");
    reveal_strlit(",\"store_id\":");
    reveal_strlit(",\"total_bytes\":");
    assert("scope"@.len() != "source_event"@.len());
    assert("scope"@.len() != "store_id"@.len());
    assert("source_event"@.len() != "store_id"@.len());
    assert("scope"@.len() != "total_bytes"@.len());
    assert("source_event"@.len() != "total_bytes"@.len());
    assert("store_id"@.len() != "total_bytes"@.len());
    text_is_spelled(r.source_event);
    text_is_spelled(r.store_id);
    number_is_spelled(r.total_bytes as nat);
    scope_can_be_read(r.scope);
    let scope = read_json(scope_json_of(r.scope))->0;
    let a4 = seq!['}'];
    let m4 = Seq::<Member>::empty();
    assert(follows_member(a4, m4));
    let x3 = decimal(r.total_bytes as nat);
    let v3 = JsonValue::Number(decimal(r.total_bytes as nat));
    member_goes_before("total_bytes"@, x3, v3, a4, m4);
    let a3 = member_text("total_bytes"@, x3, a4);
    let m3 = seq![Member { key: "total_bytes"@, value: v3 }] + m4;
    let x2 = json_string(r.store_id);
    let v2 = JsonValue::Text(r.store_id);
    member_goes_before("store_id"@, x2, v2, a3, m3);
    let a2 = member_text("store_id"@, x2, a3);
    let m2 = seq![Member { key: "store_id"@, value: v2 }] + m3;
    let x1 = json_string(r.source_event);
    let v1 = JsonValue::Text(r.source_event);
    member_goes_before("source_event"@, x1, v1, a2, m2);
    let a1 = member_text("source_event"@, x1, a2);
    let m1 = seq![Member { key: "source_event"@, value: v1 }] + m2;
    let x0 = scope_json_of(r.scope);
    let v0 = scope;
    member_goes_before("scope"@, x0, v0, a1, m1);
    let a0 = member_text("scope"@, x0, a1);
    let m0 = seq![Member { key: "scope"@, value: v0 }] + m1;
    object_is_spelled(a0.skip(1), m0);
    assert(reference_json_of(r) =~= seq!['{'] + a0.skip(1));
    spelled_is_read(reference_json_of(r), JsonValue::Object(m0));
}

/// The value says what is shown of a content.
pub open spec fn says_content(value: JsonValue, c: ToolContentModel) -> bool {
    &&& field(value, "text"@) == Some(JsonValue::Text(c.text))
    &&& says_number(field(value, "total_bytes"@), c.total_bytes as int)
    &&& field(value, "truncated"@) == Some(JsonValue::Truth(c.truncated))
    &&& match c.reference {
        Some(r) => field(value, "reference"@) matches Some(kept) && says_reference(kept, r),
        None => field(value, "reference"@) == Some(JsonValue::Null),
    }
}

spec fn kept_json_of(reference: Option<ContentReferenceView>) -> Seq<char> {
    match reference {
        Some(r) => reference_json_of(r),
        None => "null"@,
    }
}

proof fn kept_can_be_read(reference: Option<ContentReferenceView>)
    ensures
        read_json(kept_json_of(reference)) is Some,
        spells(kept_json_of(reference), read_json(kept_json_of(reference))->0),
        match reference {
            Some(r) => says_reference(read_json(kept_json_of(reference))->0, r),
            None => read_json(kept_json_of(reference)) == Some(JsonValue::Null),
        },
{
    match reference {
        Some(r) => {
            references_can_be_read(r);
        },
        None => {
            null_is_spelled();
            spelled_is_read("null"@, JsonValue::Null);
        },
    }
}

#[verifier::spinoff_prover]
#[verifier::rlimit(30)]
proof fn contents_can_be_read_text(p0: Seq<char>, p1: Seq<char>, p2: Seq<char>, p3: Seq<char>)
    ensures
        "{\"reference\":"@ + p0 + ",\"text\":"@ + p1 + ",\"total_bytes\":"@ + p2 + ",\"truncated\":"@ + p3 + "}"@ == seq!['{'] + member_text("reference"@, p0, member_text("text"@, p1, member_text("total_bytes"@, p2, member_text("truncated"@, p3, seq!['}'])))).skip(1),
{
    reveal_strlit("reference");
    reveal_strlit("text");
    reveal_strlit("total_bytes");
    reveal_strlit("truncated");
    reveal_strlit("{\"reference\":");
    reveal_strlit(",\"text\":");
    reveal_strlit(",\"total_bytes\":");
    reveal_strlit(",\"truncated\":");
    reveal_strlit("}");
    let b4 = seq!['}'];
    let b3 = member_text("truncated"@, p3, b4);
    let b2 = member_text("total_bytes"@, p2, b3);
    let b1 = member_text("text"@, p1, b2);
    let b0 = member_text("reference"@, p0, b1);
    let s8 = "}"@;
    let s7 = p3 + s8;
    let s6 = ",\"truncated\":"@ + s7;
    let s5 = p2 + s6;
    let s4 = ",\"total_bytes\":"@ + s5;
    let s3 = p1 + s4;
    let s2 = ",\"text\":"@ + s3;
    let s1 = p0 + s2;
    let s0 = "{\"reference\":"@ + s1;
    assert(s8 =~= b4);
    assert(s6 =~= b3);
    assert(s4 =~= b2);
    assert(s2 =~= b1);
    assert(s0 =~= seq!['{'] + b0.skip(1));
    assert(("{\"reference\":"@ + p0) + s2 =~= s0);
    assert(("{\"reference\":"@ + p0 + ",\"text\":"@) + s3 =~= s0);
    assert(("{\"reference\":"@ + p0 + ",\"text\":"@ + p1) + s4 =~= s0);
    assert(("{\"reference\":"@ + p0 + ",\"text\":"@ + p1 + ",\"total_bytes\":"@) + s5 =~= s0);
    assert(("{\"reference\":"@ + p0 + ",\"text\":"@ + p1 + ",\"total_bytes\":"@ + p2) + s6 =~= s0);
    assert(("{\"reference\":"@ + p0 + ",\"text\":"@ + p1 + ",\"total_bytes\":"@ + p2 + ",\"truncated\":"@) + s7 =~= s0);
    assert(("{\"reference\":"@ + p0 + ",\"text\":"@ + p1 + ",\"total_bytes\":"@ + p2 + ",\"truncated\":"@ + p3) + s8 =~= s0);
}

/// Content is read with its text, its size, whether it is cut and where the rest is.
#[verifier::spinoff_prover]
#[verifier::rlimit(30)]
pub proof fn contents_can_be_read(c: ToolContentModel)
    ensures
        read_json(content_json_of(c)) is Some,
        spells(content_json_of(c), read_json(content_json_of(c))->0),
        ({
            let value = read_json(content_json_of(c))->0;
            says_content(value, c)
        }),
{
    reveal_strlit("reference");
    reveal_strlit("text");
    reveal_strlit("total_bytes");
    reveal_strlit("truncated");
    assert("reference"@.len() != "text"@.len());
    assert("reference"@.len() != "total_bytes"@.len());
    assert("text"@.len() != "total_bytes"@.len());
    assert("reference"@[0] != "truncated"@[0]);
    assert("text"@.len() != "truncated"@.len());
    assert("total_bytes"@.len() != "truncated"@.len());
    text_is_spelled(c.text);
    number_is_spelled(c.total_bytes as nat);
    truth_is_spelled(c.truncated);
    kept_can_be_read(c.reference);
    let kept = kept_json_of(c.reference);
    let kept_value = read_json(kept)->0;
    let a4 = seq!['}'];
    let m4 = Seq::<Member>::empty();
    assert(follows_member(a4, m4));
    let x3 = bool_text_of(c.truncated);
    let v3 = JsonValue::Truth(c.truncated);
    member_goes_before("truncated"@, x3, v3, a4, m4);
    let a3 = member_text("truncated"@, x3, a4);
    let m3 = seq![Member { key: "truncated"@, value: v3 }] + m4;
    let x2 = decimal(c.total_bytes as nat);
    let v2 = JsonValue::Number(decimal(c.total_bytes as nat));
    member_goes_before("total_bytes"@, x2, v2, a3, m3);
    let a2 = member_text("total_bytes"@, x2, a3);
    let m2 = seq![Member { key: "total_bytes"@, value: v2 }] + m3;
    let x1 = json_string(c.text);
    let v1 = JsonValue::Text(c.text);
    member_goes_before("text"@, x1, v1, a2, m2);
    let a1 = member_text("text"@, x1, a2);
    let m1 = seq![Member { key: "text"@, value: v1 }] + m2;
    let x0 = kept;
    let v0 = kept_value;
    member_goes_before("reference"@, x0, v0, a1, m1);
    let a0 = member_text("reference"@, x0, a1);
    let m0 = seq![Member { key: "reference"@, value: v0 }] + m1;
    object_is_spelled(a0.skip(1), m0);
    contents_can_be_read_text(kept, json_string(c.text), decimal(c.total_bytes as nat), bool_text_of(c.truncated));
    spelled_is_read(content_json_of(c), JsonValue::Object(m0));
}

/// The value says what came of a call: that it succeeded, and with what, or that it
/// failed, and how.
pub open spec fn says_outcome(value: JsonValue, o: ToolOutcomeModel) -> bool {
    match o {
        ToolOutcomeModel::Succeeded { output } => {
            &&& field(value, "status"@) == Some(JsonValue::Text("succeeded"@))
            &&& field(value, "output"@) matches Some(content)
            &&& says_content(content, output)
        },
        ToolOutcomeModel::Failed { category, code, message, retryable } => {
            &&& field(value, "status"@) == Some(JsonValue::Text("failed"@))
            &&& field(value, "category"@) matches Some(JsonValue::Text(name))
            &&& names_category(name, category)
            &&& field(value, "code"@) == Some(JsonValue::Text(code))
            &&& field(value, "message"@) matches Some(content)
            &&& says_content(content, message)
            &&& field(value, "retryable"@) == Some(JsonValue::Truth(retryable))
        },
    }
}

/// A success is read as a success.
#[verifier::spinoff_prover]
#[verifier::rlimit(30)]
pub proof fn successes_can_be_read(output: ToolContentModel)
    ensures
        read_json(outcome_view_json_of(ToolOutcomeModel::Succeeded { output })) is Some,
        spells(outcome_view_json_of(ToolOutcomeModel::Succeeded { output }), read_json(outcome_view_json_of(ToolOutcomeModel::Succeeded { output }))->0),
        ({
            let value = read_json(outcome_view_json_of(ToolOutcomeModel::Succeeded { output }))->0;
            says_outcome(value, ToolOutcomeModel::Succeeded { output })
        }),
{
    reveal_strlit("output");
    reveal_strlit("status");
    reveal_strlit("{\"output\":");
    reveal_strlit(",\"status\":\"succeeded\"}");
    assert("output"@[0] != "status"@[0]);
    reveal_strlit("succeeded");
    plain_is_quoted("succeeded"@);
    contents_can_be_read(output);
    let content = read_json(content_json_of(output))->0;
    let a2 = seq!['}'];
    let m2 = Seq::<Member>::empty();
    assert(follows_member(a2, m2));
    let x1 = seq!['"'] + "succeeded"@ + seq!['"'];
    let v1 = JsonValue::Text("succeeded"@);
    member_goes_before("status"@, x1, v1, a2, m2);
    let a1 = member_text("status"@, x1, a2);
    let m1 = seq![Member { key: "status"@, value: v1 }] + m2;
    let x0 = content_json_of(output);
    let v0 = content;
    member_goes_before("output"@, x0, v0, a1, m1);
    let a0 = member_text("output"@, x0, a1);
    let m0 = seq![Member { key: "output"@, value: v0 }] + m1;
    object_is_spelled(a0.skip(1), m0);
    assert(outcome_view_json_of(ToolOutcomeModel::Succeeded { output }) =~= seq!['{'] + a0.skip(1));
    spelled_is_read(outcome_view_json_of(ToolOutcomeModel::Succeeded { output }), JsonValue::Object(m0));
}

#[verifier::spinoff_prover]
#[verifier::rlimit(30)]
proof fn failures_can_be_read_text(p0: Seq<char>, p1: Seq<char>, p2: Seq<char>, p3: Seq<char>)
    ensures
        "{\"category\":\""@ + p0 + "\",\"code\":"@ + p1 + ",\"message\":"@ + p2 + ",\"retryable\":"@ + p3 + ",\"status\":\"failed\"}"@ == seq!['{'] + member_text("category"@, (seq!['"'] + p0 + seq!['"']), member_text("code"@, p1, member_text("message"@, p2, member_text("retryable"@, p3, member_text("status"@, (seq!['"'] + "failed"@ + seq!['"']), seq!['}']))))).skip(1),
{
    reveal_strlit("category");
    reveal_strlit("code");
    reveal_strlit("message");
    reveal_strlit("retryable");
    reveal_strlit("status");
    reveal_strlit("failed");
    reveal_strlit("{\"category\":\"");
    reveal_strlit("\",\"code\":");
    reveal_strlit(",\"message\":");
    reveal_strlit(",\"retryable\":");
    reveal_strlit(",\"status\":\"failed\"}");
    let b5 = seq!['}'];
    let b4 = member_text("status"@, (seq!['"'] + "failed"@ + seq!['"']), b5);
    let b3 = member_text("retryable"@, p3, b4);
    let b2 = member_text("message"@, p2, b3);
    let b1 = member_text("code"@, p1, b2);
    let b0 = member_text("category"@, (seq!['"'] + p0 + seq!['"']), b1);
    let s8 = ",\"status\":\"failed\"}"@;
    let s7 = p3 + s8;
    let s6 = ",\"retryable\":"@ + s7;
    let s5 = p2 + s6;
    let s4 = ",\"message\":"@ + s5;
    let s3 = p1 + s4;
    let s2 = "\",\"code\":"@ + s3;
    let s1 = p0 + s2;
    let s0 = "{\"category\":\""@ + s1;
    assert(s8 =~= b4);
    assert(s6 =~= b3);
    assert(s4 =~= b2);
    assert(s2 =~= seq!['"'] + b1);
    assert(s0 =~= seq!['{'] + b0.skip(1));
    assert(("{\"category\":\""@ + p0) + s2 =~= s0);
    assert(("{\"category\":\""@ + p0 + "\",\"code\":"@) + s3 =~= s0);
    assert(("{\"category\":\""@ + p0 + "\",\"code\":"@ + p1) + s4 =~= s0);
    assert(("{\"category\":\""@ + p0 + "\",\"code\":"@ + p1 + ",\"message\":"@) + s5 =~= s0);
    assert(("{\"category\":\""@ + p0 + "\",\"code\":"@ + p1 + ",\"message\":"@ + p2) + s6 =~= s0);
    assert(("{\"category\":\""@ + p0 + "\",\"code\":"@ + p1 + ",\"message\":"@ + p2 + ",\"retryable\":"@) + s7 =~= s0);
    assert(("{\"category\":\""@ + p0 + "\",\"code\":"@ + p1 + ",\"message\":"@ + p2 + ",\"retryable\":"@ + p3) + s8 =~= s0);
}

/// A failure is read as a failure, of its own category.
#[verifier::spinoff_prover]
#[verifier::rlimit(60)]
pub proof fn failures_can_be_read(
    category: ToolFailureCategory,
    code: Seq<char>,
    message: ToolContentModel,
    retryable: bool,
)
    ensures
        read_json(outcome_view_json_of(ToolOutcomeModel::Failed { category, code, message, retryable })) is Some,
        spells(outcome_view_json_of(ToolOutcomeModel::Failed { category, code, message, retryable }), read_json(outcome_view_json_of(ToolOutcomeModel::Failed { category, code, message, retryable }))->0),
        ({
            let value = read_json(outcome_view_json_of(ToolOutcomeModel::Failed { category, code, message, retryable }))->0;
            says_outcome(value, ToolOutcomeModel::Failed { category, code, message, retryable })
        }),
{
    reveal_strlit("category");
    reveal_strlit("code");
    reveal_strlit("message");
    reveal_strlit("retryable");
    reveal_strlit("status");
    assert("category"@.len() != "code"@.len());
    assert("category"@.len() != "message"@.len());
    assert("code"@.len() != "message"@.len());
    assert("category"@.len() != "retryable"@.len());
    assert("code"@.len() != "retryable"@.len());
    assert("message"@.len() != "retryable"@.len());
    assert("category"@.len() != "status"@.len());
    assert("code"@.len() != "status"@.len());
    assert("message"@.len() != "status"@.len());
    assert("retryable"@.len() != "status"@.len());
    text_is_spelled(code);
    truth_is_spelled(retryable);
    reveal_strlit("failed");
    plain_is_quoted("failed"@);
    contents_can_be_read(message);
    let content = read_json(content_json_of(message))->0;
    category_is_plain(category);
    plain_is_quoted(category_name_of(category));
    let a5 = seq!['}'];
    let m5 = Seq::<Member>::empty();
    assert(follows_member(a5, m5));
    let x4 = seq!['"'] + "failed"@ + seq!['"'];
    let v4 = JsonValue::Text("failed"@);
    member_goes_before("status"@, x4, v4, a5, m5);
    let a4 = member_text("status"@, x4, a5);
    let m4 = seq![Member { key: "status"@, value: v4 }] + m5;
    let x3 = bool_text_of(retryable);
    let v3 = JsonValue::Truth(retryable);
    member_goes_before("retryable"@, x3, v3, a4, m4);
    let a3 = member_text("retryable"@, x3, a4);
    let m3 = seq![Member { key: "retryable"@, value: v3 }] + m4;
    let x2 = content_json_of(message);
    let v2 = content;
    member_goes_before("message"@, x2, v2, a3, m3);
    let a2 = member_text("message"@, x2, a3);
    let m2 = seq![Member { key: "message"@, value: v2 }] + m3;
    let x1 = json_string(code);
    let v1 = JsonValue::Text(code);
    member_goes_before("code"@, x1, v1, a2, m2);
    let a1 = member_text("code"@, x1, a2);
    let m1 = seq![Member { key: "code"@, value: v1 }] + m2;
    let x0 = seq!['"'] + category_name_of(category) + seq!['"'];
    let v0 = JsonValue::Text(category_name_of(category));
    member_goes_before("category"@, x0, v0, a1, m1);
    let a0 = member_text("category"@, x0, a1);
    let m0 = seq![Member { key: "category"@, value: v0 }] + m1;
    object_is_spelled(a0.skip(1), m0);
    failures_can_be_read_text(category_name_of(category), json_string(code), content_json_of(message), bool_text_of(retryable));
    spelled_is_read(outcome_view_json_of(ToolOutcomeModel::Failed { category, code, message, retryable }), JsonValue::Object(m0));
}

/// Whoever reads the view of a result finds what came of the call, and of which event it
/// tells.
pub open spec fn says_result(value: JsonValue, r: ToolResultModel) -> bool {
    &&& says_number(field(value, "algorithm_version"@), r.algorithm_version as int)
    &&& field(value, "source_event"@) == Some(JsonValue::Text(r.source_event))
    &&& field(value, "outcome"@) matches Some(outcome)
    &&& says_outcome(outcome, r.outcome)
}

/// An outcome is read as it is.
pub proof fn outcomes_can_be_read(o: ToolOutcomeModel)
    ensures
        read_json(outcome_view_json_of(o)) matches Some(value) && says_outcome(value, o),
        spells(outcome_view_json_of(o), read_json(outcome_view_json_of(o))->0),
{
    match o {
        ToolOutcomeModel::Succeeded { output } => successes_can_be_read(output),
        ToolOutcomeModel::Failed { category, code, message, retryable } => failures_can_be_read(
            category,
            code,
            message,
            retryable,
        ),
    }
}

#[verifier::spinoff_prover]
#[verifier::rlimit(30)]
proof fn results_can_be_read_text(p0: Seq<char>, p1: Seq<char>, p2: Seq<char>)
    ensures
        "{\"algorithm_version\":"@ + p0 + ",\"outcome\":"@ + p1 + ",\"source_event\":"@ + p2 + "}"@ == seq!['{'] + member_text("algorithm_version"@, p0, member_text("outcome"@, p1, member_text("source_event"@, p2, seq!['}']))).skip(1),
{
    reveal_strlit("algorithm_version");
    reveal_strlit("outcome");
    reveal_strlit("source_event");
    reveal_strlit("{\"algorithm_version\":");
    reveal_strlit(",\"outcome\":");
    reveal_strlit(",\"source_event\":");
    reveal_strlit("}");
    let b3 = seq!['}'];
    let b2 = member_text("source_event"@, p2, b3);
    let b1 = member_text("outcome"@, p1, b2);
    let b0 = member_text("algorithm_version"@, p0, b1);
    let s6 = "}"@;
    let s5 = p2 + s6;
    let s4 = ",\"source_event\":"@ + s5;
    let s3 = p1 + s4;
    let s2 = ",\"outcome\":"@ + s3;
    let s1 = p0 + s2;
    let s0 = "{\"algorithm_version\":"@ + s1;
    assert(s6 =~= b3);
    assert(s4 =~= b2);
    assert(s2 =~= b1);
    assert(s0 =~= seq!['{'] + b0.skip(1));
    assert(("{\"algorithm_version\":"@ + p0) + s2 =~= s0);
    assert(("{\"algorithm_version\":"@ + p0 + ",\"outcome\":"@) + s3 =~= s0);
    assert(("{\"algorithm_version\":"@ + p0 + ",\"outcome\":"@ + p1) + s4 =~= s0);
    assert(("{\"algorithm_version\":"@ + p0 + ",\"outcome\":"@ + p1 + ",\"source_event\":"@) + s5 =~= s0);
    assert(("{\"algorithm_version\":"@ + p0 + ",\"outcome\":"@ + p1 + ",\"source_event\":"@ + p2) + s6 =~= s0);
}

/// The view of a result is read as what it shows.
#[verifier::spinoff_prover]
#[verifier::rlimit(30)]
pub proof fn results_can_be_read(r: ToolResultModel)
    ensures
        read_json(result_json_of(r)) is Some,
        spells(result_json_of(r), read_json(result_json_of(r))->0),
        ({
            let value = read_json(result_json_of(r))->0;
            says_result(value, r)
        }),
{
    reveal_strlit("algorithm_version");
    reveal_strlit("outcome");
    reveal_strlit("source_event");
    assert("algorithm_version"@.len() != "outcome"@.len());
    assert("algorithm_version"@.len() != "source_event"@.len());
    assert("outcome"@.len() != "source_event"@.len());
    number_is_spelled(r.algorithm_version as nat);
    text_is_spelled(r.source_event);
    outcomes_can_be_read(r.outcome);
    let outcome = read_json(outcome_view_json_of(r.outcome))->0;
    let a3 = seq!['}'];
    let m3 = Seq::<Member>::empty();
    assert(follows_member(a3, m3));
    let x2 = json_string(r.source_event);
    let v2 = JsonValue::Text(r.source_event);
    member_goes_before("source_event"@, x2, v2, a3, m3);
    let a2 = member_text("source_event"@, x2, a3);
    let m2 = seq![Member { key: "source_event"@, value: v2 }] + m3;
    let x1 = outcome_view_json_of(r.outcome);
    let v1 = outcome;
    member_goes_before("outcome"@, x1, v1, a2, m2);
    let a1 = member_text("outcome"@, x1, a2);
    let m1 = seq![Member { key: "outcome"@, value: v1 }] + m2;
    let x0 = decimal(r.algorithm_version as nat);
    let v0 = JsonValue::Number(decimal(r.algorithm_version as nat));
    member_goes_before("algorithm_version"@, x0, v0, a1, m1);
    let a0 = member_text("algorithm_version"@, x0, a1);
    let m0 = seq![Member { key: "algorithm_version"@, value: v0 }] + m1;
    object_is_spelled(a0.skip(1), m0);
    results_can_be_read_text(decimal(r.algorithm_version as nat), outcome_view_json_of(r.outcome), json_string(r.source_event));
    spelled_is_read(result_json_of(r), JsonValue::Object(m0));
}

/// Views of a success and of a failure never say the same status: whoever reads
/// `failed` looks at a failure, whoever reads `succeeded` at a success.
pub proof fn status_tells_failure_from_success(o: ToolOutcomeModel)
    ensures
        ({
            let status = field(read_json(outcome_view_json_of(o))->0, "status"@);
            &&& status == Some(JsonValue::Text("failed"@)) <==> o is Failed
            &&& status == Some(JsonValue::Text("succeeded"@)) <==> o is Succeeded
        }),
{
    outcomes_can_be_read(o);
    reveal_strlit("failed");
    reveal_strlit("succeeded");
    assert("failed"@.len() != "succeeded"@.len());
}

} // verus!
