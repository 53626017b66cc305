//! What the reference agent writes, as whoever reads it finds it.

use crate::agent::action::{ActionError, ActionStepFailure, AgentAction, ContextActionError};
use crate::agent::reference::{
    completion_artifact, correctable, decision_json_of, fails_as, feedback_of, limit_from, observation_of,
    observes, pending_json_of, reason_name_of, waiting_artifact, DriveView, PollingLimit, ProgressPolicy,
};
use crate::agent::reference_report::{
    CompletionDecisionView, CorrectionReason, PendingQuestionView, ReferenceStop,
};
use crate::agent::turn::AgentError;
use crate::generation::{ModelMessageView, ModelProtocolError};
use crate::generation_shape::has_tool;
use crate::json::{decimal, json_string};
use crate::json_reading::{
    field, is_plain, joined, joined_is_spelled, read_is_spelled, follows_member, member_goes_before, member_text,
    null_is_spelled, number_is_spelled, number_of, object_is_spelled, plain_is_quoted, read_json, spelled_is_read,
    spells, text_is_spelled, truth_is_spelled, JsonValue, Member,
};
use crate::llm::failure::{LlmError, ModelGatewayError, ModelRuntimeError};
use crate::session::outcome_laws::{recorded_outcomes_can_be_read, says_recorded};
use crate::session::outcome_text::{bool_text_of, outcome_json_of};
use crate::session::tool_record::ToolRecordedOutcomeView;
use crate::text::byte_len;
use vstd::prelude::*;

verus! {

/// The name is that of the reason and of no other.
pub open spec fn names_reason(name: Seq<char>, reason: CorrectionReason) -> bool {
    &&& name == "InvalidFormat"@ <==> reason == CorrectionReason::InvalidFormat
    &&& name == "EmptyText"@ <==> reason == CorrectionReason::EmptyText
    &&& name == "MultipleActions"@ <==> reason == CorrectionReason::MultipleActions
    &&& name == "InvalidArguments"@ <==> reason == CorrectionReason::InvalidArguments
}

proof fn reason_is_plain(reason: CorrectionReason)
    ensures
        is_plain(reason_name_of(reason)),
        names_reason(reason_name_of(reason), reason),
{
    reveal_strlit("InvalidFormat");
    reveal_strlit("EmptyText");
    reveal_strlit("MultipleActions");
    reveal_strlit("InvalidArguments");
    assert("InvalidFormat"@.len() != "EmptyText"@.len());
    assert("InvalidFormat"@.len() != "MultipleActions"@.len());
    assert("EmptyText"@.len() != "MultipleActions"@.len());
    assert("InvalidFormat"@.len() != "InvalidArguments"@.len());
    assert("EmptyText"@.len() != "InvalidArguments"@.len());
    assert("MultipleActions"@.len() != "InvalidArguments"@.len());
}

#[verifier::spinoff_prover]
#[verifier::rlimit(30)]
proof fn feedback_can_be_read_text(p1: Seq<char>)
    ensures
        "{\"instruction\":\"The previous proposal was rejected before tool execution. Return exactly one action satisfying the supplied schema. Do not repeat unavailable or denied operations.\",\"reason\":\""@ + p1 + "\",\"type\":\"jingwei_action_correction_v1\"}"@ == seq!['{'] + member_text("instruction"@, (seq!['"'] + "The previous proposal was rejected before tool execution. Return exactly one action satisfying the supplied schema. Do not repeat unavailable or denied operations."@ + seq!['"']), member_text("reason"@, (seq!['"'] + p1 + seq!['"']), member_text("type"@, (seq!['"'] + "jingwei_action_correction_v1"@ + seq!['"']), seq!['}']))).skip(1),
{
    reveal_strlit("instruction");
    reveal_strlit("The previous proposal was rejected before tool execution. Return exactly one action satisfying the supplied schema. Do not repeat unavailable or denied operations.");
    reveal_strlit("reason");
    reveal_strlit("type");
    reveal_strlit("jingwei_action_correction_v1");
    reveal_strlit("{\"instruction\":\"The previous proposal was rejected before tool execution. Return exactly one action satisfying the supplied schema. Do not repeat unavailable or denied operations.\",\"reason\":\"");
    reveal_strlit("\",\"type\":\"jingwei_action_correction_v1\"}");
    let b3 = seq!['}'];
    let b2 = member_text("type"@, (seq!['"'] + "jingwei_action_correction_v1"@ + seq!['"']), b3);
    let b1 = member_text("reason"@, (seq!['"'] + p1 + seq!['"']), b2);
    let b0 = member_text("instruction"@, (seq!['"'] + "The previous proposal was rejected before tool execution. Return exactly one action satisfying the supplied schema. Do not repeat unavailable or denied operations."@ + seq!['"']), b1);
    let s2 = "\",\"type\":\"jingwei_action_correction_v1\"}"@;
    let s1 = p1 + s2;
    let s0 = "{\"instruction\":\"The previous proposal was rejected before tool execution. Return exactly one action satisfying the supplied schema. Do not repeat unavailable or denied operations.\",\"reason\":\""@ + s1;
    assert(s2 =~= seq!['"'] + b2);
    assert(s0 =~= seq!['{'] + b0.skip(1));
    assert(("{\"instruction\":\"The previous proposal was rejected before tool execution. Return exactly one action satisfying the supplied schema. Do not repeat unavailable or denied operations.\",\"reason\":\""@ + p1) + s2 =~= s0);
}

/// What a model is told of a rejected proposal names the reason for which it was rejected.
#[verifier::spinoff_prover]
#[verifier::rlimit(90)]
pub proof fn feedback_can_be_read(reason: CorrectionReason)
    ensures
        read_json(feedback_of(reason)) is Some,
        spells(feedback_of(reason), read_json(feedback_of(reason))->0),
        ({
            let value = read_json(feedback_of(reason))->0;
            &&& field(value, "reason"@) matches Some(JsonValue::Text(name))
            &&& names_reason(name, reason)
            &&& field(value, "type"@) == Some(JsonValue::Text("jingwei_action_correction_v1"@))
        }),
{
    reveal_strlit("instruction");
    reveal_strlit("reason");
    reveal_strlit("type");
    assert("instruction"@.len() != "reason"@.len());
    assert("instruction"@.len() != "type"@.len());
    assert("reason"@.len() != "type"@.len());
    reveal_strlit("The previous proposal was rejected before tool execution. Return exactly one action satisfying the supplied schema. Do not repeat unavailable or denied operations.");
    plain_is_quoted("The previous proposal was rejected before tool execution. Return exactly one action satisfying the supplied schema. Do not repeat unavailable or denied operations."@);
    reveal_strlit("jingwei_action_correction_v1");
    plain_is_quoted("jingwei_action_correction_v1"@);
    reason_is_plain(reason);
    plain_is_quoted(reason_name_of(reason));
    let a3 = seq!['}'];
    let m3 = Seq::<Member>::empty();
    assert(follows_member(a3, m3));
    let x2 = seq!['"'] + "jingwei_action_correction_v1"@ + seq!['"'];
    let v2 = JsonValue::Text("jingwei_action_correction_v1"@);
    member_goes_before("type"@, x2, v2, a3, m3);
    let a2 = member_text("type"@, x2, a3);
    let m2 = seq![Member { key: "type"@, value: v2 }] + m3;
    let x1 = seq!['"'] + reason_name_of(reason) + seq!['"'];
    let v1 = JsonValue::Text(reason_name_of(reason));
    member_goes_before("reason"@, x1, v1, a2, m2);
    let a1 = member_text("reason"@, x1, a2);
    let m1 = seq![Member { key: "reason"@, value: v1 }] + m2;
    let x0 = seq!['"'] + "The previous proposal was rejected before tool execution. Return exactly one action satisfying the supplied schema. Do not repeat unavailable or denied operations."@ + seq!['"'];
    let v0 = JsonValue::Text("The previous proposal was rejected before tool execution. Return exactly one action satisfying the supplied schema. Do not repeat unavailable or denied operations."@);
    member_goes_before("instruction"@, x0, v0, a1, m1);
    let a0 = member_text("instruction"@, x0, a1);
    let m0 = seq![Member { key: "instruction"@, value: v0 }] + m1;
    object_is_spelled(a0.skip(1), m0);
    feedback_can_be_read_text(reason_name_of(reason));
    spelled_is_read(feedback_of(reason), JsonValue::Object(m0));
}

spec fn evidence_json(evidence: Seq<char>) -> Seq<char> {
    "{\"evidence\":"@ + json_string(evidence) + "}"@
}

spec fn refused_json(reason: Seq<char>) -> Seq<char> {
    "{\"reason\":"@ + json_string(reason) + "}"@
}

/// Evidence.
#[verifier::spinoff_prover]
proof fn evidence_can_be_read(evidence: Seq<char>)
    ensures
        read_json(evidence_json(evidence)) is Some,
        spells(evidence_json(evidence), read_json(evidence_json(evidence))->0),
        ({
            let value = read_json(evidence_json(evidence))->0;
            &&& field(value, "evidence"@) == Some(JsonValue::Text(evidence))
        }),
{
    reveal_strlit("evidence");
    reveal_strlit("{\"evidence\":");
    reveal_strlit("}");
    text_is_spelled(evidence);
    let a1 = seq!['}'];
    let m1 = Seq::<Member>::empty();
    assert(follows_member(a1, m1));
    let x0 = json_string(evidence);
    let v0 = JsonValue::Text(evidence);
    member_goes_before("evidence"@, x0, v0, a1, m1);
    let a0 = member_text("evidence"@, x0, a1);
    let m0 = seq![Member { key: "evidence"@, value: v0 }] + m1;
    object_is_spelled(a0.skip(1), m0);
    assert(evidence_json(evidence) =~= seq!['{'] + a0.skip(1));
    spelled_is_read(evidence_json(evidence), JsonValue::Object(m0));
}

/// A reason.
#[verifier::spinoff_prover]
proof fn refused_can_be_read(reason: Seq<char>)
    ensures
        read_json(refused_json(reason)) is Some,
        spells(refused_json(reason), read_json(refused_json(reason))->0),
        ({
            let value = read_json(refused_json(reason))->0;
            &&& field(value, "reason"@) == Some(JsonValue::Text(reason))
        }),
{
    reveal_strlit("reason");
    reveal_strlit("{\"reason\":");
    reveal_strlit("}");
    text_is_spelled(reason);
    let a1 = seq!['}'];
    let m1 = Seq::<Member>::empty();
    assert(follows_member(a1, m1));
    let x0 = json_string(reason);
    let v0 = JsonValue::Text(reason);
    member_goes_before("reason"@, x0, v0, a1, m1);
    let a0 = member_text("reason"@, x0, a1);
    let m0 = seq![Member { key: "reason"@, value: v0 }] + m1;
    object_is_spelled(a0.skip(1), m0);
    assert(refused_json(reason) =~= seq!['{'] + a0.skip(1));
    spelled_is_read(refused_json(reason), JsonValue::Object(m0));
}

/// The value says what the host made of a claim.
pub open spec fn says_decision(value: JsonValue, d: CompletionDecisionView) -> bool {
    match d {
        CompletionDecisionView::Unverified => value == JsonValue::Text("Unverified"@),
        CompletionDecisionView::Verified { evidence } => {
            &&& field(value, "Verified"@) matches Some(inner)
            &&& field(inner, "evidence"@) == Some(JsonValue::Text(evidence))
        },
        CompletionDecisionView::Rejected { reason } => {
            &&& field(value, "Rejected"@) matches Some(inner)
            &&& field(inner, "reason"@) == Some(JsonValue::Text(reason))
        },
    }
}

/// A verified claim.
#[verifier::spinoff_prover]
proof fn verified_can_be_read(evidence: Seq<char>)
    ensures
        read_json(decision_json_of(CompletionDecisionView::Verified { evidence })) is Some,
        spells(decision_json_of(CompletionDecisionView::Verified { evidence }), read_json(decision_json_of(CompletionDecisionView::Verified { evidence }))->0),
        ({
            let value = read_json(decision_json_of(CompletionDecisionView::Verified { evidence }))->0;
            says_decision(value, CompletionDecisionView::Verified { evidence })
        }),
{
    reveal_strlit("Verified");
    reveal_strlit("{\"Verified\":{\"evidence\":");
    reveal_strlit("{\"evidence\":");
    reveal_strlit("}}");
    reveal_strlit("}");
    evidence_can_be_read(evidence);
    let inner = read_json(evidence_json(evidence))->0;
    let a1 = seq!['}'];
    let m1 = Seq::<Member>::empty();
    assert(follows_member(a1, m1));
    let x0 = evidence_json(evidence);
    let v0 = inner;
    member_goes_before("Verified"@, x0, v0, a1, m1);
    let a0 = member_text("Verified"@, x0, a1);
    let m0 = seq![Member { key: "Verified"@, value: v0 }] + m1;
    object_is_spelled(a0.skip(1), m0);
    assert(decision_json_of(CompletionDecisionView::Verified { evidence }) =~= seq!['{'] + a0.skip(1));
    spelled_is_read(decision_json_of(CompletionDecisionView::Verified { evidence }), JsonValue::Object(m0));
}

/// A rejected claim.
#[verifier::spinoff_prover]
proof fn rejected_can_be_read(reason: Seq<char>)
    ensures
        read_json(decision_json_of(CompletionDecisionView::Rejected { reason })) is Some,
        spells(decision_json_of(CompletionDecisionView::Rejected { reason }), read_json(decision_json_of(CompletionDecisionView::Rejected { reason }))->0),
        ({
            let value = read_json(decision_json_of(CompletionDecisionView::Rejected { reason }))->0;
            says_decision(value, CompletionDecisionView::Rejected { reason })
        }),
{
    reveal_strlit("Rejected");
    reveal_strlit("{\"Rejected\":{\"reason\":");
    reveal_strlit("{\"reason\":");
    reveal_strlit("}}");
    reveal_strlit("}");
    refused_can_be_read(reason);
    let inner = read_json(refused_json(reason))->0;
    let a1 = seq!['}'];
    let m1 = Seq::<Member>::empty();
    assert(follows_member(a1, m1));
    let x0 = refused_json(reason);
    let v0 = inner;
    member_goes_before("Rejected"@, x0, v0, a1, m1);
    let a0 = member_text("Rejected"@, x0, a1);
    let m0 = seq![Member { key: "Rejected"@, value: v0 }] + m1;
    object_is_spelled(a0.skip(1), m0);
    assert(decision_json_of(CompletionDecisionView::Rejected { reason }) =~= seq!['{'] + a0.skip(1));
    spelled_is_read(decision_json_of(CompletionDecisionView::Rejected { reason }), JsonValue::Object(m0));
}

/// A decision is read as it was made.
pub proof fn decisions_can_be_read(d: CompletionDecisionView)
    ensures
        read_json(decision_json_of(d)) matches Some(value) && says_decision(value, d),
        spells(decision_json_of(d), read_json(decision_json_of(d))->0),
{
    match d {
        CompletionDecisionView::Unverified => {
            reveal_strlit("Unverified");
            reveal_strlit("\"Unverified\"");
            plain_is_quoted("Unverified"@);
            assert("\"Unverified\""@ =~= seq!['"'] + "Unverified"@ + seq!['"']);
            spelled_is_read(decision_json_of(d), JsonValue::Text("Unverified"@));
        },
        CompletionDecisionView::Verified { evidence } => verified_can_be_read(evidence),
        CompletionDecisionView::Rejected { reason } => rejected_can_be_read(reason),
    }
}

#[verifier::spinoff_prover]
#[verifier::rlimit(30)]
proof fn completions_can_be_read_text(p0: Seq<char>, p1: Seq<char>, p2: Seq<char>)
    ensures
        "{\"business_verified\":"@ + p0 + ",\"completion\":"@ + p1 + ",\"task_id\":"@ + p2 + ",\"type\":\"reference_completion_v1\"}"@ == seq!['{'] + member_text("business_verified"@, p0, member_text("completion"@, p1, member_text("task_id"@, p2, member_text("type"@, (seq!['"'] + "reference_completion_v1"@ + seq!['"']), seq!['}'])))).skip(1),
{
    reveal_strlit("business_verified");
    reveal_strlit("completion");
    reveal_strlit("task_id");
    reveal_strlit("type");
    reveal_strlit("reference_completion_v1");
    reveal_strlit("{\"business_verified\":");
    reveal_strlit(",\"completion\":");
    reveal_strlit(",\"task_id\":");
    reveal_strlit(",\"type\":\"reference_completion_v1\"}");
    let b4 = seq!['}'];
    let b3 = member_text("type"@, (seq!['"'] + "reference_completion_v1"@ + seq!['"']), b4);
    let b2 = member_text("task_id"@, p2, b3);
    let b1 = member_text("completion"@, p1, b2);
    let b0 = member_text("business_verified"@, p0, b1);
    let s6 = ",\"type\":\"reference_completion_v1\"}"@;
    let s5 = p2 + s6;
    let s4 = ",\"task_id\":"@ + s5;
    let s3 = p1 + s4;
    let s2 = ",\"completion\":"@ + s3;
    let s1 = p0 + s2;
    let s0 = "{\"business_verified\":"@ + s1;
    assert(s6 =~= b3);
    assert(s4 =~= b2);
    assert(s2 =~= b1);
    assert(s0 =~= seq!['{'] + b0.skip(1));
    assert(("{\"business_verified\":"@ + p0) + s2 =~= s0);
    assert(("{\"business_verified\":"@ + p0 + ",\"completion\":"@) + s3 =~= s0);
    assert(("{\"business_verified\":"@ + p0 + ",\"completion\":"@ + p1) + s4 =~= s0);
    assert(("{\"business_verified\":"@ + p0 + ",\"completion\":"@ + p1 + ",\"task_id\":"@) + s5 =~= s0);
    assert(("{\"business_verified\":"@ + p0 + ",\"completion\":"@ + p1 + ",\"task_id\":"@ + p2) + s6 =~= s0);
}

/// The artifact of a completed turn is read with the task, what the host made of the claim
/// and whether the work counts as verified.
#[verifier::spinoff_prover]
#[verifier::rlimit(60)]
pub proof fn completions_can_be_read(verified: bool, d: CompletionDecisionView, task: Seq<char>)
    ensures
        read_json(completion_artifact(verified, d, task)) is Some,
        spells(completion_artifact(verified, d, task), read_json(completion_artifact(verified, d, task))->0),
        ({
            let value = read_json(completion_artifact(verified, d, task))->0;
            &&& field(value, "business_verified"@) == Some(JsonValue::Truth(verified))
            &&& field(value, "task_id"@) == Some(JsonValue::Text(task))
            &&& field(value, "type"@) == Some(JsonValue::Text("reference_completion_v1"@))
            &&& field(value, "completion"@) matches Some(decision)
            &&& says_decision(decision, d)
        }),
{
    reveal_strlit("business_verified");
    reveal_strlit("completion");
    reveal_strlit("task_id");
    reveal_strlit("type");
    assert("business_verified"@.len() != "completion"@.len());
    assert("business_verified"@.len() != "task_id"@.len());
    assert("completion"@.len() != "task_id"@.len());
    assert("business_verified"@.len() != "type"@.len());
    assert("completion"@.len() != "type"@.len());
    assert("task_id"@.len() != "type"@.len());
    truth_is_spelled(verified);
    text_is_spelled(task);
    reveal_strlit("reference_completion_v1");
    plain_is_quoted("reference_completion_v1"@);
    decisions_can_be_read(d);
    let decision = read_json(decision_json_of(d))->0;
    let a4 = seq!['}'];
    let m4 = Seq::<Member>::empty();
    assert(follows_member(a4, m4));
    let x3 = seq!['"'] + "reference_completion_v1"@ + seq!['"'];
    let v3 = JsonValue::Text("reference_completion_v1"@);
    member_goes_before("type"@, x3, v3, a4, m4);
    let a3 = member_text("type"@, x3, a4);
    let m3 = seq![Member { key: "type"@, value: v3 }] + m4;
    let x2 = json_string(task);
    let v2 = JsonValue::Text(task);
    member_goes_before("task_id"@, x2, v2, a3, m3);
    let a2 = member_text("task_id"@, x2, a3);
    let m2 = seq![Member { key: "task_id"@, value: v2 }] + m3;
    let x1 = decision_json_of(d);
    let v1 = decision;
    member_goes_before("completion"@, x1, v1, a2, m2);
    let a1 = member_text("completion"@, x1, a2);
    let m1 = seq![Member { key: "completion"@, value: v1 }] + m2;
    let x0 = bool_text_of(verified);
    let v0 = JsonValue::Truth(verified);
    member_goes_before("business_verified"@, x0, v0, a1, m1);
    let a0 = member_text("business_verified"@, x0, a1);
    let m0 = seq![Member { key: "business_verified"@, value: v0 }] + m1;
    object_is_spelled(a0.skip(1), m0);
    completions_can_be_read_text(bool_text_of(verified), decision_json_of(d), json_string(task));
    spelled_is_read(completion_artifact(verified, d, task), JsonValue::Object(m0));
}

/// The value says which question waits, and where.
pub open spec fn says_question(value: JsonValue, p: PendingQuestionView) -> bool {
    &&& field(value, "agent_key"@) == Some(JsonValue::Text(p.agent_key))
    &&& field(value, "pending_question"@) == Some(JsonValue::Text(p.pending_question))
    &&& field(value, "session_id"@) == Some(JsonValue::Text(p.session_id))
    &&& field(value, "task_id"@) == Some(JsonValue::Text(p.task_id))
    &&& field(value, "turn_id"@) == Some(JsonValue::Text(p.turn_id))
    &&& field(value, "version"@) matches Some(JsonValue::Number(digits))
    &&& number_of(digits) == p.version as int
}

#[verifier::spinoff_prover]
#[verifier::rlimit(30)]
proof fn questions_can_be_read_text(
    p0: Seq<char>,
    p1: Seq<char>,
    p2: Seq<char>,
    p3: Seq<char>,
    p4: Seq<char>,
    p5: Seq<char>,
)
    ensures
        "{\"agent_key\":"@ + p0 + ",\"pending_question\":"@ + p1 + ",\"session_id\":"@ + p2 + ",\"task_id\":"@ + p3 + ",\"turn_id\":"@ + p4 + ",\"version\":"@ + p5 + "}"@ == seq!['{'] + member_text("agent_key"@, p0, member_text("pending_question"@, p1, member_text("session_id"@, p2, member_text("task_id"@, p3, member_text("turn_id"@, p4, member_text("version"@, p5, seq!['}'])))))).skip(1),
{
    reveal_strlit("agent_key");
    reveal_strlit("pending_question");
    reveal_strlit("session_id");
    reveal_strlit("task_id");
    reveal_strlit("turn_id");
    reveal_strlit("version");
    reveal_strlit("{\"agent_key\":");
    reveal_strlit(",\"pending_question\":");
    reveal_strlit(",\"session_id\":");
    reveal_strlit(",\"task_id\":");
    reveal_strlit(",\"turn_id\":");
    reveal_strlit(",\"version\":");
    reveal_strlit("}");
    let b6 = seq!['}'];
    let b5 = member_text("version"@, p5, b6);
    let b4 = member_text("turn_id"@, p4, b5);
    let b3 = member_text("task_id"@, p3, b4);
    let b2 = member_text("session_id"@, p2, b3);
    let b1 = member_text("pending_question"@, p1, b2);
    let b0 = member_text("agent_key"@, p0, b1);
    let s12 = "}"@;
    let s11 = p5 + s12;
    let s10 = ",\"version\":"@ + s11;
    let s9 = p4 + s10;
    let s8 = ",\"turn_id\":"@ + s9;
    let s7 = p3 + s8;
    let s6 = ",\"task_id\":"@ + s7;
    let s5 = p2 + s6;
    let s4 = ",\"session_id\":"@ + s5;
    let s3 = p1 + s4;
    let s2 = ",\"pending_question\":"@ + s3;
    let s1 = p0 + s2;
    let s0 = "{\"agent_key\":"@ + s1;
    assert(s12 =~= b6);
    assert(s10 =~= b5);
    assert(s8 =~= b4);
    assert(s6 =~= b3);
    assert(s4 =~= b2);
    assert(s2 =~= b1);
    assert(s0 =~= seq!['{'] + b0.skip(1));
    assert(("{\"agent_key\":"@ + p0) + s2 =~= s0);
    assert(("{\"agent_key\":"@ + p0 + ",\"pending_question\":"@) + s3 =~= s0);
    assert(("{\"agent_key\":"@ + p0 + ",\"pending_question\":"@ + p1) + s4 =~= s0);
    assert(("{\"agent_key\":"@ + p0 + ",\"pending_question\":"@ + p1 + ",\"session_id\":"@) + s5 =~= s0);
    assert(("{\"agent_key\":"@ + p0 + ",\"pending_question\":"@ + p1 + ",\"session_id\":"@ + p2) + s6 =~= s0);
    assert(("{\"agent_key\":"@ + p0 + ",\"pending_question\":"@ + p1 + ",\"session_id\":"@ + p2 + ",\"task_id\":"@) + s7 =~= s0);
    assert(("{\"agent_key\":"@ + p0 + ",\"pending_question\":"@ + p1 + ",\"session_id\":"@ + p2 + ",\"task_id\":"@ + p3) + s8 =~= s0);
    assert(("{\"agent_key\":"@ + p0 + ",\"pending_question\":"@ + p1 + ",\"session_id\":"@ + p2 + ",\"task_id\":"@ + p3 + ",\"turn_id\":"@) + s9 =~= s0);
    assert(("{\"agent_key\":"@ + p0 + ",\"pending_question\":"@ + p1 + ",\"session_id\":"@ + p2 + ",\"task_id\":"@ + p3 + ",\"turn_id\":"@ + p4) + s10 =~= s0);
    assert(("{\"agent_key\":"@ + p0 + ",\"pending_question\":"@ + p1 + ",\"session_id\":"@ + p2 + ",\"task_id\":"@ + p3 + ",\"turn_id\":"@ + p4 + ",\"version\":"@) + s11 =~= s0);
    assert(("{\"agent_key\":"@ + p0 + ",\"pending_question\":"@ + p1 + ",\"session_id\":"@ + p2 + ",\"task_id\":"@ + p3 + ",\"turn_id\":"@ + p4 + ",\"version\":"@ + p5) + s12 =~= s0);
}

/// A pending question is read with everything that it takes to answer it.
#[verifier::spinoff_prover]
#[verifier::rlimit(60)]
pub proof fn questions_can_be_read(p: PendingQuestionView)
    ensures
        read_json(pending_json_of(p)) is Some,
        spells(pending_json_of(p), read_json(pending_json_of(p))->0),
        ({
            let value = read_json(pending_json_of(p))->0;
            says_question(value, p)
        }),
{
    reveal_strlit("agent_key");
    reveal_strlit("pending_question");
    reveal_strlit("session_id");
    reveal_strlit("task_id");
    reveal_strlit("turn_id");
    reveal_strlit("version");
    assert("agent_key"@.len() != "pending_question"@.len());
    assert("agent_key"@.len() != "session_id"@.len());
    assert("pending_question"@.len() != "session_id"@.len());
    assert("agent_key"@.len() != "task_id"@.len());
    assert("pending_question"@.len() != "task_id"@.len());
    assert("session_id"@.len() != "task_id"@.len());
    assert("agent_key"@.len() != "turn_id"@.len());
    assert("pending_question"@.len() != "turn_id"@.len());
    assert("session_id"@.len() != "turn_id"@.len());
    assert("task_id"@[1] != "turn_id"@[1]);
    assert("agent_key"@.len() != "version"@.len());
    assert("pending_question"@.len() != "version"@.len());
    assert("session_id"@.len() != "version"@.len());
    assert("task_id"@[0] != "version"@[0]);
    assert("turn_id"@[0] != "version"@[0]);
    text_is_spelled(p.agent_key);
    text_is_spelled(p.pending_question);
    text_is_spelled(p.session_id);
    text_is_spelled(p.task_id);
    text_is_spelled(p.turn_id);
    number_is_spelled(p.version as nat);
    let a6 = seq!['}'];
    let m6 = Seq::<Member>::empty();
    assert(follows_member(a6, m6));
    let x5 = decimal(p.version as nat);
    let v5 = JsonValue::Number(decimal(p.version as nat));
    member_goes_before("version"@, x5, v5, a6, m6);
    let a5 = member_text("version"@, x5, a6);
    let m5 = seq![Member { key: "version"@, value: v5 }] + m6;
    let x4 = json_string(p.turn_id);
    let v4 = JsonValue::Text(p.turn_id);
    member_goes_before("turn_id"@, x4, v4, a5, m5);
    let a4 = member_text("turn_id"@, x4, a5);
    let m4 = seq![Member { key: "turn_id"@, value: v4 }] + m5;
    let x3 = json_string(p.task_id);
    let v3 = JsonValue::Text(p.task_id);
    member_goes_before("task_id"@, x3, v3, a4, m4);
    let a3 = member_text("task_id"@, x3, a4);
    let m3 = seq![Member { key: "task_id"@, value: v3 }] + m4;
    let x2 = json_string(p.session_id);
    let v2 = JsonValue::Text(p.session_id);
    member_goes_before("session_id"@, x2, v2, a3, m3);
    let a2 = member_text("session_id"@, x2, a3);
    let m2 = seq![Member { key: "session_id"@, value: v2 }] + m3;
    let x1 = json_string(p.pending_question);
    let v1 = JsonValue::Text(p.pending_question);
    member_goes_before("pending_question"@, x1, v1, a2, m2);
    let a1 = member_text("pending_question"@, x1, a2);
    let m1 = seq![Member { key: "pending_question"@, value: v1 }] + m2;
    let x0 = json_string(p.agent_key);
    let v0 = JsonValue::Text(p.agent_key);
    member_goes_before("agent_key"@, x0, v0, a1, m1);
    let a0 = member_text("agent_key"@, x0, a1);
    let m0 = seq![Member { key: "agent_key"@, value: v0 }] + m1;
    object_is_spelled(a0.skip(1), m0);
    questions_can_be_read_text(json_string(p.agent_key), json_string(p.pending_question), json_string(p.session_id), json_string(p.task_id), json_string(p.turn_id), decimal(p.version as nat));
    spelled_is_read(pending_json_of(p), JsonValue::Object(m0));
}

#[verifier::spinoff_prover]
#[verifier::rlimit(30)]
proof fn waiting_can_be_read_text(p0: Seq<char>, p1: Seq<char>, p2: Seq<char>, p3: Seq<char>)
    ensures
        "{\"pending\":"@ + p0 + ",\"pending_question\":"@ + p1 + ",\"task_id\":"@ + p2 + ",\"turn_id\":"@ + p3 + ",\"type\":\"reference_waiting_v1\"}"@ == seq!['{'] + member_text("pending"@, p0, member_text("pending_question"@, p1, member_text("task_id"@, p2, member_text("turn_id"@, p3, member_text("type"@, (seq!['"'] + "reference_waiting_v1"@ + seq!['"']), seq!['}']))))).skip(1),
{
    reveal_strlit("pending");
    reveal_strlit("pending_question");
    reveal_strlit("task_id");
    reveal_strlit("turn_id");
    reveal_strlit("type");
    reveal_strlit("reference_waiting_v1");
    reveal_strlit("{\"pending\":");
    reveal_strlit(",\"pending_question\":");
    reveal_strlit(",\"task_id\":");
    reveal_strlit(",\"turn_id\":");
    reveal_strlit(",\"type\":\"reference_waiting_v1\"}");
    let b5 = seq!['}'];
    let b4 = member_text("type"@, (seq!['"'] + "reference_waiting_v1"@ + seq!['"']), b5);
    let b3 = member_text("turn_id"@, p3, b4);
    let b2 = member_text("task_id"@, p2, b3);
    let b1 = member_text("pending_question"@, p1, b2);
    let b0 = member_text("pending"@, p0, b1);
    let s8 = ",\"type\":\"reference_waiting_v1\"}"@;
    let s7 = p3 + s8;
    let s6 = ",\"turn_id\":"@ + s7;
    let s5 = p2 + s6;
    let s4 = ",\"task_id\":"@ + s5;
    let s3 = p1 + s4;
    let s2 = ",\"pending_question\":"@ + s3;
    let s1 = p0 + s2;
    let s0 = "{\"pending\":"@ + s1;
    assert(s8 =~= b4);
    assert(s6 =~= b3);
    assert(s4 =~= b2);
    assert(s2 =~= b1);
    assert(s0 =~= seq!['{'] + b0.skip(1));
    assert(("{\"pending\":"@ + p0) + s2 =~= s0);
    assert(("{\"pending\":"@ + p0 + ",\"pending_question\":"@) + s3 =~= s0);
    assert(("{\"pending\":"@ + p0 + ",\"pending_question\":"@ + p1) + s4 =~= s0);
    assert(("{\"pending\":"@ + p0 + ",\"pending_question\":"@ + p1 + ",\"task_id\":"@) + s5 =~= s0);
    assert(("{\"pending\":"@ + p0 + ",\"pending_question\":"@ + p1 + ",\"task_id\":"@ + p2) + s6 =~= s0);
    assert(("{\"pending\":"@ + p0 + ",\"pending_question\":"@ + p1 + ",\"task_id\":"@ + p2 + ",\"turn_id\":"@) + s7 =~= s0);
    assert(("{\"pending\":"@ + p0 + ",\"pending_question\":"@ + p1 + ",\"task_id\":"@ + p2 + ",\"turn_id\":"@ + p3) + s8 =~= s0);
}

/// The artifact of a turn that waits is read with its question, whole and in its parts.
#[verifier::spinoff_prover]
#[verifier::rlimit(60)]
pub proof fn waiting_can_be_read(p: PendingQuestionView)
    ensures
        read_json(waiting_artifact(p)) is Some,
        spells(waiting_artifact(p), read_json(waiting_artifact(p))->0),
        ({
            let value = read_json(waiting_artifact(p))->0;
            &&& field(value, "pending_question"@) == Some(JsonValue::Text(p.pending_question))
            &&& field(value, "task_id"@) == Some(JsonValue::Text(p.task_id))
            &&& field(value, "turn_id"@) == Some(JsonValue::Text(p.turn_id))
            &&& field(value, "type"@) == Some(JsonValue::Text("reference_waiting_v1"@))
            &&& field(value, "pending"@) matches Some(pending)
            &&& says_question(pending, p)
        }),
{
    reveal_strlit("pending");
    reveal_strlit("pending_question");
    reveal_strlit("task_id");
    reveal_strlit("turn_id");
    reveal_strlit("type");
    assert("pending"@.len() != "pending_question"@.len());
    assert("pending"@[0] != "task_id"@[0]);
    assert("pending_question"@.len() != "task_id"@.len());
    assert("pending"@[0] != "turn_id"@[0]);
    assert("pending_question"@.len() != "turn_id"@.len());
    assert("task_id"@[1] != "turn_id"@[1]);
    assert("pending"@.len() != "type"@.len());
    assert("pending_question"@.len() != "type"@.len());
    assert("task_id"@.len() != "type"@.len());
    assert("turn_id"@.len() != "type"@.len());
    text_is_spelled(p.pending_question);
    text_is_spelled(p.task_id);
    text_is_spelled(p.turn_id);
    reveal_strlit("reference_waiting_v1");
    plain_is_quoted("reference_waiting_v1"@);
    questions_can_be_read(p);
    let pending = read_json(pending_json_of(p))->0;
    let a5 = seq!['}'];
    let m5 = Seq::<Member>::empty();
    assert(follows_member(a5, m5));
    let x4 = seq!['"'] + "reference_waiting_v1"@ + seq!['"'];
    let v4 = JsonValue::Text("reference_waiting_v1"@);
    member_goes_before("type"@, x4, v4, a5, m5);
    let a4 = member_text("type"@, x4, a5);
    let m4 = seq![Member { key: "type"@, value: v4 }] + m5;
    let x3 = json_string(p.turn_id);
    let v3 = JsonValue::Text(p.turn_id);
    member_goes_before("turn_id"@, x3, v3, a4, m4);
    let a3 = member_text("turn_id"@, x3, a4);
    let m3 = seq![Member { key: "turn_id"@, value: v3 }] + m4;
    let x2 = json_string(p.task_id);
    let v2 = JsonValue::Text(p.task_id);
    member_goes_before("task_id"@, x2, v2, a3, m3);
    let a2 = member_text("task_id"@, x2, a3);
    let m2 = seq![Member { key: "task_id"@, value: v2 }] + m3;
    let x1 = json_string(p.pending_question);
    let v1 = JsonValue::Text(p.pending_question);
    member_goes_before("pending_question"@, x1, v1, a2, m2);
    let a1 = member_text("pending_question"@, x1, a2);
    let m1 = seq![Member { key: "pending_question"@, value: v1 }] + m2;
    let x0 = pending_json_of(p);
    let v0 = pending;
    member_goes_before("pending"@, x0, v0, a1, m1);
    let a0 = member_text("pending"@, x0, a1);
    let m0 = seq![Member { key: "pending"@, value: v0 }] + m1;
    object_is_spelled(a0.skip(1), m0);
    waiting_can_be_read_text(pending_json_of(p), json_string(p.pending_question), json_string(p.task_id), json_string(p.turn_id));
    spelled_is_read(waiting_artifact(p), JsonValue::Object(m0));
}

/// An observation is read as its four parts: tool, arguments, outcome and host state. Two
/// observations are the same text only where all of these are the same.
#[verifier::spinoff_prover]
#[verifier::rlimit(60)]
pub proof fn observations_can_be_read(
    name: Seq<char>,
    arguments: Seq<char>,
    outcome: ToolRecordedOutcomeView,
    state: Option<Seq<char>>,
)
    requires
        read_json(arguments) is Some,
        arguments[0] != ']',
    ensures
        read_json(observation_of(name, arguments, outcome, state)) matches Some(JsonValue::List(items))
            && items.len() == 4 && items[0] == JsonValue::Text(name) && Some(items[1]) == read_json(
            arguments,
        ) && says_recorded(items[2], outcome) && items[3] == match state {
            Some(version) => JsonValue::Text(version),
            None => JsonValue::Null,
        },
{
    reveal_strlit("[");
    reveal_strlit(",");
    reveal_strlit("]");
    reveal_strlit("null");
    let last = match state {
        Some(version) => json_string(version),
        None => "null"@,
    };
    let seen = match state {
        Some(version) => JsonValue::Text(version),
        None => JsonValue::Null,
    };
    match state {
        Some(version) => text_is_spelled(version),
        None => null_is_spelled(),
    }
    text_is_spelled(name);
    read_is_spelled(arguments);
    recorded_outcomes_can_be_read(outcome);
    reveal_strlit("{\"status\":\"succeeded\",\"output\":");
    reveal_strlit("{\"status\":\"failed\",\"category\":\"");
    let told = outcome_json_of(outcome);
    assert(told[0] == '{');
    let texts = seq![json_string(name), arguments, told, last];
    let items = seq![JsonValue::Text(name), read_json(arguments)->0, read_json(told)->0, seen];
    assert forall|i: int| 0 <= i < texts.len() implies spells(#[trigger] texts[i], items[i])
        && texts[i].len() > 0 && texts[i][0] != ']' by {
        assert(i == 0 || i == 1 || i == 2 || i == 3);
    }
    joined_is_spelled(texts, items);
    reveal_with_fuel(joined, 5);
    let three = texts.drop_last();
    let two = three.drop_last();
    let one = two.drop_last();
    assert(joined(one) == json_string(name));
    assert(joined(two) == json_string(name) + seq![','] + arguments);
    assert(joined(three) == joined(two) + seq![','] + told);
    assert(joined(texts) == joined(three) + seq![','] + last);
    assert(","@ =~= seq![',']);
    assert("["@ =~= seq!['[']);
    assert("]"@ =~= seq![']']);
    assert(observation_of(name, arguments, outcome, state) =~= seq!['['] + (joined(texts) + seq![']']));
    spelled_is_read(observation_of(name, arguments, outcome, state), JsonValue::List(items));
}

/// A correction is offered only for a proposal that no tool has run for, and for the
/// reason for which it was turned down. What a runtime refused, what was cancelled and
/// what a tool failed at is never tried again.
pub proof fn corrections_never_repeat_work(
    error: ContextActionError,
    parsed: Option<Result<AgentAction, ActionError>>,
)
    ensures
        correctable(error, parsed) matches Some(reason) ==> {
            &&& error matches ContextActionError::Action { error: failed, tools, .. }
            &&& failed.completed_execution is None
            &&& !(failed.failure is Tool) && !(failed.failure is Cancelled)
            &&& failed.failure matches ActionStepFailure::Validation(fault) ==> {
                &&& reason == CorrectionReason::InvalidFormat <==> fault == ActionError::InvalidAction
                &&& reason == CorrectionReason::EmptyText <==> fault == ActionError::EmptyText
                &&& reason == CorrectionReason::MultipleActions <==> fault
                    == ActionError::MultipleActions
                &&& reason == CorrectionReason::InvalidArguments <==> fault
                    == ActionError::InvalidArguments
            }
            &&& failed.failure matches ActionStepFailure::Model(fault) ==> {
                ||| fault is SchemaRejected && (match parsed {
                    Some(Ok(AgentAction::CallTool { name, .. })) => reason
                        == CorrectionReason::InvalidArguments && has_tool(tools@.tools, name@),
                    Some(Err(ActionError::EmptyText)) => reason == CorrectionReason::EmptyText,
                    Some(Err(ActionError::InvalidAction)) => reason
                        == CorrectionReason::InvalidFormat,
                    _ => false,
                })
                ||| (fault matches ModelGatewayError::Model(
                    LlmError::Protocol(ModelProtocolError::InvalidJsonOutput),
                )) && reason == CorrectionReason::InvalidFormat
            }
        },
        (error matches ContextActionError::Action { error: failed, .. } && failed.completed_execution
            is None && (failed.failure matches ActionStepFailure::Validation(fault) && (fault
            == ActionError::InvalidAction || fault == ActionError::EmptyText || fault
            == ActionError::MultipleActions || fault == ActionError::InvalidArguments)))
            ==> correctable(error, parsed) is Some,
{
}

/// A failed step ends its run for what it failed at: a budget that stopped the work, a
/// cancellation and a failure of the runtimes are told apart, and the runtimes' own
/// failures are handed on as they are.
pub proof fn failed_steps_say_why(error: ContextActionError, stop: ReferenceStop, failure: AgentError)
    requires
        fails_as(error, stop, failure),
    ensures
        match error {
            ContextActionError::Action { error: failed, .. } => match failed.failure {
                ActionStepFailure::Cancelled => stop == ReferenceStop::Cancelled && failure
                    == AgentError::Cancelled,
                ActionStepFailure::Model(e) => {
                    &&& failure == AgentError::Model(e)
                    &&& stop == ReferenceStop::BudgetExhausted <==> (e matches ModelGatewayError::Runtime(
                        ModelRuntimeError::Budget(_),
                    ))
                    &&& stop == ReferenceStop::Cancelled <==> e == ModelGatewayError::Model(
                        LlmError::Cancelled,
                    )
                },
                ActionStepFailure::Tool(e) => {
                    &&& failure == AgentError::Tool(e)
                    &&& stop == ReferenceStop::BudgetExhausted <==> e is Budget
                    &&& stop == ReferenceStop::Cancelled <==> e is Cancelled
                },
                ActionStepFailure::Validation(_) => stop == ReferenceStop::InvalidAction,
            },
            ContextActionError::ResultView { .. } => stop == ReferenceStop::ResultViewFailed,
            ContextActionError::Build(_) => stop == ReferenceStop::ContextRejected,
            ContextActionError::View(_) => stop == ReferenceStop::PolicyRejected,
            _ => stop == ReferenceStop::InvalidAction,
        },
        stop != ReferenceStop::ModelClaimedComplete && stop != ReferenceStop::BusinessVerified && stop
            != ReferenceStop::WaitingForInput,
        failure matches AgentError::Failed(f) ==> !f.retryable,
{
}

/// A tool's own threshold holds where it has one, the first of several, and the general
/// one everywhere else.
pub proof fn thresholds_are_the_tools_own(limits: Seq<PollingLimit>, name: Seq<char>, general: u32, i: int)
    requires
        0 <= i <= limits.len(),
        forall|j: int| 0 <= j < i ==> (#[trigger] limits[j]).name@ != name,
        i < limits.len() ==> limits[i].name@ == name,
    ensures
        limit_from(limits, name, 0, general) == if i < limits.len() {
            limits[i].limit
        } else {
            general
        },
{
    threshold_is_found(limits, name, general, i, 0);
}

proof fn threshold_is_found(limits: Seq<PollingLimit>, name: Seq<char>, general: u32, i: int, k: int)
    requires
        0 <= k <= i <= limits.len(),
        forall|j: int| 0 <= j < i ==> (#[trigger] limits[j]).name@ != name,
        i < limits.len() ==> limits[i].name@ == name,
    ensures
        limit_from(limits, name, k, general) == if i < limits.len() {
            limits[i].limit
        } else {
            general
        },
    decreases i - k,
{
    if k < i {
        assert(limits[k].name@ != name);
        threshold_is_found(limits, name, general, i, k + 1);
    }
}

/// The same observation in a row is counted, another one starts anew, and the run ends
/// where the count reaches the threshold of the tool.
pub proof fn repetitions_are_counted(
    before: DriveView,
    name: Seq<char>,
    seen: Seq<char>,
    policy: ProgressPolicy,
    next_current: Seq<ModelMessageView>,
    after: DriveView,
    result: Result<(), AgentError>,
)
    requires
        before.wf(),
        before.run.repeated_observations < before.ordinal,
        observes(before, name, seen, policy, next_current, after, result),
        byte_len(seen) <= policy.max_observation_bytes,
    ensures
        after.previous == Some(seen),
        before.previous == Some(seen) ==> after.run.repeated_observations
            == before.run.repeated_observations + 1,
        before.previous != Some(seen) ==> after.run.repeated_observations == 1,
        result is Err <==> after.run.repeated_observations >= limit_from(
            policy.polling_limits@,
            name,
            0,
            policy.max_repetitions,
        ),
        result is Err ==> after.run.stop == ReferenceStop::NoProgress && after.current == before.current,
        result is Ok ==> after.run.stop == before.run.stop && after.current == next_current,
        after.run.confirmed_steps == before.run.confirmed_steps,
        after.run.corrections == before.run.corrections,
{
}

} // verus!
