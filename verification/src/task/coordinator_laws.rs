//! What a continued task is told, as whoever reads it finds it.

use crate::agent::waiting::reply_text;
use crate::json::json_string;
use crate::json_reading::{
    field, follows_member, member_goes_before, member_text, null_is_spelled, object_is_spelled, plain_is_quoted,
    read_json, spelled_is_read, spells, text_is_spelled, JsonValue, Member,
};
use crate::task::coordinator::{message_of, IntentView};
use crate::task::snapshot::SnapshotView;
use crate::text::is_bounded_text;
use vstd::prelude::*;

verus! {

#[verifier::spinoff_prover]
#[verifier::rlimit(30)]
proof fn replies_can_be_read_text(p0: Seq<char>, p1: Seq<char>, p2: Seq<char>)
    ensures
        "{\"answer\":"@ + p0 + ",\"reply_to\":"@ + p1 + ",\"task_id\":"@ + p2 + ",\"type\":\"reference_reply_v1\"}"@ == seq!['{'] + member_text("answer"@, p0, member_text("reply_to"@, p1, member_text("task_id"@, p2, member_text("type"@, (seq!['"'] + "reference_reply_v1"@ + seq!['"']), seq!['}'])))).skip(1),
{
    reveal_strlit("answer");
    reveal_strlit("reply_to");
    reveal_strlit("task_id");
    reveal_strlit("type");
    reveal_strlit("reference_reply_v1");
    reveal_strlit("{\"answer\":");
    reveal_strlit(",\"reply_to\":");
    reveal_strlit(",\"task_id\":");
    reveal_strlit(",\"type\":\"reference_reply_v1\"}");
    let b4 = seq!['}'];
    let b3 = member_text("type"@, (seq!['"'] + "reference_reply_v1"@ + seq!['"']), b4);
    let b2 = member_text("task_id"@, p2, b3);
    let b1 = member_text("reply_to"@, p1, b2);
    let b0 = member_text("answer"@, p0, b1);
    let s6 = ",\"type\":\"reference_reply_v1\"}"@;
    let s5 = p2 + s6;
    let s4 = ",\"task_id\":"@ + s5;
    let s3 = p1 + s4;
    let s2 = ",\"reply_to\":"@ + s3;
    let s1 = p0 + s2;
    let s0 = "{\"answer\":"@ + s1;
    assert(s6 =~= b3);
    assert(s4 =~= b2);
    assert(s2 =~= b1);
    assert(s0 =~= seq!['{'] + b0.skip(1));
    assert(("{\"answer\":"@ + p0) + s2 =~= s0);
    assert(("{\"answer\":"@ + p0 + ",\"reply_to\":"@) + s3 =~= s0);
    assert(("{\"answer\":"@ + p0 + ",\"reply_to\":"@ + p1) + s4 =~= s0);
    assert(("{\"answer\":"@ + p0 + ",\"reply_to\":"@ + p1 + ",\"task_id\":"@) + s5 =~= s0);
    assert(("{\"answer\":"@ + p0 + ",\"reply_to\":"@ + p1 + ",\"task_id\":"@ + p2) + s6 =~= s0);
}

/// A reply is read with the answer, the turn that it answers and the task.
#[verifier::spinoff_prover]
#[verifier::rlimit(40)]
pub proof fn replies_can_be_read(answer: Seq<char>, turn: Seq<char>, task: Seq<char>)
    ensures
        read_json(reply_text(answer, turn, task)) is Some,
        spells(reply_text(answer, turn, task), read_json(reply_text(answer, turn, task))->0),
        ({
            let value = read_json(reply_text(answer, turn, task))->0;
            &&& field(value, "answer"@) == Some(JsonValue::Text(answer))
            &&& field(value, "reply_to"@) == Some(JsonValue::Text(turn))
            &&& field(value, "task_id"@) == Some(JsonValue::Text(task))
            &&& field(value, "type"@) == Some(JsonValue::Text("reference_reply_v1"@))
        }),
{
    reveal_strlit("answer");
    reveal_strlit("reply_to");
    reveal_strlit("task_id");
    reveal_strlit("type");
    assert("answer"@.len() != "reply_to"@.len());
    assert("answer"@.len() != "task_id"@.len());
    assert("reply_to"@.len() != "task_id"@.len());
    assert("answer"@.len() != "type"@.len());
    assert("reply_to"@.len() != "type"@.len());
    assert("task_id"@.len() != "type"@.len());
    text_is_spelled(answer);
    text_is_spelled(turn);
    text_is_spelled(task);
    reveal_strlit("reference_reply_v1");
    plain_is_quoted("reference_reply_v1"@);
    let a4 = seq!['}'];
    let m4 = Seq::<Member>::empty();
    assert(follows_member(a4, m4));
    let x3 = seq!['"'] + "reference_reply_v1"@ + seq!['"'];
    let v3 = JsonValue::Text("reference_reply_v1"@);
    member_goes_before("type"@, x3, v3, a4, m4);
    let a3 = member_text("type"@, x3, a4);
    let m3 = seq![Member { key: "type"@, value: v3 }] + m4;
    let x2 = json_string(task);
    let v2 = JsonValue::Text(task);
    member_goes_before("task_id"@, x2, v2, a3, m3);
    let a2 = member_text("task_id"@, x2, a3);
    let m2 = seq![Member { key: "task_id"@, value: v2 }] + m3;
    let x1 = json_string(turn);
    let v1 = JsonValue::Text(turn);
    member_goes_before("reply_to"@, x1, v1, a2, m2);
    let a1 = member_text("reply_to"@, x1, a2);
    let m1 = seq![Member { key: "reply_to"@, value: v1 }] + m2;
    let x0 = json_string(answer);
    let v0 = JsonValue::Text(answer);
    member_goes_before("answer"@, x0, v0, a1, m1);
    let a0 = member_text("answer"@, x0, a1);
    let m0 = seq![Member { key: "answer"@, value: v0 }] + m1;
    object_is_spelled(a0.skip(1), m0);
    replies_can_be_read_text(json_string(answer), json_string(turn), json_string(task));
    spelled_is_read(reply_text(answer, turn, task), JsonValue::Object(m0));
}

spec fn continuation(turn: Option<Seq<char>>, instruction: Seq<char>, task: Seq<char>) -> Seq<char> {
    "{\"checkpoint_turn\":"@ + (match turn {
        Some(turn) => json_string(turn),
        None => "null"@,
    }) + ",\"instruction\":"@ + json_string(instruction) + ",\"task_id\":"@ + json_string(task)
        + ",\"type\":\"task_continue_v1\"}"@
}

spec fn turn_text(turn: Option<Seq<char>>) -> Seq<char> {
    match turn {
        Some(turn) => json_string(turn),
        None => "null"@,
    }
}

spec fn turn_value(turn: Option<Seq<char>>) -> JsonValue {
    match turn {
        Some(turn) => JsonValue::Text(turn),
        None => JsonValue::Null,
    }
}

proof fn turn_is_spelled(turn: Option<Seq<char>>)
    ensures
        spells(turn_text(turn), turn_value(turn)),
{
    match turn {
        Some(turn) => text_is_spelled(turn),
        None => null_is_spelled(),
    }
}

#[verifier::spinoff_prover]
#[verifier::rlimit(30)]
proof fn continuation_can_be_read_text(p0: Seq<char>, p1: Seq<char>, p2: Seq<char>)
    ensures
        "{\"checkpoint_turn\":"@ + p0 + ",\"instruction\":"@ + p1 + ",\"task_id\":"@ + p2 + ",\"type\":\"task_continue_v1\"}"@ == seq!['{'] + member_text("checkpoint_turn"@, p0, member_text("instruction"@, p1, member_text("task_id"@, p2, member_text("type"@, (seq!['"'] + "task_continue_v1"@ + seq!['"']), seq!['}'])))).skip(1),
{
    reveal_strlit("checkpoint_turn");
    reveal_strlit("instruction");
    reveal_strlit("task_id");
    reveal_strlit("type");
    reveal_strlit("task_continue_v1");
    reveal_strlit("{\"checkpoint_turn\":");
    reveal_strlit(",\"instruction\":");
    reveal_strlit(",\"task_id\":");
    reveal_strlit(",\"type\":\"task_continue_v1\"}");
    let b4 = seq!['}'];
    let b3 = member_text("type"@, (seq!['"'] + "task_continue_v1"@ + seq!['"']), b4);
    let b2 = member_text("task_id"@, p2, b3);
    let b1 = member_text("instruction"@, p1, b2);
    let b0 = member_text("checkpoint_turn"@, p0, b1);
    let s6 = ",\"type\":\"task_continue_v1\"}"@;
    let s5 = p2 + s6;
    let s4 = ",\"task_id\":"@ + s5;
    let s3 = p1 + s4;
    let s2 = ",\"instruction\":"@ + s3;
    let s1 = p0 + s2;
    let s0 = "{\"checkpoint_turn\":"@ + s1;
    assert(s6 =~= b3);
    assert(s4 =~= b2);
    assert(s2 =~= b1);
    assert(s0 =~= seq!['{'] + b0.skip(1));
    assert(("{\"checkpoint_turn\":"@ + p0) + s2 =~= s0);
    assert(("{\"checkpoint_turn\":"@ + p0 + ",\"instruction\":"@) + s3 =~= s0);
    assert(("{\"checkpoint_turn\":"@ + p0 + ",\"instruction\":"@ + p1) + s4 =~= s0);
    assert(("{\"checkpoint_turn\":"@ + p0 + ",\"instruction\":"@ + p1 + ",\"task_id\":"@) + s5 =~= s0);
    assert(("{\"checkpoint_turn\":"@ + p0 + ",\"instruction\":"@ + p1 + ",\"task_id\":"@ + p2) + s6 =~= s0);
}

/// A continuation.
#[verifier::spinoff_prover]
#[verifier::rlimit(40)]
proof fn continuation_can_be_read(turn: Option<Seq<char>>, instruction: Seq<char>, task: Seq<char>)
    ensures
        read_json(continuation(turn, instruction, task)) is Some,
        spells(continuation(turn, instruction, task), read_json(continuation(turn, instruction, task))->0),
        ({
            let value = read_json(continuation(turn, instruction, task))->0;
            &&& field(value, "checkpoint_turn"@) == Some(turn_value(turn))
            &&& field(value, "instruction"@) == Some(JsonValue::Text(instruction))
            &&& field(value, "task_id"@) == Some(JsonValue::Text(task))
            &&& field(value, "type"@) == Some(JsonValue::Text("task_continue_v1"@))
        }),
{
    reveal_strlit("checkpoint_turn");
    reveal_strlit("instruction");
    reveal_strlit("task_id");
    reveal_strlit("type");
    assert("checkpoint_turn"@.len() != "instruction"@.len());
    assert("checkpoint_turn"@.len() != "task_id"@.len());
    assert("instruction"@.len() != "task_id"@.len());
    assert("checkpoint_turn"@.len() != "type"@.len());
    assert("instruction"@.len() != "type"@.len());
    assert("task_id"@.len() != "type"@.len());
    text_is_spelled(instruction);
    text_is_spelled(task);
    reveal_strlit("task_continue_v1");
    plain_is_quoted("task_continue_v1"@);
    turn_is_spelled(turn);
    let a4 = seq!['}'];
    let m4 = Seq::<Member>::empty();
    assert(follows_member(a4, m4));
    let x3 = seq!['"'] + "task_continue_v1"@ + seq!['"'];
    let v3 = JsonValue::Text("task_continue_v1"@);
    member_goes_before("type"@, x3, v3, a4, m4);
    let a3 = member_text("type"@, x3, a4);
    let m3 = seq![Member { key: "type"@, value: v3 }] + m4;
    let x2 = json_string(task);
    let v2 = JsonValue::Text(task);
    member_goes_before("task_id"@, x2, v2, a3, m3);
    let a2 = member_text("task_id"@, x2, a3);
    let m2 = seq![Member { key: "task_id"@, value: v2 }] + m3;
    let x1 = json_string(instruction);
    let v1 = JsonValue::Text(instruction);
    member_goes_before("instruction"@, x1, v1, a2, m2);
    let a1 = member_text("instruction"@, x1, a2);
    let m1 = seq![Member { key: "instruction"@, value: v1 }] + m2;
    let x0 = turn_text(turn);
    let v0 = turn_value(turn);
    member_goes_before("checkpoint_turn"@, x0, v0, a1, m1);
    let a0 = member_text("checkpoint_turn"@, x0, a1);
    let m0 = seq![Member { key: "checkpoint_turn"@, value: v0 }] + m1;
    object_is_spelled(a0.skip(1), m0);
    continuation_can_be_read_text(turn_text(turn), json_string(instruction), json_string(task));
    spelled_is_read(continuation(turn, instruction, task), JsonValue::Object(m0));
}

/// A task is continued exactly where the intent fits its phase: a new task is started, a
/// finished one gets another instruction, one that waits gets a reply to the turn that
/// waits. What the agent then reads says the words of the user, the task and the turn
/// that they go to; a first message is handed on as it is.
pub proof fn continuations_say_what_the_user_said(snapshot: SnapshotView, intent: IntentView)
    ensures
        ({
            let told = message_of(snapshot, intent);
            match intent {
                IntentView::Start { message } => {
                    &&& told is Some <==> snapshot.phase is Created && is_bounded_text(message, 65_536)
                    &&& told is Some ==> told->0 == message
                },
                IntentView::Continue { instruction } => {
                    &&& told is Some <==> snapshot.phase is Completed && is_bounded_text(
                        instruction,
                        65_536,
                    )
                    &&& told is Some ==> {
                        &&& read_json(told->0) matches Some(value)
                        &&& field(value, "instruction"@) == Some(JsonValue::Text(instruction))
                        &&& field(value, "task_id"@) == Some(JsonValue::Text(snapshot.identity.task))
                        &&& field(value, "type"@) == Some(JsonValue::Text("task_continue_v1"@))
                        &&& field(value, "checkpoint_turn"@) == Some(
                            match snapshot.cursor {
                                Some(cursor) => JsonValue::Text(cursor.turn),
                                None => JsonValue::Null,
                            },
                        )
                    }
                },
                IntentView::Reply { reply_to, answer } => {
                    &&& told is Some <==> snapshot.phase is WaitingForInput && snapshot.cursor is Some
                        && snapshot.cursor->0.turn == reply_to && is_bounded_text(answer, 65_536)
                    &&& told is Some ==> {
                        &&& read_json(told->0) matches Some(value)
                        &&& field(value, "answer"@) == Some(JsonValue::Text(answer))
                        &&& field(value, "reply_to"@) == Some(JsonValue::Text(reply_to))
                        &&& field(value, "task_id"@) == Some(JsonValue::Text(snapshot.identity.task))
                        &&& field(value, "type"@) == Some(JsonValue::Text("reference_reply_v1"@))
                    }
                },
            }
        }),
{
    match intent {
        IntentView::Start { .. } => {},
        IntentView::Continue { instruction } => {
            let turn = match snapshot.cursor {
                Some(cursor) => Some(cursor.turn),
                None => None,
            };
            continuation_can_be_read(turn, instruction, snapshot.identity.task);
            if message_of(snapshot, intent) is Some {
                assert(message_of(snapshot, intent)->0 == continuation(
                    turn,
                    instruction,
                    snapshot.identity.task,
                ));
            }
        },
        IntentView::Reply { reply_to, answer } => {
            replies_can_be_read(answer, reply_to, snapshot.identity.task);
        },
    }
}

} // verus!
