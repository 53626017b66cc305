//! What a request says to whoever reads it.

use crate::generation::{
    FinishReasonView, GenerationConstraintView, GenerationDeltaView, GenerationRequestView, ModelMessageView,
    ModelToolCallView, ModelToolDefinitionView, ToolChoiceView,
};
use crate::json::{decimal, json_string};
use crate::json_reading::{
    field, follows_member, joined, joined_is_spelled, member_goes_before, member_text, named, null_is_spelled,
    number_is_spelled, number_of, object_is_spelled, plain_is_quoted, read_is_spelled, read_json, spelled_is_read,
    spells, text_is_spelled, truth_is_spelled, JsonValue, Member,
};
use crate::llm::wire::{
    bad_call, call_deltas, call_json, calls_json, choice_json, message_json, messages_json, plans, reason_of,
    request_json, text_deltas, tool_json, tools_json, CompletionPlan, WireCall, WireChoice,
};
use crate::session::outcome_text::bool_text_of;
use vstd::prelude::*;

verus! {

spec fn call_function_json(call: ModelToolCallView) -> Seq<char> {
    "{\"arguments\":"@ + json_string(call.arguments) + ",\"name\":"@ + json_string(call.name) + "}"@
}

/// The function of a call.
#[verifier::spinoff_prover]
proof fn call_function_can_be_read(call: ModelToolCallView)
    ensures
        read_json(call_function_json(call)) is Some,
        spells(call_function_json(call), read_json(call_function_json(call))->0),
        ({
            let value = read_json(call_function_json(call))->0;
            &&& field(value, "arguments"@) == Some(JsonValue::Text(call.arguments))
            &&& field(value, "name"@) == Some(JsonValue::Text(call.name))
        }),
{
    reveal_strlit("arguments");
    reveal_strlit("name");
    reveal_strlit("{\"arguments\":");
    reveal_strlit(",\"name\":");
    reveal_strlit("}");
    assert("arguments"@.len() != "name"@.len());
    text_is_spelled(call.arguments);
    text_is_spelled(call.name);
    let a2 = seq!['}'];
    let m2 = Seq::<Member>::empty();
    assert(follows_member(a2, m2));
    let x1 = json_string(call.name);
    let v1 = JsonValue::Text(call.name);
    member_goes_before("name"@, x1, v1, a2, m2);
    let a1 = member_text("name"@, x1, a2);
    let m1 = seq![Member { key: "name"@, value: v1 }] + m2;
    let x0 = json_string(call.arguments);
    let v0 = JsonValue::Text(call.arguments);
    member_goes_before("arguments"@, x0, v0, a1, m1);
    let a0 = member_text("arguments"@, x0, a1);
    let m0 = seq![Member { key: "arguments"@, value: v0 }] + m1;
    object_is_spelled(a0.skip(1), m0);
    assert(call_function_json(call) =~= seq!['{'] + a0.skip(1));
    spelled_is_read(call_function_json(call), JsonValue::Object(m0));
}

/// Whoever reads a proposed call finds its name, its arguments and its identity, each under
/// its own name.
#[verifier::spinoff_prover]
pub proof fn calls_can_be_read(call: ModelToolCallView)
    ensures
        read_json(call_json(call)) is Some,
        spells(call_json(call), read_json(call_json(call))->0),
        ({
            let value = read_json(call_json(call))->0;
            &&& field(value, "function"@) matches Some(function)
            &&& field(function, "name"@) == Some(JsonValue::Text(call.name))
            &&& field(function, "arguments"@) == Some(JsonValue::Text(call.arguments))
            &&& field(value, "id"@) == Some(JsonValue::Text(call.id))
            &&& field(value, "type"@) == Some(JsonValue::Text("function"@))
        }),
{
    reveal_strlit("function");
    reveal_strlit("id");
    reveal_strlit("type");
    reveal_strlit("{\"function\":{\"arguments\":");
    reveal_strlit("{\"arguments\":");
    reveal_strlit(",\"name\":");
    reveal_strlit("},\"id\":");
    reveal_strlit("}");
    reveal_strlit(",\"type\":\"function\"}");
    assert("function"@.len() != "id"@.len());
    assert("function"@.len() != "type"@.len());
    assert("id"@.len() != "type"@.len());
    text_is_spelled(call.id);
    reveal_strlit("function");
    plain_is_quoted("function"@);
    call_function_can_be_read(call);
    let function = read_json(call_function_json(call))->0;
    let a3 = seq!['}'];
    let m3 = Seq::<Member>::empty();
    assert(follows_member(a3, m3));
    let x2 = seq!['"'] + "function"@ + seq!['"'];
    let v2 = JsonValue::Text("function"@);
    member_goes_before("type"@, x2, v2, a3, m3);
    let a2 = member_text("type"@, x2, a3);
    let m2 = seq![Member { key: "type"@, value: v2 }] + m3;
    let x1 = json_string(call.id);
    let v1 = JsonValue::Text(call.id);
    member_goes_before("id"@, x1, v1, a2, m2);
    let a1 = member_text("id"@, x1, a2);
    let m1 = seq![Member { key: "id"@, value: v1 }] + m2;
    let x0 = call_function_json(call);
    let v0 = function;
    member_goes_before("function"@, x0, v0, a1, m1);
    let a0 = member_text("function"@, x0, a1);
    let m0 = seq![Member { key: "function"@, value: v0 }] + m1;
    object_is_spelled(a0.skip(1), m0);
    assert(call_json(call) =~= seq!['{'] + a0.skip(1));
    spelled_is_read(call_json(call), JsonValue::Object(m0));
}

/// The value says what the call proposes.
pub open spec fn says_call(value: JsonValue, call: ModelToolCallView) -> bool {
    &&& field(value, "function"@) matches Some(function)
    &&& field(function, "name"@) == Some(JsonValue::Text(call.name))
    &&& field(function, "arguments"@) == Some(JsonValue::Text(call.arguments))
    &&& field(value, "id"@) == Some(JsonValue::Text(call.id))
}

spec fn call_texts(calls: Seq<ModelToolCallView>) -> Seq<Seq<char>> {
    Seq::new(calls.len(), |i: int| call_json(calls[i]))
}

proof fn calls_are_joined(calls: Seq<ModelToolCallView>)
    ensures
        calls_json(calls) == joined(call_texts(calls)),
    decreases calls.len(),
{
    reveal_strlit(",");
    if calls.len() > 1 {
        calls_are_joined(calls.drop_last());
        assert(call_texts(calls).drop_last() =~= call_texts(calls.drop_last()));
        assert(","@ =~= seq![',']);
    }
}

/// Calls are read in their order, none missing.
pub proof fn call_lists_can_be_read(calls: Seq<ModelToolCallView>)
    ensures
        ({
            let text = seq!['['] + (calls_json(calls) + seq![']']);
            &&& read_json(text) matches Some(JsonValue::List(items))
            &&& spells(text, JsonValue::List(items))
            &&& items.len() == calls.len()
            &&& forall|i: int| 0 <= i < calls.len() ==> says_call(#[trigger] items[i], calls[i])
        }),
{
    let texts = call_texts(calls);
    let items = Seq::new(calls.len(), |i: int| read_json(call_json(calls[i]))->0);
    calls_are_joined(calls);
    assert forall|i: int| 0 <= i < texts.len() implies spells(#[trigger] texts[i], items[i])
        && texts[i].len() > 0 && texts[i][0] != ']' by {
        calls_can_be_read(calls[i]);
        reveal_strlit("{\"function\":{\"arguments\":");
    }
    joined_is_spelled(texts, items);
    spelled_is_read(seq!['['] + (calls_json(calls) + seq![']']), JsonValue::List(items));
    assert forall|i: int| 0 <= i < calls.len() implies says_call(#[trigger] items[i], calls[i]) by {
        calls_can_be_read(calls[i]);
    }
}

/// A system message is read with its own content and role.
#[verifier::spinoff_prover]
pub proof fn system_messages_can_be_read(content: Seq<char>)
    ensures
        read_json(message_json(ModelMessageView::System { content })) is Some,
        spells(message_json(ModelMessageView::System { content }), read_json(message_json(ModelMessageView::System { content }))->0),
        ({
            let value = read_json(message_json(ModelMessageView::System { content }))->0;
            &&& field(value, "content"@) == Some(JsonValue::Text(content))
            &&& field(value, "role"@) == Some(JsonValue::Text("system"@))
        }),
{
    reveal_strlit("content");
    reveal_strlit("role");
    reveal_strlit("{\"content\":");
    reveal_strlit(",\"role\":\"system\"}");
    assert("content"@.len() != "role"@.len());
    text_is_spelled(content);
    reveal_strlit("system");
    plain_is_quoted("system"@);
    let a2 = seq!['}'];
    let m2 = Seq::<Member>::empty();
    assert(follows_member(a2, m2));
    let x1 = seq!['"'] + "system"@ + seq!['"'];
    let v1 = JsonValue::Text("system"@);
    member_goes_before("role"@, x1, v1, a2, m2);
    let a1 = member_text("role"@, x1, a2);
    let m1 = seq![Member { key: "role"@, value: v1 }] + m2;
    let x0 = json_string(content);
    let v0 = JsonValue::Text(content);
    member_goes_before("content"@, x0, v0, a1, m1);
    let a0 = member_text("content"@, x0, a1);
    let m0 = seq![Member { key: "content"@, value: v0 }] + m1;
    object_is_spelled(a0.skip(1), m0);
    assert(message_json(ModelMessageView::System { content }) =~= seq!['{'] + a0.skip(1));
    spelled_is_read(message_json(ModelMessageView::System { content }), JsonValue::Object(m0));
}

/// A user's message is read with its own content and role.
#[verifier::spinoff_prover]
pub proof fn user_messages_can_be_read(content: Seq<char>)
    ensures
        read_json(message_json(ModelMessageView::User { content })) is Some,
        spells(message_json(ModelMessageView::User { content }), read_json(message_json(ModelMessageView::User { content }))->0),
        ({
            let value = read_json(message_json(ModelMessageView::User { content }))->0;
            &&& field(value, "content"@) == Some(JsonValue::Text(content))
            &&& field(value, "role"@) == Some(JsonValue::Text("user"@))
        }),
{
    reveal_strlit("content");
    reveal_strlit("role");
    reveal_strlit("{\"content\":");
    reveal_strlit(",\"role\":\"user\"}");
    assert("content"@.len() != "role"@.len());
    text_is_spelled(content);
    reveal_strlit("user");
    plain_is_quoted("user"@);
    let a2 = seq!['}'];
    let m2 = Seq::<Member>::empty();
    assert(follows_member(a2, m2));
    let x1 = seq!['"'] + "user"@ + seq!['"'];
    let v1 = JsonValue::Text("user"@);
    member_goes_before("role"@, x1, v1, a2, m2);
    let a1 = member_text("role"@, x1, a2);
    let m1 = seq![Member { key: "role"@, value: v1 }] + m2;
    let x0 = json_string(content);
    let v0 = JsonValue::Text(content);
    member_goes_before("content"@, x0, v0, a1, m1);
    let a0 = member_text("content"@, x0, a1);
    let m0 = seq![Member { key: "content"@, value: v0 }] + m1;
    object_is_spelled(a0.skip(1), m0);
    assert(message_json(ModelMessageView::User { content }) =~= seq!['{'] + a0.skip(1));
    spelled_is_read(message_json(ModelMessageView::User { content }), JsonValue::Object(m0));
}

/// A tool's answer is read with its content, and with the identity of the call that it
/// answers.
#[verifier::spinoff_prover]
pub proof fn tool_messages_can_be_read(call_id: Seq<char>, content: Seq<char>)
    ensures
        read_json(message_json(ModelMessageView::Tool { call_id, content })) is Some,
        spells(message_json(ModelMessageView::Tool { call_id, content }), read_json(message_json(ModelMessageView::Tool { call_id, content }))->0),
        ({
            let value = read_json(message_json(ModelMessageView::Tool { call_id, content }))->0;
            &&& field(value, "content"@) == Some(JsonValue::Text(content))
            &&& field(value, "role"@) == Some(JsonValue::Text("tool"@))
            &&& field(value, "tool_call_id"@) == Some(JsonValue::Text(call_id))
        }),
{
    reveal_strlit("content");
    reveal_strlit("role");
    reveal_strlit("tool_call_id");
    reveal_strlit("{\"content\":");
    reveal_strlit(",\"role\":\"tool\",\"tool_call_id\":");
    reveal_strlit("}");
    assert("content"@.len() != "role"@.len());
    assert("content"@.len() != "tool_call_id"@.len());
    assert("role"@.len() != "tool_call_id"@.len());
    text_is_spelled(content);
    reveal_strlit("tool");
    plain_is_quoted("tool"@);
    text_is_spelled(call_id);
    let a3 = seq!['}'];
    let m3 = Seq::<Member>::empty();
    assert(follows_member(a3, m3));
    let x2 = json_string(call_id);
    let v2 = JsonValue::Text(call_id);
    member_goes_before("tool_call_id"@, x2, v2, a3, m3);
    let a2 = member_text("tool_call_id"@, x2, a3);
    let m2 = seq![Member { key: "tool_call_id"@, value: v2 }] + m3;
    let x1 = seq!['"'] + "tool"@ + seq!['"'];
    let v1 = JsonValue::Text("tool"@);
    member_goes_before("role"@, x1, v1, a2, m2);
    let a1 = member_text("role"@, x1, a2);
    let m1 = seq![Member { key: "role"@, value: v1 }] + m2;
    let x0 = json_string(content);
    let v0 = JsonValue::Text(content);
    member_goes_before("content"@, x0, v0, a1, m1);
    let a0 = member_text("content"@, x0, a1);
    let m0 = seq![Member { key: "content"@, value: v0 }] + m1;
    object_is_spelled(a0.skip(1), m0);
    assert(message_json(ModelMessageView::Tool { call_id, content }) =~= seq!['{'] + a0.skip(1));
    spelled_is_read(message_json(ModelMessageView::Tool { call_id, content }), JsonValue::Object(m0));
}

/// The model's own message is read with its content, or with none, and with the calls that
/// it proposes.
#[verifier::spinoff_prover]
#[verifier::rlimit(40)]
pub proof fn assistant_messages_can_be_read(content: Option<Seq<char>>, tool_calls: Seq<ModelToolCallView>)
    ensures
        read_json(message_json(ModelMessageView::Assistant { content, tool_calls })) is Some,
        spells(message_json(ModelMessageView::Assistant { content, tool_calls }), read_json(message_json(ModelMessageView::Assistant { content, tool_calls }))->0),
        ({
            let value = read_json(message_json(ModelMessageView::Assistant { content, tool_calls }))->0;
            &&& field(value, "content"@) == Some(
                match content {
                    Some(text) => JsonValue::Text(text),
                    None => JsonValue::Null,
                },
            )
            &&& field(value, "role"@) == Some(JsonValue::Text("assistant"@))
            &&& tool_calls.len() == 0 <==> field(value, "tool_calls"@) is None
            &&& tool_calls.len() > 0 ==> {
                &&& field(value, "tool_calls"@) matches Some(JsonValue::List(items))
                &&& items.len() == tool_calls.len()
                &&& forall|i: int|
                    0 <= i < tool_calls.len() ==> says_call(#[trigger] items[i], tool_calls[i])
            }
        }),
{
    reveal_strlit("content");
    reveal_strlit("role");
    reveal_strlit("tool_calls");
    reveal_strlit("{\"content\":");
    reveal_strlit(",\"role\":\"assistant\"");
    reveal_strlit(",\"tool_calls\":[");
    reveal_strlit("]");
    reveal_strlit("}");
    reveal_strlit("");
    assert("content"@.len() != "role"@.len());
    assert("content"@.len() != "tool_calls"@.len());
    assert("role"@.len() != "tool_calls"@.len());
    reveal_strlit("assistant");
    plain_is_quoted("assistant"@);
    let said = match content {
        Some(text) => json_string(text),
        None => "null"@,
    };
    let said_value = match content {
        Some(text) => JsonValue::Text(text),
        None => JsonValue::Null,
    };
    match content {
        Some(text) => {
            text_is_spelled(text);
        },
        None => {
            null_is_spelled();
        },
    }
    call_lists_can_be_read(tool_calls);
    let listed = seq!['['] + (calls_json(tool_calls) + seq![']']);
    let calls = read_json(listed)->0;
    let a3 = seq!['}'];
    let m3 = Seq::<Member>::empty();
    assert(follows_member(a3, m3));
    let x2 = listed;
    let v2 = calls;
    if tool_calls.len() > 0 {
        member_goes_before("tool_calls"@, x2, v2, a3, m3);
    }
    let a2 = if tool_calls.len() > 0 {
        member_text("tool_calls"@, x2, a3)
    } else {
        a3
    };
    let m2 = if tool_calls.len() > 0 {
        seq![Member { key: "tool_calls"@, value: v2 }] + m3
    } else {
        m3
    };
    let x1 = seq!['"'] + "assistant"@ + seq!['"'];
    let v1 = JsonValue::Text("assistant"@);
    member_goes_before("role"@, x1, v1, a2, m2);
    let a1 = member_text("role"@, x1, a2);
    let m1 = seq![Member { key: "role"@, value: v1 }] + m2;
    let x0 = said;
    let v0 = said_value;
    member_goes_before("content"@, x0, v0, a1, m1);
    let a0 = member_text("content"@, x0, a1);
    let m0 = seq![Member { key: "content"@, value: v0 }] + m1;
    object_is_spelled(a0.skip(1), m0);
    if tool_calls.len() > 0 {
        assert(message_json(ModelMessageView::Assistant { content, tool_calls }) =~= seq!['{'] + a0.skip(1));
    } else {
        assert(message_json(ModelMessageView::Assistant { content, tool_calls }) =~= seq!['{'] + a0.skip(1));
    }
    spelled_is_read(message_json(ModelMessageView::Assistant { content, tool_calls }), JsonValue::Object(m0));
}

/// The value says what the message says.
pub open spec fn says_message(value: JsonValue, message: ModelMessageView) -> bool {
    match message {
        ModelMessageView::System { content } => {
            &&& field(value, "role"@) == Some(JsonValue::Text("system"@))
            &&& field(value, "content"@) == Some(JsonValue::Text(content))
        },
        ModelMessageView::User { content } => {
            &&& field(value, "role"@) == Some(JsonValue::Text("user"@))
            &&& field(value, "content"@) == Some(JsonValue::Text(content))
        },
        ModelMessageView::Assistant { content, tool_calls } => {
            &&& field(value, "role"@) == Some(JsonValue::Text("assistant"@))
            &&& field(value, "content"@) == Some(
                match content {
                    Some(text) => JsonValue::Text(text),
                    None => JsonValue::Null,
                },
            )
            &&& tool_calls.len() == 0 <==> field(value, "tool_calls"@) is None
            &&& tool_calls.len() > 0 ==> {
                &&& field(value, "tool_calls"@) matches Some(JsonValue::List(items))
                &&& items.len() == tool_calls.len()
                &&& forall|i: int|
                    0 <= i < tool_calls.len() ==> says_call(#[trigger] items[i], tool_calls[i])
            }
        },
        ModelMessageView::Tool { call_id, content } => {
            &&& field(value, "role"@) == Some(JsonValue::Text("tool"@))
            &&& field(value, "content"@) == Some(JsonValue::Text(content))
            &&& field(value, "tool_call_id"@) == Some(JsonValue::Text(call_id))
        },
    }
}

/// Whoever reads a written message finds what it says, each part under its own name.
pub proof fn messages_can_be_read(message: ModelMessageView)
    ensures
        read_json(message_json(message)) matches Some(value) && says_message(value, message),
        spells(message_json(message), read_json(message_json(message))->0),
        message_json(message).len() > 0,
        message_json(message)[0] == '{',
{
    reveal_strlit("{\"content\":");
    match message {
        ModelMessageView::System { content } => system_messages_can_be_read(content),
        ModelMessageView::User { content } => user_messages_can_be_read(content),
        ModelMessageView::Assistant { content, tool_calls } => assistant_messages_can_be_read(
            content,
            tool_calls,
        ),
        ModelMessageView::Tool { call_id, content } => tool_messages_can_be_read(call_id, content),
    }
}

spec fn tool_function_json(tool: ModelToolDefinitionView) -> Seq<char> {
    "{\"description\":"@ + json_string(tool.description) + ",\"name\":"@ + json_string(tool.name)
        + ",\"parameters\":"@ + tool.parameters + "}"@
}

/// The function of a tool.
#[verifier::spinoff_prover]
proof fn tool_function_can_be_read(tool: ModelToolDefinitionView)
    requires
        read_json(tool.parameters) is Some,
    ensures
        read_json(tool_function_json(tool)) is Some,
        spells(tool_function_json(tool), read_json(tool_function_json(tool))->0),
        ({
            let value = read_json(tool_function_json(tool))->0;
            &&& field(value, "description"@) == Some(JsonValue::Text(tool.description))
            &&& field(value, "name"@) == Some(JsonValue::Text(tool.name))
            &&& field(value, "parameters"@) == read_json(tool.parameters)
        }),
{
    reveal_strlit("description");
    reveal_strlit("name");
    reveal_strlit("parameters");
    reveal_strlit("{\"description\":");
    reveal_strlit(",\"name\":");
    reveal_strlit(",\"parameters\":");
    reveal_strlit("}");
    assert("description"@.len() != "name"@.len());
    assert("description"@.len() != "parameters"@.len());
    assert("name"@.len() != "parameters"@.len());
    text_is_spelled(tool.description);
    text_is_spelled(tool.name);
    read_is_spelled(tool.parameters);
    let a3 = seq!['}'];
    let m3 = Seq::<Member>::empty();
    assert(follows_member(a3, m3));
    let x2 = tool.parameters;
    let v2 = read_json(tool.parameters)->0;
    member_goes_before("parameters"@, x2, v2, a3, m3);
    let a2 = member_text("parameters"@, x2, a3);
    let m2 = seq![Member { key: "parameters"@, value: v2 }] + m3;
    let x1 = json_string(tool.name);
    let v1 = JsonValue::Text(tool.name);
    member_goes_before("name"@, x1, v1, a2, m2);
    let a1 = member_text("name"@, x1, a2);
    let m1 = seq![Member { key: "name"@, value: v1 }] + m2;
    let x0 = json_string(tool.description);
    let v0 = JsonValue::Text(tool.description);
    member_goes_before("description"@, x0, v0, a1, m1);
    let a0 = member_text("description"@, x0, a1);
    let m0 = seq![Member { key: "description"@, value: v0 }] + m1;
    object_is_spelled(a0.skip(1), m0);
    assert(tool_function_json(tool) =~= seq!['{'] + a0.skip(1));
    spelled_is_read(tool_function_json(tool), JsonValue::Object(m0));
}

/// The value says what the tool is.
pub open spec fn says_tool(value: JsonValue, tool: ModelToolDefinitionView) -> bool {
    &&& field(value, "type"@) == Some(JsonValue::Text("function"@))
    &&& field(value, "function"@) matches Some(function)
    &&& field(function, "name"@) == Some(JsonValue::Text(tool.name))
    &&& field(function, "description"@) == Some(JsonValue::Text(tool.description))
    &&& field(function, "parameters"@) == read_json(tool.parameters)
}

/// Whoever reads a tool finds its name, its description and the schema of its parameters.
#[verifier::spinoff_prover]
pub proof fn tools_can_be_read(tool: ModelToolDefinitionView)
    requires
        read_json(tool.parameters) is Some,
    ensures
        read_json(tool_json(tool)) is Some,
        spells(tool_json(tool), read_json(tool_json(tool))->0),
        ({
            let value = read_json(tool_json(tool))->0;
            says_tool(value, tool)
        }),
{
    reveal_strlit("function");
    reveal_strlit("type");
    reveal_strlit("{\"function\":{\"description\":");
    reveal_strlit("{\"description\":");
    reveal_strlit(",\"name\":");
    reveal_strlit(",\"parameters\":");
    reveal_strlit("},\"type\":\"function\"}");
    reveal_strlit("}");
    assert("function"@.len() != "type"@.len());
    reveal_strlit("function");
    plain_is_quoted("function"@);
    tool_function_can_be_read(tool);
    let function = read_json(tool_function_json(tool))->0;
    let a2 = seq!['}'];
    let m2 = Seq::<Member>::empty();
    assert(follows_member(a2, m2));
    let x1 = seq!['"'] + "function"@ + seq!['"'];
    let v1 = JsonValue::Text("function"@);
    member_goes_before("type"@, x1, v1, a2, m2);
    let a1 = member_text("type"@, x1, a2);
    let m1 = seq![Member { key: "type"@, value: v1 }] + m2;
    let x0 = tool_function_json(tool);
    let v0 = function;
    member_goes_before("function"@, x0, v0, a1, m1);
    let a0 = member_text("function"@, x0, a1);
    let m0 = seq![Member { key: "function"@, value: v0 }] + m1;
    object_is_spelled(a0.skip(1), m0);
    assert(tool_json(tool) =~= seq!['{'] + a0.skip(1));
    spelled_is_read(tool_json(tool), JsonValue::Object(m0));
}

spec fn tool_texts(tools: Seq<ModelToolDefinitionView>) -> Seq<Seq<char>> {
    Seq::new(tools.len(), |i: int| tool_json(tools[i]))
}

proof fn tools_are_joined(tools: Seq<ModelToolDefinitionView>)
    ensures
        tools_json(tools) == joined(tool_texts(tools)),
    decreases tools.len(),
{
    reveal_strlit(",");
    if tools.len() > 1 {
        tools_are_joined(tools.drop_last());
        assert(tool_texts(tools).drop_last() =~= tool_texts(tools.drop_last()));
        assert(","@ =~= seq![',']);
    }
}

/// Tools are read in their order, none missing.
pub proof fn tool_lists_can_be_read(tools: Seq<ModelToolDefinitionView>)
    requires
        forall|i: int| 0 <= i < tools.len() ==> read_json((#[trigger] tools[i]).parameters) is Some,
    ensures
        ({
            let text = seq!['['] + (tools_json(tools) + seq![']']);
            &&& read_json(text) matches Some(JsonValue::List(items))
            &&& spells(text, JsonValue::List(items))
            &&& items.len() == tools.len()
            &&& forall|i: int| 0 <= i < tools.len() ==> says_tool(#[trigger] items[i], tools[i])
        }),
{
    let texts = tool_texts(tools);
    let items = Seq::new(tools.len(), |i: int| read_json(tool_json(tools[i]))->0);
    tools_are_joined(tools);
    assert forall|i: int| 0 <= i < texts.len() implies spells(#[trigger] texts[i], items[i])
        && texts[i].len() > 0 && texts[i][0] != ']' by {
        assert(read_json(tools[i].parameters) is Some);
        tools_can_be_read(tools[i]);
        reveal_strlit("{\"function\":{\"description\":");
    }
    joined_is_spelled(texts, items);
    spelled_is_read(seq!['['] + (tools_json(tools) + seq![']']), JsonValue::List(items));
    assert forall|i: int| 0 <= i < tools.len() implies says_tool(#[trigger] items[i], tools[i]) by {
        assert(read_json(tools[i].parameters) is Some);
        tools_can_be_read(tools[i]);
    }
}

spec fn message_texts(messages: Seq<ModelMessageView>) -> Seq<Seq<char>> {
    Seq::new(messages.len(), |i: int| message_json(messages[i]))
}

proof fn messages_are_joined(messages: Seq<ModelMessageView>)
    ensures
        messages_json(messages) == joined(message_texts(messages)),
    decreases messages.len(),
{
    reveal_strlit(",");
    if messages.len() > 1 {
        messages_are_joined(messages.drop_last());
        assert(message_texts(messages).drop_last() =~= message_texts(messages.drop_last()));
        assert(","@ =~= seq![',']);
    }
}

/// Messages are read in their order, none missing.
pub proof fn conversations_can_be_read(messages: Seq<ModelMessageView>)
    ensures
        ({
            let text = seq!['['] + (messages_json(messages) + seq![']']);
            &&& read_json(text) matches Some(JsonValue::List(items))
            &&& spells(text, JsonValue::List(items))
            &&& items.len() == messages.len()
            &&& forall|i: int|
                0 <= i < messages.len() ==> says_message(#[trigger] items[i], messages[i])
        }),
{
    let texts = message_texts(messages);
    let items = Seq::new(messages.len(), |i: int| read_json(message_json(messages[i]))->0);
    messages_are_joined(messages);
    assert forall|i: int| 0 <= i < texts.len() implies spells(#[trigger] texts[i], items[i])
        && texts[i].len() > 0 && texts[i][0] != ']' by {
        messages_can_be_read(messages[i]);
    }
    joined_is_spelled(texts, items);
    spelled_is_read(seq!['['] + (messages_json(messages) + seq![']']), JsonValue::List(items));
    assert forall|i: int| 0 <= i < messages.len() implies says_message(
        #[trigger] items[i],
        messages[i],
    ) by {
        messages_can_be_read(messages[i]);
    }
}

spec fn choice_function_json(name: Seq<char>) -> Seq<char> {
    "{\"name\":"@ + json_string(name) + "}"@
}

/// The function of a choice.
#[verifier::spinoff_prover]
proof fn choice_function_can_be_read(name: Seq<char>)
    ensures
        read_json(choice_function_json(name)) is Some,
        spells(choice_function_json(name), read_json(choice_function_json(name))->0),
        ({
            let value = read_json(choice_function_json(name))->0;
            &&& field(value, "name"@) == Some(JsonValue::Text(name))
        }),
{
    reveal_strlit("name");
    reveal_strlit("{\"name\":");
    reveal_strlit("}");
    text_is_spelled(name);
    let a1 = seq!['}'];
    let m1 = Seq::<Member>::empty();
    assert(follows_member(a1, m1));
    let x0 = json_string(name);
    let v0 = JsonValue::Text(name);
    member_goes_before("name"@, x0, v0, a1, m1);
    let a0 = member_text("name"@, x0, a1);
    let m0 = seq![Member { key: "name"@, value: v0 }] + m1;
    object_is_spelled(a0.skip(1), m0);
    assert(choice_function_json(name) =~= seq!['{'] + a0.skip(1));
    spelled_is_read(choice_function_json(name), JsonValue::Object(m0));
}

/// A choice of one tool names it.
#[verifier::spinoff_prover]
pub proof fn named_choices_can_be_read(name: Seq<char>)
    ensures
        read_json(choice_json(ToolChoiceView::Named { name })) is Some,
        spells(choice_json(ToolChoiceView::Named { name }), read_json(choice_json(ToolChoiceView::Named { name }))->0),
        ({
            let value = read_json(choice_json(ToolChoiceView::Named { name }))->0;
            &&& field(value, "type"@) == Some(JsonValue::Text("function"@))
            &&& field(value, "function"@) matches Some(function)
            &&& field(function, "name"@) == Some(JsonValue::Text(name))
        }),
{
    reveal_strlit("function");
    reveal_strlit("type");
    reveal_strlit("{\"function\":{\"name\":");
    reveal_strlit("{\"name\":");
    reveal_strlit("},\"type\":\"function\"}");
    reveal_strlit("}");
    assert("function"@.len() != "type"@.len());
    reveal_strlit("function");
    plain_is_quoted("function"@);
    choice_function_can_be_read(name);
    let function = read_json(choice_function_json(name))->0;
    let a2 = seq!['}'];
    let m2 = Seq::<Member>::empty();
    assert(follows_member(a2, m2));
    let x1 = seq!['"'] + "function"@ + seq!['"'];
    let v1 = JsonValue::Text("function"@);
    member_goes_before("type"@, x1, v1, a2, m2);
    let a1 = member_text("type"@, x1, a2);
    let m1 = seq![Member { key: "type"@, value: v1 }] + m2;
    let x0 = choice_function_json(name);
    let v0 = function;
    member_goes_before("function"@, x0, v0, a1, m1);
    let a0 = member_text("function"@, x0, a1);
    let m0 = seq![Member { key: "function"@, value: v0 }] + m1;
    object_is_spelled(a0.skip(1), m0);
    assert(choice_json(ToolChoiceView::Named { name }) =~= seq!['{'] + a0.skip(1));
    spelled_is_read(choice_json(ToolChoiceView::Named { name }), JsonValue::Object(m0));
}

/// The value says which tools may be called.
pub open spec fn says_choice(value: JsonValue, choice: ToolChoiceView) -> bool {
    match choice {
        ToolChoiceView::Auto => value == JsonValue::Text("auto"@),
        ToolChoiceView::Required => value == JsonValue::Text("required"@),
        ToolChoiceView::Named { name } => {
            &&& field(value, "type"@) == Some(JsonValue::Text("function"@))
            &&& field(value, "function"@) matches Some(function)
            &&& field(function, "name"@) == Some(JsonValue::Text(name))
        },
    }
}

/// A choice is read as it was made.
pub proof fn choices_can_be_read(choice: ToolChoiceView)
    ensures
        read_json(choice_json(choice)) matches Some(value) && says_choice(value, choice),
        spells(choice_json(choice), read_json(choice_json(choice))->0),
{
    reveal_strlit("auto");
    reveal_strlit("required");
    reveal_strlit("\"auto\"");
    reveal_strlit("\"required\"");
    match choice {
        ToolChoiceView::Auto => {
            plain_is_quoted("auto"@);
            assert("\"auto\""@ =~= seq!['"'] + "auto"@ + seq!['"']);
            spelled_is_read(choice_json(choice), JsonValue::Text("auto"@));
        },
        ToolChoiceView::Required => {
            plain_is_quoted("required"@);
            assert("\"required\""@ =~= seq!['"'] + "required"@ + seq!['"']);
            spelled_is_read(choice_json(choice), JsonValue::Text("required"@));
        },
        ToolChoiceView::Named { name } => {
            named_choices_can_be_read(name);
        },
    }
}

spec fn schema_json(name: Seq<char>, schema: Seq<char>) -> Seq<char> {
    "{\"name\":"@ + json_string(name) + ",\"schema\":"@ + schema + ",\"strict\":false}"@
}

spec fn format_json(name: Seq<char>, schema: Seq<char>) -> Seq<char> {
    "{\"json_schema\":"@ + schema_json(name, schema) + ",\"type\":\"json_schema\"}"@
}

/// A schema under its name.
#[verifier::spinoff_prover]
proof fn schema_can_be_read(name: Seq<char>, schema: Seq<char>)
    requires
        read_json(schema) is Some,
    ensures
        read_json(schema_json(name, schema)) is Some,
        spells(schema_json(name, schema), read_json(schema_json(name, schema))->0),
        ({
            let value = read_json(schema_json(name, schema))->0;
            &&& field(value, "name"@) == Some(JsonValue::Text(name))
            &&& field(value, "schema"@) == read_json(schema)
            &&& field(value, "strict"@) == Some(JsonValue::Truth(false))
        }),
{
    reveal_strlit("name");
    reveal_strlit("schema");
    reveal_strlit("strict");
    reveal_strlit("{\"name\":");
    reveal_strlit(",\"schema\":");
    reveal_strlit(",\"strict\":false}");
    reveal_strlit("false");
    assert("name"@.len() != "schema"@.len());
    assert("name"@.len() != "strict"@.len());
    assert("schema"@[1] != "strict"@[1]);
    text_is_spelled(name);
    truth_is_spelled(false);
    read_is_spelled(schema);
    let a3 = seq!['}'];
    let m3 = Seq::<Member>::empty();
    assert(follows_member(a3, m3));
    let x2 = bool_text_of(false);
    let v2 = JsonValue::Truth(false);
    member_goes_before("strict"@, x2, v2, a3, m3);
    let a2 = member_text("strict"@, x2, a3);
    let m2 = seq![Member { key: "strict"@, value: v2 }] + m3;
    let x1 = schema;
    let v1 = read_json(schema)->0;
    member_goes_before("schema"@, x1, v1, a2, m2);
    let a1 = member_text("schema"@, x1, a2);
    let m1 = seq![Member { key: "schema"@, value: v1 }] + m2;
    let x0 = json_string(name);
    let v0 = JsonValue::Text(name);
    member_goes_before("name"@, x0, v0, a1, m1);
    let a0 = member_text("name"@, x0, a1);
    let m0 = seq![Member { key: "name"@, value: v0 }] + m1;
    object_is_spelled(a0.skip(1), m0);
    assert(schema_json(name, schema) =~= seq!['{'] + a0.skip(1));
    spelled_is_read(schema_json(name, schema), JsonValue::Object(m0));
}

/// An answer in the form of a schema.
#[verifier::spinoff_prover]
proof fn format_can_be_read(name: Seq<char>, schema: Seq<char>)
    requires
        read_json(schema) is Some,
    ensures
        read_json(format_json(name, schema)) is Some,
        spells(format_json(name, schema), read_json(format_json(name, schema))->0),
        ({
            let value = read_json(format_json(name, schema))->0;
            says_format(value, name, schema)
        }),
{
    reveal_strlit("json_schema");
    reveal_strlit("type");
    reveal_strlit("{\"json_schema\":");
    reveal_strlit(",\"type\":\"json_schema\"}");
    assert("json_schema"@.len() != "type"@.len());
    reveal_strlit("json_schema");
    plain_is_quoted("json_schema"@);
    schema_can_be_read(name, schema);
    let inner = read_json(schema_json(name, schema))->0;
    let a2 = seq!['}'];
    let m2 = Seq::<Member>::empty();
    assert(follows_member(a2, m2));
    let x1 = seq!['"'] + "json_schema"@ + seq!['"'];
    let v1 = JsonValue::Text("json_schema"@);
    member_goes_before("type"@, x1, v1, a2, m2);
    let a1 = member_text("type"@, x1, a2);
    let m1 = seq![Member { key: "type"@, value: v1 }] + m2;
    let x0 = schema_json(name, schema);
    let v0 = inner;
    member_goes_before("json_schema"@, x0, v0, a1, m1);
    let a0 = member_text("json_schema"@, x0, a1);
    let m0 = seq![Member { key: "json_schema"@, value: v0 }] + m1;
    object_is_spelled(a0.skip(1), m0);
    assert(format_json(name, schema) =~= seq!['{'] + a0.skip(1));
    spelled_is_read(format_json(name, schema), JsonValue::Object(m0));
}

/// The value asks for an answer in the form of the schema.
pub open spec fn says_format(value: JsonValue, name: Seq<char>, schema: Seq<char>) -> bool {
    &&& field(value, "type"@) == Some(JsonValue::Text("json_schema"@))
    &&& field(value, "json_schema"@) matches Some(inner)
    &&& field(inner, "name"@) == Some(JsonValue::Text(name))
    &&& field(inner, "schema"@) == read_json(schema)
    &&& field(inner, "strict"@) == Some(JsonValue::Truth(false))
}

spec fn usage_json() -> Seq<char> {
    "{\"include_usage\":true}"@
}

/// The wish for token counts.
#[verifier::spinoff_prover]
proof fn usage_can_be_read()
    ensures
        read_json(usage_json()) is Some,
        spells(usage_json(), read_json(usage_json())->0),
        ({
            let value = read_json(usage_json())->0;
            &&& field(value, "include_usage"@) == Some(JsonValue::Truth(true))
        }),
{
    reveal_strlit("include_usage");
    reveal_strlit("{\"include_usage\":true}");
    reveal_strlit("true");
    truth_is_spelled(true);
    let a1 = seq!['}'];
    let m1 = Seq::<Member>::empty();
    assert(follows_member(a1, m1));
    let x0 = bool_text_of(true);
    let v0 = JsonValue::Truth(true);
    member_goes_before("include_usage"@, x0, v0, a1, m1);
    let a0 = member_text("include_usage"@, x0, a1);
    let m0 = seq![Member { key: "include_usage"@, value: v0 }] + m1;
    object_is_spelled(a0.skip(1), m0);
    assert(usage_json() =~= seq!['{'] + a0.skip(1));
    spelled_is_read(usage_json(), JsonValue::Object(m0));
}

/// The schemas of a request are JSON.
pub open spec fn has_readable_schemas(constraint: GenerationConstraintView) -> bool {
    match constraint {
        GenerationConstraintView::JsonSchema { schema, .. } => read_json(schema) is Some,
        GenerationConstraintView::NativeTools { tools, .. } => forall|i: int|
            0 <= i < tools.len() ==> read_json((#[trigger] tools[i]).parameters) is Some,
        _ => true,
    }
}

/// A member that was appended stands in front of what follows it.
proof fn appended_member(
    front: Seq<char>,
    lead: Seq<char>,
    key: Seq<char>,
    text: Seq<char>,
    after: Seq<char>,
)
    requires
        lead == seq![','] + named(key),
    ensures
        (front + lead + text) + after == front + member_text(key, text, after),
{
    assert((front + lead + text) + after =~= front + member_text(key, text, after));
}

proof fn appended_list(
    front: Seq<char>,
    lead: Seq<char>,
    key: Seq<char>,
    items: Seq<char>,
    end: Seq<char>,
    after: Seq<char>,
)
    requires
        lead == seq![','] + named(key) + seq!['['],
        end == seq![']'],
    ensures
        (front + lead + items + end) + after == front + member_text(
            key,
            seq!['['] + (items + seq![']']),
            after,
        ),
{
    assert((front + lead + items + end) + after =~= front + member_text(
        key,
        seq!['['] + (items + seq![']']),
        after,
    ));
}

spec fn after_options(constraint: GenerationConstraintView) -> Seq<char> {
    match constraint {
        GenerationConstraintView::NativeTools { tools, choice } => member_text(
            "tool_choice"@,
            choice_json(choice),
            member_text("tools"@, seq!['['] + (tools_json(tools) + seq![']']), seq!['}']),
        ),
        _ => seq!['}'],
    }
}

spec fn after_stream(constraint: GenerationConstraintView, counted: bool) -> Seq<char> {
    if counted {
        member_text("stream_options"@, usage_json(), after_options(constraint))
    } else {
        after_options(constraint)
    }
}

spec fn after_model(constraint: GenerationConstraintView, stream: bool, counted: bool) -> Seq<char> {
    let rest = member_text("stream"@, bool_text_of(stream), after_stream(constraint, counted));
    match constraint {
        GenerationConstraintView::JsonSchema { name, schema } => member_text(
            "response_format"@,
            format_json(name, schema),
            rest,
        ),
        _ => rest,
    }
}

spec fn request_members(
    model: Seq<char>,
    input: GenerationRequestView,
    max_tokens: Option<u32>,
    stream: bool,
    counted: bool,
) -> Seq<char> {
    let talk = member_text(
        "messages"@,
        seq!['['] + (messages_json(input.messages) + seq![']']),
        member_text(
            "model"@,
            json_string(model),
            after_model(input.constraint, stream, counted),
        ),
    );
    match max_tokens {
        Some(n) => member_text("max_tokens"@, decimal(n as nat), talk),
        None => talk,
    }
}

proof fn tools_are_appended(counted: Seq<char>, constraint: GenerationConstraintView)
    ensures
        (match constraint {
            GenerationConstraintView::NativeTools { tools, choice } => counted
                + ",\"tool_choice\":"@ + choice_json(choice) + ",\"tools\":["@ + tools_json(tools)
                + "]"@,
            _ => counted,
        }) + "}"@ == counted + after_options(constraint),
{
    reveal_strlit(",\"tool_choice\":");
    reveal_strlit(",\"tools\":[");
    reveal_strlit("tool_choice");
    reveal_strlit("tools");
    reveal_strlit("]");
    reveal_strlit("}");
    assert("}"@ =~= seq!['}']);
    assert("]"@ =~= seq![']']);
    match constraint {
        GenerationConstraintView::NativeTools { tools, choice } => {
            let first = counted + ",\"tool_choice\":"@ + choice_json(choice);
            assert(",\"tools\":["@ =~= seq![','] + named("tools"@) + seq!['[']);
            assert(",\"tool_choice\":"@ =~= seq![','] + named("tool_choice"@));
            appended_list(first, ",\"tools\":["@, "tools"@, tools_json(tools), "]"@, seq!['}']);
            appended_member(
                counted,
                ",\"tool_choice\":"@,
                "tool_choice"@,
                choice_json(choice),
                member_text("tools"@, seq!['['] + (tools_json(tools) + seq![']']), seq!['}']),
            );
        },
        _ => {},
    }
}

proof fn options_are_appended(streamed: Seq<char>, counted: bool, constraint: GenerationConstraintView)
    ensures
        (if counted {
            streamed + ",\"stream_options\":{\"include_usage\":true}"@
        } else {
            streamed
        }) + after_options(constraint) == streamed + after_stream(constraint, counted),
{
    reveal_strlit(",\"stream_options\":{\"include_usage\":true}");
    reveal_strlit("stream_options");
    reveal_strlit("{\"include_usage\":true}");
    if counted {
        let lead = seq![','] + named("stream_options"@);
        assert(",\"stream_options\":{\"include_usage\":true}"@ =~= lead + usage_json());
        appended_member(streamed, lead, "stream_options"@, usage_json(), after_options(constraint));
        assert(streamed + (lead + usage_json()) =~= streamed + lead + usage_json());
    }
}

proof fn formats_are_appended(
    body: Seq<char>,
    stream: bool,
    counted: bool,
    constraint: GenerationConstraintView,
)
    ensures
        ((match constraint {
            GenerationConstraintView::JsonSchema { name, schema } => body
                + ",\"response_format\":{\"json_schema\":{\"name\":"@ + json_string(name)
                + ",\"schema\":"@ + schema
                + ",\"strict\":false},\"type\":\"json_schema\"}"@,
            _ => body,
        }) + ",\"stream\":"@ + bool_text_of(stream)) + after_stream(constraint, counted) == body
            + after_model(constraint, stream, counted),
{
    reveal_strlit(",\"response_format\":{\"json_schema\":{\"name\":");
    reveal_strlit(",\"schema\":");
    reveal_strlit(",\"strict\":false},\"type\":\"json_schema\"}");
    reveal_strlit(",\"strict\":false}");
    reveal_strlit(",\"type\":\"json_schema\"}");
    reveal_strlit("{\"json_schema\":");
    reveal_strlit("{\"name\":");
    reveal_strlit(",\"stream\":");
    reveal_strlit("stream");
    reveal_strlit("response_format");
    let format = match constraint {
        GenerationConstraintView::JsonSchema { name, schema } => body
            + ",\"response_format\":{\"json_schema\":{\"name\":"@ + json_string(name)
            + ",\"schema\":"@ + schema + ",\"strict\":false},\"type\":\"json_schema\"}"@,
        _ => body,
    };
    assert(",\"stream\":"@ =~= seq![','] + named("stream"@));
    let rest = member_text("stream"@, bool_text_of(stream), after_stream(constraint, counted));
    appended_member(
        format,
        ",\"stream\":"@,
        "stream"@,
        bool_text_of(stream),
        after_stream(constraint, counted),
    );
    match constraint {
        GenerationConstraintView::JsonSchema { name, schema } => {
            let lead = seq![','] + named("response_format"@);
            assert(format =~= body + lead + format_json(name, schema));
            appended_member(body, lead, "response_format"@, format_json(name, schema), rest);
        },
        _ => {},
    }
}

/// The head of a request in front of whatever follows the model.
#[verifier::spinoff_prover]
proof fn head_is_its_members(max_tokens: Option<u32>, items: Seq<char>, model: Seq<char>, rest: Seq<char>)
    ensures
        ({
            let head = match max_tokens {
                Some(n) => "{\"max_tokens\":"@ + decimal(n as nat) + ","@,
                None => "{"@,
            };
            let talk = member_text(
                "messages"@,
                seq!['['] + (items + seq![']']),
                member_text("model"@, model, rest),
            );
            (head + "\"messages\":["@ + items + "],\"model\":"@ + model) + rest == seq!['{']
                + (match max_tokens {
                Some(n) => member_text("max_tokens"@, decimal(n as nat), talk),
                None => talk,
            }).skip(1)
        }),
{
    reveal_strlit("{\"max_tokens\":");
    reveal_strlit(",");
    reveal_strlit("{");
    reveal_strlit("\"messages\":[");
    reveal_strlit("],\"model\":");
    reveal_strlit("max_tokens");
    reveal_strlit("messages");
    reveal_strlit("model");
    let talk = member_text(
        "messages"@,
        seq!['['] + (items + seq![']']),
        member_text("model"@, model, rest),
    );
    let opened = "\"messages\":["@ + items + "],\"model\":"@ + model;
    assert(opened + rest =~= talk.skip(1));
    match max_tokens {
        Some(n) => {
            let digits = decimal(n as nat);
            let head = "{\"max_tokens\":"@ + digits + ","@;
            let whole = member_text("max_tokens"@, digits, talk);
            assert((head + "\"messages\":["@ + items + "],\"model\":"@ + model) + rest =~= head + (
            opened + rest));
            assert(talk =~= seq![','] + talk.skip(1));
            assert(head + talk.skip(1) =~= seq!['{'] + whole.skip(1));
        },
        None => {
            assert(("{"@ + "\"messages\":["@ + items + "],\"model\":"@ + model) + rest =~= "{"@ + (
            opened + rest));
            assert("{"@ =~= seq!['{']);
        },
    }
}

proof fn request_is_its_members(
    model: Seq<char>,
    input: GenerationRequestView,
    max_tokens: Option<u32>,
    stream: bool,
    stream_usage: bool,
)
    ensures
        request_json(model, input, max_tokens, stream, stream_usage) == seq!['{'] + request_members(
            model,
            input,
            max_tokens,
            stream,
            stream && stream_usage,
        ).skip(1),
{
    let counted = stream && stream_usage;
    let head = match max_tokens {
        Some(n) => "{\"max_tokens\":"@ + decimal(n as nat) + ","@,
        None => "{"@,
    };
    let body = head + "\"messages\":["@ + messages_json(input.messages) + "],\"model\":"@
        + json_string(model);
    let format = match input.constraint {
        GenerationConstraintView::JsonSchema { name, schema } => body
            + ",\"response_format\":{\"json_schema\":{\"name\":"@ + json_string(name)
            + ",\"schema\":"@ + schema + ",\"strict\":false},\"type\":\"json_schema\"}"@,
        _ => body,
    };
    let streamed = format + ",\"stream\":"@ + bool_text_of(stream);
    let told = if counted {
        streamed + ",\"stream_options\":{\"include_usage\":true}"@
    } else {
        streamed
    };
    tools_are_appended(told, input.constraint);
    options_are_appended(streamed, counted, input.constraint);
    formats_are_appended(body, stream, counted, input.constraint);
    let rest = after_model(input.constraint, stream, counted);
    head_is_its_members(max_tokens, messages_json(input.messages), json_string(model), rest);
}

/// Whoever reads a written request finds the model, every message in its place, the limits
/// and what the answer is to look like, and nothing that was not asked for.
#[verifier::spinoff_prover]
#[verifier::rlimit(60)]
pub proof fn requests_can_be_read(
    model: Seq<char>,
    input: GenerationRequestView,
    max_tokens: Option<u32>,
    stream: bool,
    stream_usage: bool,
)
    requires
        has_readable_schemas(input.constraint),
    ensures
        read_json(request_json(model, input, max_tokens, stream, stream_usage)) is Some,
        spells(request_json(model, input, max_tokens, stream, stream_usage), read_json(request_json(model, input, max_tokens, stream, stream_usage))->0),
        ({
            let value = read_json(request_json(model, input, max_tokens, stream, stream_usage))->0;
            &&& field(value, "model"@) == Some(JsonValue::Text(model))
            &&& field(value, "messages"@) matches Some(JsonValue::List(items))
            &&& items.len() == input.messages.len()
            &&& forall|i: int|
                0 <= i < items.len() ==> says_message(#[trigger] items[i], input.messages[i])
            &&& field(value, "stream"@) == Some(JsonValue::Truth(stream))
            &&& match max_tokens {
                Some(n) => field(value, "max_tokens"@) matches Some(JsonValue::Number(digits))
                    && number_of(digits) == n,
                None => field(value, "max_tokens"@) is None,
            }
            &&& if stream && stream_usage {
                field(value, "stream_options"@) matches Some(options) && field(
                    options,
                    "include_usage"@,
                ) == Some(JsonValue::Truth(true))
            } else {
                field(value, "stream_options"@) is None
            }
            &&& match input.constraint {
                GenerationConstraintView::JsonSchema { name, schema } => field(
                    value,
                    "response_format"@,
                ) matches Some(format) && says_format(format, name, schema),
                _ => field(value, "response_format"@) is None,
            }
            &&& match input.constraint {
                GenerationConstraintView::NativeTools { tools, choice } => {
                    &&& field(value, "tool_choice"@) matches Some(chosen)
                    &&& says_choice(chosen, choice)
                    &&& field(value, "tools"@) matches Some(JsonValue::List(listed))
                    &&& listed.len() == tools.len()
                    &&& forall|i: int| 0 <= i < tools.len() ==> says_tool(#[trigger] listed[i], tools[i])
                },
                _ => field(value, "tools"@) is None && field(value, "tool_choice"@) is None,
            }
        }),
{
    reveal_strlit("max_tokens");
    reveal_strlit("messages");
    reveal_strlit("model");
    reveal_strlit("response_format");
    reveal_strlit("stream");
    reveal_strlit("stream_options");
    reveal_strlit("tool_choice");
    reveal_strlit("tools");
    assert("max_tokens"@.len() != "messages"@.len());
    assert("max_tokens"@.len() != "model"@.len());
    assert("messages"@.len() != "model"@.len());
    assert("max_tokens"@.len() != "response_format"@.len());
    assert("messages"@.len() != "response_format"@.len());
    assert("model"@.len() != "response_format"@.len());
    assert("max_tokens"@.len() != "stream"@.len());
    assert("messages"@.len() != "stream"@.len());
    assert("model"@.len() != "stream"@.len());
    assert("response_format"@.len() != "stream"@.len());
    assert("max_tokens"@.len() != "stream_options"@.len());
    assert("messages"@.len() != "stream_options"@.len());
    assert("model"@.len() != "stream_options"@.len());
    assert("response_format"@.len() != "stream_options"@.len());
    assert("stream"@.len() != "stream_options"@.len());
    assert("max_tokens"@.len() != "tool_choice"@.len());
    assert("messages"@.len() != "tool_choice"@.len());
    assert("model"@.len() != "tool_choice"@.len());
    assert("response_format"@.len() != "tool_choice"@.len());
    assert("stream"@.len() != "tool_choice"@.len());
    assert("stream_options"@.len() != "tool_choice"@.len());
    assert("max_tokens"@.len() != "tools"@.len());
    assert("messages"@.len() != "tools"@.len());
    assert("model"@[0] != "tools"@[0]);
    assert("response_format"@.len() != "tools"@.len());
    assert("stream"@.len() != "tools"@.len());
    assert("stream_options"@.len() != "tools"@.len());
    assert("tool_choice"@.len() != "tools"@.len());
    text_is_spelled(model);
    truth_is_spelled(stream);
    let form = input.constraint is JsonSchema;
    let native = input.constraint is NativeTools;
    conversations_can_be_read(input.messages);
    let talk = seq!['['] + (messages_json(input.messages) + seq![']']);
    let name = input.constraint->JsonSchema_name;
    let schema = input.constraint->JsonSchema_schema;
    if form {
        format_can_be_read(name, schema);
    }
    let tools = input.constraint->tools;
    let choice = input.constraint->choice;
    let offered = seq!['['] + (tools_json(tools) + seq![']']);
    if native {
        tool_lists_can_be_read(tools);
        choices_can_be_read(choice);
    }
    usage_can_be_read();
    truth_is_spelled(stream);
    let n = match max_tokens {
        Some(n) => n as nat,
        None => 0,
    };
    let a8 = seq!['}'];
    let m8 = Seq::<Member>::empty();
    assert(follows_member(a8, m8));
    let x7 = offered;
    let v7 = read_json(offered)->0;
    if native {
        member_goes_before("tools"@, x7, v7, a8, m8);
    }
    let a7 = if native {
        member_text("tools"@, x7, a8)
    } else {
        a8
    };
    let m7 = if native {
        seq![Member { key: "tools"@, value: v7 }] + m8
    } else {
        m8
    };
    let x6 = choice_json(choice);
    let v6 = read_json(choice_json(choice))->0;
    if native {
        member_goes_before("tool_choice"@, x6, v6, a7, m7);
    }
    let a6 = if native {
        member_text("tool_choice"@, x6, a7)
    } else {
        a7
    };
    let m6 = if native {
        seq![Member { key: "tool_choice"@, value: v6 }] + m7
    } else {
        m7
    };
    let x5 = usage_json();
    let v5 = read_json(usage_json())->0;
    if stream && stream_usage {
        member_goes_before("stream_options"@, x5, v5, a6, m6);
    }
    let a5 = if stream && stream_usage {
        member_text("stream_options"@, x5, a6)
    } else {
        a6
    };
    let m5 = if stream && stream_usage {
        seq![Member { key: "stream_options"@, value: v5 }] + m6
    } else {
        m6
    };
    let x4 = bool_text_of(stream);
    let v4 = JsonValue::Truth(stream);
    member_goes_before("stream"@, x4, v4, a5, m5);
    let a4 = member_text("stream"@, x4, a5);
    let m4 = seq![Member { key: "stream"@, value: v4 }] + m5;
    let x3 = format_json(name, schema);
    let v3 = read_json(format_json(name, schema))->0;
    if form {
        member_goes_before("response_format"@, x3, v3, a4, m4);
    }
    let a3 = if form {
        member_text("response_format"@, x3, a4)
    } else {
        a4
    };
    let m3 = if form {
        seq![Member { key: "response_format"@, value: v3 }] + m4
    } else {
        m4
    };
    let x2 = json_string(model);
    let v2 = JsonValue::Text(model);
    member_goes_before("model"@, x2, v2, a3, m3);
    let a2 = member_text("model"@, x2, a3);
    let m2 = seq![Member { key: "model"@, value: v2 }] + m3;
    let x1 = talk;
    let v1 = read_json(talk)->0;
    member_goes_before("messages"@, x1, v1, a2, m2);
    let a1 = member_text("messages"@, x1, a2);
    let m1 = seq![Member { key: "messages"@, value: v1 }] + m2;
    let x0 = decimal(n);
    let v0 = JsonValue::Number(decimal(n));
    if max_tokens is Some {
        number_is_spelled(n);
        member_goes_before("max_tokens"@, x0, v0, a1, m1);
    }
    let a0 = if max_tokens is Some {
        member_text("max_tokens"@, x0, a1)
    } else {
        a1
    };
    let m0 = if max_tokens is Some {
        seq![Member { key: "max_tokens"@, value: v0 }] + m1
    } else {
        m1
    };
    object_is_spelled(a0.skip(1), m0);
    request_is_its_members(model, input, max_tokens, stream, stream_usage);
    spelled_is_read(request_json(model, input, max_tokens, stream, stream_usage), JsonValue::Object(m0));
}

/// Each of the provider's words for why a model stopped is told apart, a word that is not
/// known is kept, and no word is no reason.
pub proof fn reasons_are_told_apart(word: Option<Seq<char>>)
    ensures
        ({
            let reason = reason_of(word);
            &&& reason == FinishReasonView::Stop <==> word == Some("stop"@)
            &&& reason == FinishReasonView::ToolCalls <==> word == Some("tool_calls"@)
            &&& reason == FinishReasonView::Length <==> word == Some("length"@)
            &&& reason == FinishReasonView::ContentFiltered <==> word == Some("content_filter"@)
            &&& reason == FinishReasonView::Unknown <==> word is None
            &&& reason is Other ==> word == Some(reason->code)
        }),
{
    reveal_strlit("stop");
    reveal_strlit("tool_calls");
    reveal_strlit("length");
    reveal_strlit("content_filter");
    assert("stop"@.len() != "tool_calls"@.len());
    assert("stop"@.len() != "length"@.len());
    assert("stop"@.len() != "content_filter"@.len());
    assert("tool_calls"@.len() != "length"@.len());
    assert("tool_calls"@.len() != "content_filter"@.len());
    assert("length"@.len() != "content_filter"@.len());
}

proof fn bad_call_is_first(calls: Seq<WireCall>, k: int)
    requires
        0 <= k <= calls.len(),
    ensures
        k <= bad_call(calls, k) <= calls.len(),
        forall|i: int|
            k <= i < bad_call(calls, k) ==> (#[trigger] calls[i]).kind@ == "function"@ && i <= u32::MAX,
        bad_call(calls, k) < calls.len() ==> calls[bad_call(calls, k)].kind@ != "function"@ || bad_call(
            calls,
            k,
        ) > u32::MAX,
    decreases calls.len() - k,
{
    if k < calls.len() && calls[k].kind@ == "function"@ && k <= u32::MAX {
        bad_call_is_first(calls, k + 1);
    }
}

/// A completion that is good as a whole is told whole: its text first, where it has any,
/// and then every call in its place, with its own identity, name and arguments. It is
/// good where every call is one of a function.
pub proof fn completions_are_told_whole(plan: CompletionPlan, choice: WireChoice)
    requires
        plans(plan, choice),
        choice.tool_calls@.len() <= u32::MAX,
    ensures
        ({
            let calls = choice.tool_calls@;
            let told = plan.deltas.deep_view();
            let first: int = if choice.content is Some {
                1
            } else {
                0
            };
            &&& plan.end is Ok <==> forall|i: int|
                0 <= i < calls.len() ==> (#[trigger] calls[i]).kind@ == "function"@
            &&& choice.content matches Some(text) ==> told.len() > 0 && told[0] == (
            GenerationDeltaView::Text { text: text@ })
            &&& plan.end is Ok ==> {
                &&& told.len() == first + calls.len()
                &&& forall|i: int|
                    0 <= i < calls.len() ==> #[trigger] told[first + i] == (
                    GenerationDeltaView::ToolCall {
                        index: i as u32,
                        id: Some(calls[i].id@),
                        name: Some(calls[i].name@),
                        arguments: calls[i].arguments@,
                    })
            }
        }),
{
    let calls = choice.tool_calls@;
    bad_call_is_first(calls, 0);
    let good = bad_call(calls, 0);
    let head = text_deltas(choice.content.deep_view());
    let tail = call_deltas(calls, good);
    assert(plan.deltas.deep_view() == head + tail);
    if good < calls.len() {
        assert(calls[good].kind@ != "function"@);
    }
}

} // verus!
