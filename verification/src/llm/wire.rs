//! Requests and completions as the compatible HTTP interface writes them.

use crate::generation::{
    FinishReason, FinishReasonView, GenerationConstraint, GenerationConstraintView, GenerationDelta,
    GenerationDeltaView, GenerationRequest, GenerationRequestView, ModelMessage, ModelMessageView, ModelToolCall, ModelToolCallView, ModelToolDefinition,
    ModelToolDefinitionView, TokenUsage, ToolChoice, ToolChoiceView,
};
use crate::json::{decimal, decimal_text, json_string, quote, Json};
use crate::record::Record;
use crate::session::outcome_text::{bool_text, bool_text_of};
use crate::text::same_text;
use vstd::prelude::*;

verus! {

// ---- requests: compact JSON, the keys of each object in order ----

pub open spec fn call_json(call: ModelToolCallView) -> Seq<char> {
    "{\"function\":{\"arguments\":"@ + json_string(call.arguments) + ",\"name\":"@ + json_string(
        call.name,
    ) + "},\"id\":"@ + json_string(call.id) + ",\"type\":\"function\"}"@
}

pub open spec fn calls_json(calls: Seq<ModelToolCallView>) -> Seq<char>
    decreases calls.len(),
{
    if calls.len() == 0 {
        Seq::empty()
    } else if calls.len() == 1 {
        call_json(calls[0])
    } else {
        calls_json(calls.drop_last()) + ","@ + call_json(calls.last())
    }
}

pub open spec fn message_json(message: ModelMessageView) -> Seq<char> {
    match message {
        ModelMessageView::System { content } => "{\"content\":"@ + json_string(content)
            + ",\"role\":\"system\"}"@,
        ModelMessageView::User { content } => "{\"content\":"@ + json_string(content)
            + ",\"role\":\"user\"}"@,
        ModelMessageView::Assistant { content, tool_calls } => "{\"content\":"@ + (match content {
            Some(content) => json_string(content),
            None => "null"@,
        }) + ",\"role\":\"assistant\""@ + (if tool_calls.len() == 0 {
            ""@
        } else {
            ",\"tool_calls\":["@ + calls_json(tool_calls) + "]"@
        }) + "}"@,
        ModelMessageView::Tool { call_id, content } => "{\"content\":"@ + json_string(content)
            + ",\"role\":\"tool\",\"tool_call_id\":"@ + json_string(call_id) + "}"@,
    }
}

pub open spec fn messages_json(messages: Seq<ModelMessageView>) -> Seq<char>
    decreases messages.len(),
{
    if messages.len() == 0 {
        Seq::empty()
    } else if messages.len() == 1 {
        message_json(messages[0])
    } else {
        messages_json(messages.drop_last()) + ","@ + message_json(messages.last())
    }
}

pub open spec fn tool_json(tool: ModelToolDefinitionView) -> Seq<char> {
    "{\"function\":{\"description\":"@ + json_string(tool.description) + ",\"name\":"@
        + json_string(tool.name) + ",\"parameters\":"@ + tool.parameters
        + "},\"type\":\"function\"}"@
}

pub open spec fn tools_json(tools: Seq<ModelToolDefinitionView>) -> Seq<char>
    decreases tools.len(),
{
    if tools.len() == 0 {
        Seq::empty()
    } else if tools.len() == 1 {
        tool_json(tools[0])
    } else {
        tools_json(tools.drop_last()) + ","@ + tool_json(tools.last())
    }
}

pub open spec fn choice_json(choice: ToolChoiceView) -> Seq<char> {
    match choice {
        ToolChoiceView::Auto => "\"auto\""@,
        ToolChoiceView::Required => "\"required\""@,
        ToolChoiceView::Named { name } => "{\"function\":{\"name\":"@ + json_string(name)
            + "},\"type\":\"function\"}"@,
    }
}

/// The body of a request.
pub open spec fn request_json(
    model: Seq<char>,
    input: GenerationRequestView,
    max_tokens: Option<u32>,
    stream: bool,
    stream_usage: bool,
) -> Seq<char> {
    let head = match max_tokens {
        Some(n) => "{\"max_tokens\":"@ + decimal(n as nat) + ","@,
        None => "{"@,
    };
    let body = head + "\"messages\":["@ + messages_json(input.messages) + "],\"model\":"@
        + json_string(model);
    let format = match input.constraint {
        GenerationConstraintView::JsonSchema { name, schema } => body
            + ",\"response_format\":{\"json_schema\":{\"name\":"@ + json_string(name)
            + ",\"schema\":"@ + schema + ",\"strict\":false},\"type\":\"json_schema\"}"@,
        _ => body,
    };
    let streamed = format + ",\"stream\":"@ + bool_text_of(stream);
    let counted = if stream && stream_usage {
        streamed + ",\"stream_options\":{\"include_usage\":true}"@
    } else {
        streamed
    };
    let tools = match input.constraint {
        GenerationConstraintView::NativeTools { tools, choice } => counted + ",\"tool_choice\":"@
            + choice_json(choice) + ",\"tools\":["@ + tools_json(tools) + "]"@,
        _ => counted,
    };
    tools + "}"@
}

fn call_text(call: &ModelToolCall) -> (text: String)
    ensures
        text@ == call_json(call@),
{
    let mut text = "{\"function\":{\"arguments\":".to_owned();
    text.push_str(quote(call.arguments.as_str()).as_str());
    text.push_str(",\"name\":");
    text.push_str(quote(call.name.as_str()).as_str());
    text.push_str("},\"id\":");
    text.push_str(quote(call.id.as_str()).as_str());
    text.push_str(",\"type\":\"function\"}");
    text
}

fn calls_text(calls: &Vec<ModelToolCall>) -> (text: String)
    ensures
        text@ == calls_json(calls.deep_view()),
{
    let ghost views = calls.deep_view();
    let mut text = String::new();
    let mut i: usize = 0;
    assert(views.take(0) =~= Seq::empty());
    assert(text@ =~= Seq::empty());
    while i < calls.len()
        invariant
            i <= calls@.len(),
            views == calls.deep_view(),
            text@ == calls_json(views.take(i as int)),
        decreases calls@.len() - i,
    {
        proof {
            assert(views[i as int] == calls@[i as int]@);
            assert(views.take(i + 1).drop_last() =~= views.take(i as int));
            assert(views.take(i + 1).last() == views[i as int]);
            if i == 0 {
                assert(Seq::<char>::empty() + call_json(views[0]) =~= call_json(views[0]));
            }
        }
        if i > 0 {
            text.push_str(",");
        }
        text.push_str(call_text(&calls[i]).as_str());
        i = i + 1;
    }
    assert(views.take(views.len() as int) =~= views);
    text
}

fn message_text(message: &ModelMessage) -> (text: String)
    ensures
        text@ == message_json(message@),
{
    let mut text = "{\"content\":".to_owned();
    match message {
        ModelMessage::System { content } => {
            text.push_str(quote(content.as_str()).as_str());
            text.push_str(",\"role\":\"system\"}");
        },
        ModelMessage::User { content } => {
            text.push_str(quote(content.as_str()).as_str());
            text.push_str(",\"role\":\"user\"}");
        },
        ModelMessage::Assistant { content, tool_calls } => {
            match content {
                Some(content) => {
                    text.push_str(quote(content.as_str()).as_str());
                },
                None => {
                    text.push_str("null");
                },
            }
            text.push_str(",\"role\":\"assistant\"");
            if tool_calls.len() > 0 {
                let calls = calls_text(tool_calls);
                let mut field = ",\"tool_calls\":[".to_owned();
                field.push_str(calls.as_str());
                field.push_str("]");
                text.push_str(field.as_str());
            } else {
                text.push_str("");
            }
            text.push_str("}");
        },
        ModelMessage::Tool { call_id, content } => {
            text.push_str(quote(content.as_str()).as_str());
            text.push_str(",\"role\":\"tool\",\"tool_call_id\":");
            text.push_str(quote(call_id.as_str()).as_str());
            text.push_str("}");
        },
    }
    text
}

fn messages_text(messages: &Vec<ModelMessage>) -> (text: String)
    ensures
        text@ == messages_json(messages.deep_view()),
{
    let ghost views = messages.deep_view();
    let mut text = String::new();
    let mut i: usize = 0;
    assert(views.take(0) =~= Seq::empty());
    assert(text@ =~= Seq::empty());
    while i < messages.len()
        invariant
            i <= messages@.len(),
            views == messages.deep_view(),
            text@ == messages_json(views.take(i as int)),
        decreases messages@.len() - i,
    {
        proof {
            assert(views[i as int] == messages@[i as int]@);
            assert(views.take(i + 1).drop_last() =~= views.take(i as int));
            assert(views.take(i + 1).last() == views[i as int]);
            if i == 0 {
                assert(Seq::<char>::empty() + message_json(views[0]) =~= message_json(views[0]));
            }
        }
        if i > 0 {
            text.push_str(",");
        }
        text.push_str(message_text(&messages[i]).as_str());
        i = i + 1;
    }
    assert(views.take(views.len() as int) =~= views);
    text
}

fn tool_text(tool: &ModelToolDefinition) -> (text: String)
    ensures
        text@ == tool_json(tool@),
{
    let mut text = "{\"function\":{\"description\":".to_owned();
    text.push_str(quote(tool.description.as_str()).as_str());
    text.push_str(",\"name\":");
    text.push_str(quote(tool.name.as_str()).as_str());
    text.push_str(",\"parameters\":");
    text.push_str(tool.parameters.as_str());
    text.push_str("},\"type\":\"function\"}");
    text
}

fn tools_text(tools: &Vec<ModelToolDefinition>) -> (text: String)
    ensures
        text@ == tools_json(tools.deep_view()),
{
    let ghost views = tools.deep_view();
    let mut text = String::new();
    let mut i: usize = 0;
    assert(views.take(0) =~= Seq::empty());
    assert(text@ =~= Seq::empty());
    while i < tools.len()
        invariant
            i <= tools@.len(),
            views == tools.deep_view(),
            text@ == tools_json(views.take(i as int)),
        decreases tools@.len() - i,
    {
        proof {
            assert(views[i as int] == tools@[i as int]@);
            assert(views.take(i + 1).drop_last() =~= views.take(i as int));
            assert(views.take(i + 1).last() == views[i as int]);
            if i == 0 {
                assert(Seq::<char>::empty() + tool_json(views[0]) =~= tool_json(views[0]));
            }
        }
        if i > 0 {
            text.push_str(",");
        }
        text.push_str(tool_text(&tools[i]).as_str());
        i = i + 1;
    }
    assert(views.take(views.len() as int) =~= views);
    text
}

fn choice_text(choice: &ToolChoice) -> (text: String)
    ensures
        text@ == choice_json(choice@),
{
    match choice {
        ToolChoice::Auto => "\"auto\"".to_owned(),
        ToolChoice::Required => "\"required\"".to_owned(),
        ToolChoice::Named { name } => {
            let mut text = "{\"function\":{\"name\":".to_owned();
            text.push_str(quote(name.as_str()).as_str());
            text.push_str("},\"type\":\"function\"}");
            text
        },
    }
}

/// The body of a request.
pub fn request(
    model: &str,
    input: &GenerationRequest,
    max_tokens: Option<u32>,
    stream: bool,
    stream_usage: bool,
) -> (payload: Json)
    ensures
        payload@ == request_json(model@, input@, max_tokens, stream, stream_usage),
{
    let mut text = "{".to_owned();
    match max_tokens {
        Some(n) => {
            text = "{\"max_tokens\":".to_owned();
            text.push_str(decimal_text(n as u64).as_str());
            text.push_str(",");
        },
        None => {},
    }
    text.push_str("\"messages\":[");
    text.push_str(messages_text(&input.messages).as_str());
    text.push_str("],\"model\":");
    text.push_str(quote(model).as_str());
    match &input.constraint {
        GenerationConstraint::JsonSchema { name, schema } => {
            text.push_str(",\"response_format\":{\"json_schema\":{\"name\":");
            text.push_str(quote(name.as_str()).as_str());
            text.push_str(",\"schema\":");
            text.push_str(schema.as_str());
            text.push_str(",\"strict\":false},\"type\":\"json_schema\"}");
        },
        _ => {},
    }
    text.push_str(",\"stream\":");
    text.push_str(bool_text(stream));
    if stream && stream_usage {
        text.push_str(",\"stream_options\":{\"include_usage\":true}");
    }
    match &input.constraint {
        GenerationConstraint::NativeTools { tools, choice } => {
            text.push_str(",\"tool_choice\":");
            text.push_str(choice_text(choice).as_str());
            text.push_str(",\"tools\":[");
            text.push_str(tools_text(tools).as_str());
            text.push_str("]");
        },
        _ => {},
    }
    text.push_str("}");
    Json::from_compact(text)
}

// ---- completions ----

/// Why the model stopped, by the provider's word for it.
pub open spec fn reason_of(word: Option<Seq<char>>) -> FinishReasonView {
    match word {
        None => FinishReasonView::Unknown,
        Some(word) => if word == "stop"@ {
            FinishReasonView::Stop
        } else if word == "tool_calls"@ {
            FinishReasonView::ToolCalls
        } else if word == "length"@ {
            FinishReasonView::Length
        } else if word == "content_filter"@ {
            FinishReasonView::ContentFiltered
        } else {
            FinishReasonView::Other { code: word }
        },
    }
}

/// Why the model stopped, by the provider's word for it.
pub fn reason(word: Option<String>) -> (reason: FinishReason)
    ensures
        reason@ == reason_of(word.deep_view()),
{
    match word {
        None => FinishReason::Unknown,
        Some(word) => {
            if same_text(word.as_str(), "stop") {
                FinishReason::Stop
            } else if same_text(word.as_str(), "tool_calls") {
                FinishReason::ToolCalls
            } else if same_text(word.as_str(), "length") {
                FinishReason::Length
            } else if same_text(word.as_str(), "content_filter") {
                FinishReason::ContentFiltered
            } else {
                FinishReason::Other { code: word }
            }
        },
    }
}

/// A tool call in a completion.
#[derive(Debug, PartialEq, Eq)]
pub struct WireCall {
    pub id: String,
    pub kind: String,
    pub name: String,
    pub arguments: String,
}

/// One choice of a completion.
#[derive(Debug, PartialEq, Eq)]
pub struct WireChoice {
    pub index: u32,
    pub role: Option<String>,
    pub content: Option<String>,
    pub tool_calls: Vec<WireCall>,
    /// The old form of a call is there.
    pub function_call: bool,
    pub finish_reason: Option<String>,
}

/// What a completion says: the pieces in their order, and how it ends. Where it is no
/// completion, the pieces before the fault come first.
#[derive(Debug, PartialEq, Eq)]
pub struct CompletionPlan {
    pub deltas: Vec<GenerationDelta>,
    pub end: Result<FinishReason, CompletionFault>,
}

#[derive(Clone, Copy, Debug, PartialEq, Eq, Structural)]
pub enum CompletionFault {
    /// Not exactly one choice.
    ChoiceCount,
    /// Another choice, another role or the old form of a call.
    UnsupportedChoice,
    /// A call of something else than a function.
    UnsupportedCall,
    /// More calls than can be numbered.
    OutputLimitExceeded,
}

/// The words for a fault. The last one is no fault of the text.
pub fn fault_text(fault: CompletionFault) -> (text: &'static str)
    ensures
        text@ == match fault {
            CompletionFault::ChoiceCount => "exactly one completion choice is required"@,
            CompletionFault::UnsupportedChoice => "unsupported completion choice or message"@,
            CompletionFault::UnsupportedCall => "unsupported tool-call kind"@,
            CompletionFault::OutputLimitExceeded => "model output exceeded its limit"@,
        },
{
    match fault {
        CompletionFault::ChoiceCount => "exactly one completion choice is required",
        CompletionFault::UnsupportedChoice => "unsupported completion choice or message",
        CompletionFault::UnsupportedCall => "unsupported tool-call kind",
        CompletionFault::OutputLimitExceeded => "model output exceeded its limit",
    }
}

/// The choice is the first and only one, said by the assistant, in the current form.
pub open spec fn is_supported(choice: WireChoice) -> bool {
    &&& choice.index == 0
    &&& match choice.role {
        Some(role) => role@ == "assistant"@,
        None => true,
    }
    &&& !choice.function_call
}

/// The first call of something else than a function, or the first that has no number.
pub open spec fn bad_call(calls: Seq<WireCall>, k: int) -> int
    decreases calls.len() - k,
{
    if k < 0 || k >= calls.len() || calls[k].kind@ != "function"@ || k > u32::MAX {
        k
    } else {
        bad_call(calls, k + 1)
    }
}

pub open spec fn call_delta(call: WireCall, k: int) -> GenerationDeltaView {
    GenerationDeltaView::ToolCall {
        index: k as u32,
        id: Some(call.id@),
        name: Some(call.name@),
        arguments: call.arguments@,
    }
}

/// The pieces of the first `n` calls.
pub open spec fn call_deltas(calls: Seq<WireCall>, n: int) -> Seq<GenerationDeltaView> {
    Seq::new(n as nat, |k: int| call_delta(calls[k], k))
}

pub open spec fn text_deltas(content: Option<Seq<char>>) -> Seq<GenerationDeltaView> {
    match content {
        Some(text) => seq![GenerationDeltaView::Text { text }],
        None => Seq::empty(),
    }
}

/// The plan says what the choice says.
pub open spec fn plans(plan: CompletionPlan, choice: WireChoice) -> bool {
    let good = bad_call(choice.tool_calls@, 0);
    &&& plan.deltas.deep_view() == text_deltas(choice.content.deep_view()) + call_deltas(
        choice.tool_calls@,
        good,
    )
    &&& match plan.end {
        Ok(reason) => good == choice.tool_calls@.len() && reason@ == reason_of(
            choice.finish_reason.deep_view(),
        ),
        Err(fault) => good < choice.tool_calls@.len() && fault == if choice.tool_calls@[good].kind@
            != "function"@ {
            CompletionFault::UnsupportedCall
        } else {
            CompletionFault::OutputLimitExceeded
        },
    }
}

/// What a parsed completion says.
pub fn decode(choices: &Vec<WireChoice>) -> (plan: CompletionPlan)
    ensures
        if choices@.len() != 1 {
            plan.deltas@.len() == 0 && plan.end == Err::<FinishReason, CompletionFault>(
                CompletionFault::ChoiceCount,
            )
        } else if !is_supported(choices@[0]) {
            plan.deltas@.len() == 0 && plan.end == Err::<FinishReason, CompletionFault>(
                CompletionFault::UnsupportedChoice,
            )
        } else {
            plans(plan, choices@[0])
        },
{
    let deltas: Vec<GenerationDelta> = Vec::new();
    if choices.len() != 1 {
        return CompletionPlan { deltas, end: Err(CompletionFault::ChoiceCount) };
    }
    let choice = &choices[0];
    let foreign_role: bool = match &choice.role {
        Some(role) => !same_text(role.as_str(), "assistant"),
        None => false,
    };
    if choice.index != 0 || foreign_role || choice.function_call {
        return CompletionPlan { deltas, end: Err(CompletionFault::UnsupportedChoice) };
    }
    decode_choice(choice)
}

fn decode_choice(choice: &WireChoice) -> (plan: CompletionPlan)
    ensures
        plans(plan, *choice),
{
    let ghost calls = choice.tool_calls@;
    let ghost head = text_deltas(choice.content.deep_view());
    let mut deltas: Vec<GenerationDelta> = Vec::new();
    assert(deltas.deep_view() =~= Seq::empty());
    match &choice.content {
        Some(text) => {
            let ghost before = deltas.deep_view();
            let delta = GenerationDelta::Text { text: text.clone() };
            deltas.push(delta);
            assert(deltas.deep_view() =~= before.push(delta@));
        },
        None => {},
    }
    let mut k: usize = 0;
    assert(deltas.deep_view() =~= head + call_deltas(calls, 0));
    while k < choice.tool_calls.len()
        invariant
            k <= calls.len(),
            calls == choice.tool_calls@,
            head == text_deltas(choice.content.deep_view()),
            deltas.deep_view() == head + call_deltas(calls, k as int),
            bad_call(calls, 0) == bad_call(calls, k as int),
        decreases calls.len() - k,
    {
        let call = &choice.tool_calls[k];
        if !same_text(call.kind.as_str(), "function") {
            return CompletionPlan { deltas, end: Err(CompletionFault::UnsupportedCall) };
        }
        if k > 0xffff_ffff {
            return CompletionPlan { deltas, end: Err(CompletionFault::OutputLimitExceeded) };
        }
        let ghost before = deltas.deep_view();
        let delta = GenerationDelta::ToolCall {
            index: k as u32,
            id: Some(call.id.clone()),
            name: Some(call.name.clone()),
            arguments: call.arguments.clone(),
        };
        deltas.push(delta);
        proof {
            assert(delta@ == call_delta(calls[k as int], k as int));
            assert(deltas.deep_view() =~= before.push(delta@));
            assert(deltas.deep_view() =~= head + call_deltas(calls, k + 1));
        }
        k = k + 1;
    }
    let end = reason(choice.finish_reason.duplicate());
    CompletionPlan { deltas, end: Ok(end) }
}

/// Tokens as the provider counted them, under its names for them.
pub fn usage(prompt_tokens: Option<u64>, completion_tokens: Option<u64>, total_tokens: Option<u64>) -> (usage: TokenUsage)
    ensures
        usage == (TokenUsage {
            input_tokens: prompt_tokens,
            output_tokens: completion_tokens,
            total_tokens,
        }),
{
    TokenUsage { input_tokens: prompt_tokens, output_tokens: completion_tokens, total_tokens }
}

} // verus!
