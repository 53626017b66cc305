//! What a model hears of a tool that was called for it.

use crate::agent::action::{
    feedback_text, finishes, is_prepared, is_viewed, opening, step_input, ActionStepReport, ContextActionError,
    ContextActionInput, ContextActionProtocol, ContextActionReport, StepOutcome,
};
use crate::context::budgeting::ContextBuildReport;
use crate::context::builder::{built, ContextTokenCounter};
use crate::context::builder_laws::contexts_hold_their_frame;
use crate::context::content::{
    is_projection, outcome_text, previews_are_honest, projects, is_asked, ContentStore, ToolResultPolicy,
};
use crate::context::result_text::result_json_of;
use crate::context::result_text_laws::{results_can_be_read, says_result};
use crate::context::viewing::{
    ContentReferenceView, ContentScopeView, ResultSelection, ToolOutcomeModel, ToolResultModel, ToolView,
    ViewError,
};
use crate::generation::{GenerationRequestView, ModelMessageView};
use crate::json::json_string;
use crate::json_reading::{
    field, follows_member, member_goes_before, member_text, number_of, object_is_spelled, plain_is_quoted,
    read_json, spelled_is_read, spells, text_is_spelled, JsonValue, Member,
};
use crate::session::outcome_laws::names_category;
use crate::session::tool_record::ToolRecordedOutcomeView;
use crate::text::byte_len;
use crate::tool::vocabulary::ToolExecution;
use vstd::prelude::*;
use vstd::utf8::*;

verus! {

#[verifier::spinoff_prover]
#[verifier::rlimit(30)]
proof fn feedback_can_be_read_text(p0: Seq<char>, p1: Seq<char>, p4: Seq<char>)
    ensures
        "{\"name\":"@ + p0 + ",\"runtime_call_id\":"@ + p1 + ",\"trust\":\"untrusted_tool_data\",\"type\":\"jingwei_tool_result\",\"view\":"@ + p4 + "}"@ == seq!['{'] + member_text("name"@, p0, member_text("runtime_call_id"@, p1, member_text("trust"@, (seq!['"'] + "untrusted_tool_data"@ + seq!['"']), member_text("type"@, (seq!['"'] + "jingwei_tool_result"@ + seq!['"']), member_text("view"@, p4, seq!['}']))))).skip(1),
{
    reveal_strlit("name");
    reveal_strlit("runtime_call_id");
    reveal_strlit("trust");
    reveal_strlit("untrusted_tool_data");
    reveal_strlit("type");
    reveal_strlit("jingwei_tool_result");
    reveal_strlit("view");
    reveal_strlit("{\"name\":");
    reveal_strlit(",\"runtime_call_id\":");
    reveal_strlit(",\"trust\":\"untrusted_tool_data\",\"type\":\"jingwei_tool_result\",\"view\":");
    reveal_strlit("}");
    let b5 = seq!['}'];
    let b4 = member_text("view"@, p4, b5);
    let b3 = member_text("type"@, (seq!['"'] + "jingwei_tool_result"@ + seq!['"']), b4);
    let b2 = member_text("trust"@, (seq!['"'] + "untrusted_tool_data"@ + seq!['"']), b3);
    let b1 = member_text("runtime_call_id"@, p1, b2);
    let b0 = member_text("name"@, p0, b1);
    let s6 = "}"@;
    let s5 = p4 + s6;
    let s4 = ",\"trust\":\"untrusted_tool_data\",\"type\":\"jingwei_tool_result\",\"view\":"@ + s5;
    let s3 = p1 + s4;
    let s2 = ",\"runtime_call_id\":"@ + s3;
    let s1 = p0 + s2;
    let s0 = "{\"name\":"@ + s1;
    assert(s6 =~= b5);
    assert(s4 =~= b2);
    assert(s2 =~= b1);
    assert(s0 =~= seq!['{'] + b0.skip(1));
    assert(("{\"name\":"@ + p0) + s2 =~= s0);
    assert(("{\"name\":"@ + p0 + ",\"runtime_call_id\":"@) + s3 =~= s0);
    assert(("{\"name\":"@ + p0 + ",\"runtime_call_id\":"@ + p1) + s4 =~= s0);
    assert(("{\"name\":"@ + p0 + ",\"runtime_call_id\":"@ + p1 + ",\"trust\":\"untrusted_tool_data\",\"type\":\"jingwei_tool_result\",\"view\":"@) + s5 =~= s0);
    assert(("{\"name\":"@ + p0 + ",\"runtime_call_id\":"@ + p1 + ",\"trust\":\"untrusted_tool_data\",\"type\":\"jingwei_tool_result\",\"view\":"@ + p4) + s6 =~= s0);
}

/// What a model is told of a result is read as the name of the tool, the identity of the
/// call and the view of its result, marked as data that nobody vouches for.
#[verifier::spinoff_prover]
#[verifier::rlimit(60)]
pub proof fn feedback_can_be_read(name: Seq<char>, call_id: Seq<char>, result: ToolResultModel)
    ensures
        read_json(feedback_text(name, call_id, result)) is Some,
        spells(feedback_text(name, call_id, result), read_json(feedback_text(name, call_id, result))->0),
        ({
            let value = read_json(feedback_text(name, call_id, result))->0;
            &&& field(value, "name"@) == Some(JsonValue::Text(name))
            &&& field(value, "runtime_call_id"@) == Some(JsonValue::Text(call_id))
            &&& field(value, "trust"@) == Some(JsonValue::Text("untrusted_tool_data"@))
            &&& field(value, "type"@) == Some(JsonValue::Text("jingwei_tool_result"@))
            &&& field(value, "view"@) matches Some(view)
            &&& says_result(view, result)
        }),
{
    reveal_strlit("name");
    reveal_strlit("runtime_call_id");
    reveal_strlit("trust");
    reveal_strlit("type");
    reveal_strlit("view");
    assert("name"@.len() != "runtime_call_id"@.len());
    assert("name"@.len() != "trust"@.len());
    assert("runtime_call_id"@.len() != "trust"@.len());
    assert("name"@[0] != "type"@[0]);
    assert("runtime_call_id"@.len() != "type"@.len());
    assert("trust"@.len() != "type"@.len());
    assert("name"@[0] != "view"@[0]);
    assert("runtime_call_id"@.len() != "view"@.len());
    assert("trust"@.len() != "view"@.len());
    assert("type"@[0] != "view"@[0]);
    text_is_spelled(name);
    text_is_spelled(call_id);
    reveal_strlit("untrusted_tool_data");
    plain_is_quoted("untrusted_tool_data"@);
    reveal_strlit("jingwei_tool_result");
    plain_is_quoted("jingwei_tool_result"@);
    results_can_be_read(result);
    let view = read_json(result_json_of(result))->0;
    let a5 = seq!['}'];
    let m5 = Seq::<Member>::empty();
    assert(follows_member(a5, m5));
    let x4 = result_json_of(result);
    let v4 = view;
    member_goes_before("view"@, x4, v4, a5, m5);
    let a4 = member_text("view"@, x4, a5);
    let m4 = seq![Member { key: "view"@, value: v4 }] + m5;
    let x3 = seq!['"'] + "jingwei_tool_result"@ + seq!['"'];
    let v3 = JsonValue::Text("jingwei_tool_result"@);
    member_goes_before("type"@, x3, v3, a4, m4);
    let a3 = member_text("type"@, x3, a4);
    let m3 = seq![Member { key: "type"@, value: v3 }] + m4;
    let x2 = seq!['"'] + "untrusted_tool_data"@ + seq!['"'];
    let v2 = JsonValue::Text("untrusted_tool_data"@);
    member_goes_before("trust"@, x2, v2, a3, m3);
    let a2 = member_text("trust"@, x2, a3);
    let m2 = seq![Member { key: "trust"@, value: v2 }] + m3;
    let x1 = json_string(call_id);
    let v1 = JsonValue::Text(call_id);
    member_goes_before("runtime_call_id"@, x1, v1, a2, m2);
    let a1 = member_text("runtime_call_id"@, x1, a2);
    let m1 = seq![Member { key: "runtime_call_id"@, value: v1 }] + m2;
    let x0 = json_string(name);
    let v0 = JsonValue::Text(name);
    member_goes_before("name"@, x0, v0, a1, m1);
    let a0 = member_text("name"@, x0, a1);
    let m0 = seq![Member { key: "name"@, value: v0 }] + m1;
    object_is_spelled(a0.skip(1), m0);
    feedback_can_be_read_text(json_string(name), json_string(call_id), result_json_of(result));
    spelled_is_read(feedback_text(name, call_id, result), JsonValue::Object(m0));
}

/// The value shows a beginning of the text, and says how long the whole is.
pub open spec fn shows_beginning(value: JsonValue, text: Seq<char>) -> bool {
    &&& field(value, "text"@) matches Some(JsonValue::Text(shown))
    &&& encode_utf8(shown).is_prefix_of(encode_utf8(text))
    &&& field(value, "total_bytes"@) matches Some(JsonValue::Number(digits))
    &&& number_of(digits) == byte_len(text)
    &&& field(value, "truncated"@) == Some(JsonValue::Truth(byte_len(shown) < byte_len(text)))
}

/// The value tells what was recorded: a success as a success, a failure as that failure,
/// and of the text no other than its beginning.
pub open spec fn tells_recorded(value: JsonValue, outcome: ToolRecordedOutcomeView) -> bool {
    match outcome {
        ToolRecordedOutcomeView::Succeeded { output } => {
            &&& field(value, "status"@) == Some(JsonValue::Text("succeeded"@))
            &&& field(value, "output"@) matches Some(content)
            &&& shows_beginning(content, output)
        },
        ToolRecordedOutcomeView::Failed { category, code, message, retryable } => {
            &&& field(value, "status"@) == Some(JsonValue::Text("failed"@))
            &&& field(value, "category"@) matches Some(JsonValue::Text(name))
            &&& names_category(name, category)
            &&& field(value, "code"@) == Some(JsonValue::Text(code))
            &&& field(value, "message"@) matches Some(content)
            &&& shows_beginning(content, message)
            &&& field(value, "retryable"@) == Some(JsonValue::Truth(retryable))
        },
    }
}

/// A projected result keeps its status and every fact of a failure.
pub proof fn projections_keep_the_facts<P: ToolResultPolicy, S: ContentStore>(
    shown: ToolResultModel,
    outcome: ToolRecordedOutcomeView,
    source: Seq<char>,
    scope: ContentScopeView,
    now: u64,
    max: usize,
    policy: P,
    before: S,
    after: S,
)
    requires
        is_projection(
            Ok::<ToolResultModel, ViewError>(shown),
            outcome,
            source,
            scope,
            now,
            max,
            policy,
            before,
            after,
        ),
    ensures
        match outcome {
            ToolRecordedOutcomeView::Succeeded { .. } => shown.outcome is Succeeded,
            ToolRecordedOutcomeView::Failed { category, code, retryable, .. } => {
                &&& shown.outcome matches ToolOutcomeModel::Failed {
                    category: c,
                    code: d,
                    retryable: r,
                    ..
                }
                &&& c == category
                &&& d == code
                &&& r == retryable
            },
        },
        outcome_text(outcome) == match outcome {
            ToolRecordedOutcomeView::Succeeded { output } => output,
            ToolRecordedOutcomeView::Failed { message, .. } => message,
        },
{
    let (chosen, stored) = choose|chosen: Result<ResultSelection, ViewError>, stored: Result<
        ContentReferenceView,
        ViewError,
    >| #[trigger]
        projects(
            Ok::<ToolResultModel, ViewError>(shown),
            outcome,
            source,
            scope,
            now,
            max,
            chosen,
            stored,
        ) && is_asked(outcome, source, scope, now, max, policy, before, after, chosen, stored);
}

/// The text that a message carries.
pub open spec fn told_text(message: ModelMessageView) -> Option<Seq<char>> {
    match message {
        ModelMessageView::System { content } => Some(content),
        ModelMessageView::User { content } => Some(content),
        ModelMessageView::Assistant { content, .. } => content,
        ModelMessageView::Tool { content, .. } => Some(content),
    }
}

/// After a step that called a tool, the last message tells the model what was recorded
/// of that call, and of no other: its name, its identity, the event that records its
/// result, and whether it succeeded or failed. No other message is touched, and an answer
/// stays the answer to the call that the model proposed.
#[verifier::spinoff_prover]
#[verifier::rlimit(60)]
pub proof fn models_hear_what_was_recorded<P: ToolResultPolicy, S: ContentStore>(
    report: ContextActionReport,
    protocol: ContextActionProtocol,
    step: ActionStepReport,
    build: ContextBuildReport,
    tools: ToolView,
    viewed: Option<Result<ToolResultModel, ViewError>>,
    current: Seq<ModelMessageView>,
    base_len: int,
    execution: ToolExecution,
    scope: ContentScopeView,
    now: u64,
    max: usize,
    policy: P,
    before: S,
    after: S,
)
    requires
        step.outcome == (StepOutcome::ToolCompleted { execution }) || step.outcome == (
        StepOutcome::Halted { execution }),
        is_viewed(viewed, step.outcome, scope, now, max, policy, before, after),
        finishes(
            Ok::<ContextActionReport, ContextActionError>(report),
            protocol,
            step,
            build,
            tools,
            viewed,
            current,
            base_len,
        ),
    ensures
        ({
            let given = step.next_messages.deep_view();
            let next = report.step.next_messages.deep_view();
            let last = next.len() - 1;
            &&& next.len() == given.len() > 0
            &&& forall|i: int| 0 <= i < last ==> #[trigger] next[i] == given[i]
            &&& protocol == ContextActionProtocol::Native ==> next[last] is Tool
                && next[last]->Tool_call_id == given[last]->Tool_call_id
            &&& protocol == ContextActionProtocol::Json ==> next[last] is User
            &&& told_text(next[last]) matches Some(text)
            &&& read_json(text) matches Some(value)
            &&& field(value, "name"@) == Some(JsonValue::Text(execution.call@.name))
            &&& field(value, "runtime_call_id"@) == Some(JsonValue::Text(execution.call@.id))
            &&& field(value, "view"@) matches Some(view)
            &&& field(view, "source_event"@) == Some(
                JsonValue::Text(execution.result_event@.event_id),
            )
            &&& field(view, "outcome"@) matches Some(outcome)
            &&& tells_recorded(outcome, execution.result@.outcome)
            &&& report.next_current.deep_view() == current + next.skip(base_len)
        }),
{
    let shown = viewed->0->Ok_0;
    let outcome = execution.result@.outcome;
    let source = execution.result_event@.event_id;
    projections_keep_the_facts(shown, outcome, source, scope, now, max, policy, before, after);
    previews_are_honest(shown, outcome, source, scope, now, max, policy, before, after);
    feedback_can_be_read(execution.call@.name, execution.call@.id, shown);
}

/// A step is opened exactly where its scope is that of the task and of the session, has not
/// expired, and leaves room for a preview and for output; it may then put out what was
/// wanted, or what is reserved where that is less.
pub proof fn steps_open_within_their_bounds(
    task: Seq<char>,
    session: Seq<char>,
    scope: ContentScopeView,
    now: u64,
    max_preview_bytes: usize,
    output_reserve: u64,
    wanted: Option<u32>,
)
    ensures
        ({
            let limit = opening(task, session, scope, now, max_preview_bytes, output_reserve, wanted);
            &&& limit is Some <==> {
                &&& task == scope.task_id && session == scope.session_id
                &&& now < scope.expires_at_ms
                &&& max_preview_bytes > 0
                &&& 0 < output_reserve <= 0xffff_ffff
                &&& wanted != Some(0u32)
            }
            &&& limit matches Some(n) ==> {
                &&& 0 < n <= output_reserve
                &&& wanted matches Some(w) ==> n <= w
                &&& n == output_reserve || wanted == Some(n)
            }
        }),
{
}

/// What a model is asked with starts with the protocol's own instruction, goes on with the
/// host's texts in their order and ends with the whole current conversation; it is
/// constrained as the protocol says.
pub proof fn steps_ask_with_everything_in_order<C: ContextTokenCounter>(
    counter: C,
    input: ContextActionInput<'_>,
    prepared: GenerationRequestView,
    input_bytes: usize,
)
    requires
        is_prepared(prepared, input.current.deep_view()),
    ensures
        built(counter, step_input(input, prepared, input_bytes)) matches Ok(context) ==> {
            let messages = context.request.messages;
            let texts = input.system.deep_view();
            let current = input.current.deep_view();
            &&& messages.len() >= 1 + texts.len() + current.len()
            &&& messages[0] == prepared.messages[0]
            &&& forall|i: int|
                0 <= i < texts.len() ==> #[trigger] texts[i] == messages[i + 1]->System_content
                    && messages[i + 1] is System
            &&& forall|i: int|
                0 <= i < current.len() ==> #[trigger] current[i] == messages[messages.len() - current.len()
                    + i]
            &&& context.request.constraint == prepared.constraint
        },
{
    let whole = step_input(input, prepared, input_bytes);
    contexts_hold_their_frame(counter, whole);
    if let Ok(context) = built(counter, whole) {
        let messages = context.request.messages;
        assert(messages[0] == (ModelMessageView::System { content: whole.system[0] }));
        assert forall|i: int| 0 <= i < input.system.deep_view().len() implies #[trigger] input.system.deep_view()[i]
            == messages[i + 1]->System_content && messages[i + 1] is System by {
            assert(whole.system[i + 1] == input.system.deep_view()[i]);
            assert(messages[i + 1] == (ModelMessageView::System { content: whole.system[i + 1] }));
        }
    }
}

} // verus!
