//! One action of an agent: a context within its budget, a decision of the model, at
//! most one tool call, and what the model is told of its result.

use crate::context::budgeting::{
    ContextBudget, ContextBuildError, ContextBuildLimits, ContextBuildReport, ContextTarget,
};
use crate::context::builder::{
    built, built_contexts_fit, CanonicalContextBuilder, ContextBuildInput, ContextTokenCounter,
    InputView,
};
use crate::context::content::{
    is_projection, project_tool_result, result_view, ContentStore, ToolResultPolicy,
};
use crate::context::result_text::{result_json, result_json_of};
use crate::context::viewing::{
    ContentScope, ContentScopeView, ToolResultModel, ToolResultView, ToolView,
    ViewError,
};
use crate::context::vocabulary::ConversationProjection;
use crate::generation::{
    DecisionContext, GenerationRequest, GenerationRequestView, ModelMessage, ModelMessageView,
    ModelToolDefinition,
};
use crate::id::{TaskId, TurnId};
use crate::json::{json_string, quote, Json};
use crate::llm::failure::ModelGatewayError;
use crate::record::Record;
use crate::tool::failure::ToolRuntimeError;
use crate::tool::vocabulary::ToolExecution;
use vstd::prelude::*;

verus! {

/// How a model is asked for its action.
#[derive(Clone, Copy, Debug, PartialEq, Eq, Structural)]
pub enum ContextActionProtocol {
    Native,
    Json,
}

/// What was wrong with a proposed action.
#[derive(Clone, Copy, Debug, PartialEq, Eq, Structural)]
pub enum ActionError {
    EmptyText,
    InvalidAction,
    MultipleActions,
    InvalidArguments,
    ToolNotVisible,
}

/// What a model proposes to do.
#[derive(Debug, PartialEq, Eq)]
pub enum AgentAction {
    CallTool { name: String, arguments: Json },
    Final { text: String },
    AskUser { question: String },
}

/// What an action came to.
#[allow(inconsistent_fields)]
#[derive(Debug, PartialEq, Eq)]
pub enum StepOutcome {
    Final { text: String },
    AskUser { question: String },
    ToolCompleted { execution: ToolExecution },
    Halted { execution: ToolExecution },
}

#[derive(Debug, PartialEq, Eq)]
pub struct ActionStepReport {
    pub context: DecisionContext,
    pub outcome: StepOutcome,
    pub next_messages: Vec<ModelMessage>,
}

#[derive(Debug, PartialEq, Eq)]
pub enum ActionStepFailure {
    Cancelled,
    Model(ModelGatewayError),
    Tool(ToolRuntimeError),
    Validation(ActionError),
}

#[derive(Debug, PartialEq, Eq)]
pub struct ActionStepError {
    pub context: DecisionContext,
    pub failure: ActionStepFailure,
    pub completed_execution: Option<ToolExecution>,
}

#[derive(Debug, PartialEq, Eq)]
pub struct ContextActionReport {
    pub step: ActionStepReport,
    pub build: ContextBuildReport,
    pub tools: ToolView,
    pub result: Option<ToolResultView>,
    /// Messages of the current turn only, for the next step with the same history.
    pub next_current: Vec<ModelMessage>,
}

#[allow(inconsistent_fields)]
#[derive(Debug, PartialEq, Eq)]
pub enum ContextActionError {
    /// Invalid scope or output limit.
    Invalid,
    View(ViewError),
    Protocol(ActionError),
    Build(ContextBuildError),
    Action { error: ActionStepError, build: ContextBuildReport, tools: ToolView },
    /// The tool has already run; the report keeps the evidence of it.
    ResultView { error: ViewError, report: Box<ContextActionReport> },
}

/// What a step is given.
pub struct ContextActionInput<'a> {
    pub task_id: &'a TaskId,
    pub history: &'a ConversationProjection,
    pub system: &'a Vec<String>,
    pub current: &'a Vec<ModelMessage>,
    pub pinned_turns: &'a Vec<TurnId>,
    pub state_version: &'a Option<String>,
    pub target: &'a ContextTarget,
    pub budget: ContextBudget,
    pub limits: ContextBuildLimits,
    pub content_scope: &'a ContentScope,
    /// The host's time, in the units of the scope's expiry.
    pub now_ms: u64,
}

/// The output limit of a step, if the step can be opened at all.
pub open spec fn opening(
    task: Seq<char>,
    session: Seq<char>,
    scope: ContentScopeView,
    now: u64,
    max_preview_bytes: usize,
    output_reserve: u64,
    wanted: Option<u32>,
) -> Option<u32> {
    if task != scope.task_id || session != scope.session_id || scope.expires_at_ms <= now
        || max_preview_bytes == 0 || output_reserve > u32::MAX || output_reserve == 0 || wanted
        == Some(0u32) {
        None
    } else {
        match wanted {
            Some(n) => if n <= output_reserve {
                Some(n)
            } else {
                Some(output_reserve as u32)
            },
            None => Some(output_reserve as u32),
        }
    }
}

/// Opens a step: the scope is the task's and has not expired, and the output limit is
/// the smaller of what is wanted and what is reserved.
pub fn open_step(input: &ContextActionInput<'_>, max_preview_bytes: usize, wanted: Option<u32>) -> (result: Result<
    u32,
    ContextActionError,
>)
    ensures
        match opening(
            input.task_id@,
            input.history@.session_id,
            input.content_scope@,
            input.now_ms,
            max_preview_bytes,
            input.budget.output_reserve,
            wanted,
        ) {
            Some(limit) => result == Ok::<u32, ContextActionError>(limit),
            None => result == Err::<u32, ContextActionError>(ContextActionError::Invalid),
        },
{
    if !input.task_id.is_same(&input.content_scope.task_id) || !input.history.session_id.is_same(
        &input.content_scope.session_id,
    ) || input.content_scope.expires_at_ms <= input.now_ms || max_preview_bytes == 0 {
        return Err(ContextActionError::Invalid);
    }
    if input.budget.output_reserve > u32::MAX as u64 {
        return Err(ContextActionError::Invalid);
    }
    let max_output: u32 = input.budget.output_reserve as u32;
    if max_output == 0 {
        return Err(ContextActionError::Invalid);
    }
    match wanted {
        None => Ok(max_output),
        Some(n) => if n == 0 {
            Err(ContextActionError::Invalid)
        } else if n <= max_output {
            Ok(n)
        } else {
            Ok(max_output)
        },
    }
}

/// A protocol's request adds one system instruction in front of the current messages
/// and changes nothing else.
pub open spec fn is_prepared(prepared: GenerationRequestView, current: Seq<ModelMessageView>) -> bool {
    prepared.messages.len() > 0 && prepared.messages[0] is System && prepared.messages.skip(1)
        == current
}

/// What the context of a step is built from.
pub open spec fn step_input(
    input: ContextActionInput<'_>,
    prepared: GenerationRequestView,
    input_bytes: usize,
) -> InputView {
    InputView {
        history: input.history@,
        system: seq![prepared.messages[0]->System_content] + input.system.deep_view(),
        current: input.current.deep_view(),
        constraint: prepared.constraint,
        pinned: input.pinned_turns.deep_view(),
        state_version: input.state_version.deep_view(),
        target: input.target@,
        budget: input.budget,
        limits: input.limits,
        input_bytes,
    }
}

/// A step that is ready to be asked for.
#[derive(Debug, PartialEq, Eq)]
pub struct PreparedStep {
    pub request: GenerationRequest,
    pub report: ContextBuildReport,
    /// The request without the protocol's own instruction, which must not pile up from
    /// step to step.
    pub base: Vec<ModelMessage>,
}

/// The messages but the first.
fn tail_of(messages: &Vec<ModelMessage>) -> (tail: Vec<ModelMessage>)
    requires
        messages@.len() > 0,
    ensures
        tail.deep_view() == messages.deep_view().skip(1),
{
    let ghost views = messages.deep_view();
    let mut tail: Vec<ModelMessage> = Vec::new();
    let mut i: usize = 1;
    while i < messages.len()
        invariant
            1 <= i <= messages@.len(),
            views == messages.deep_view(),
            tail@.len() == i - 1,
            forall|k: int| 0 <= k < i - 1 ==> (#[trigger] tail@[k])@ == views[k + 1],
        decreases messages@.len() - i,
    {
        assert(views[i as int] == messages@[i as int]@);
        tail.push(messages[i].duplicate());
        i = i + 1;
    }
    assert(tail.deep_view() =~= views.skip(1));
    tail
}

/// Builds the context of a step from a protocol's request, within the budget. The
/// request that was counted is the one that is sent.
pub fn prepare_step<C: ContextTokenCounter>(
    input: &ContextActionInput<'_>,
    prepared: &GenerationRequest,
    input_bytes: usize,
    counter: &C,
) -> (result: Result<PreparedStep, ContextActionError>)
    requires
        prepared.messages@.len() > 0,
    ensures
        if !is_prepared(prepared@, input.current.deep_view()) {
            result == Err::<PreparedStep, ContextActionError>(ContextActionError::Invalid)
        } else {
            match built(*counter, step_input(*input, prepared@, input_bytes)) {
                Ok(context) => {
                    &&& result matches Ok(step)
                    &&& step.request@ == context.request
                    &&& step.report@ == context.report
                    &&& step.base.deep_view() == context.request.messages.skip(1)
                    &&& context.request.messages.len() > 0
                },
                Err(e) => result matches Err(ContextActionError::Build(error)) && error@ == e,
            }
        },
{
    let tail = tail_of(&prepared.messages);
    assert(prepared@.messages[0] == prepared.messages@[0]@);
    let instruction = match &prepared.messages[0] {
        ModelMessage::System { content } => content.clone(),
        _ => {
            return Err(ContextActionError::Invalid);
        },
    };
    if !tail.is_same(input.current) {
        return Err(ContextActionError::Invalid);
    }
    let mut system: Vec<String> = Vec::new();
    system.push(instruction);
    let mut more = input.system.duplicate();
    system.append(&mut more);
    assert(system.deep_view() =~= seq![instruction@] + input.system.deep_view());
    let whole = ContextBuildInput {
        history: input.history,
        system: &system,
        current: input.current,
        constraint: &prepared.constraint,
        pinned_turns: input.pinned_turns,
        state_version: input.state_version,
        target: input.target,
        budget: input.budget,
        limits: input.limits,
        input_bytes,
    };
    assert(whole@ == step_input(*input, prepared@, input_bytes));
    let context = match CanonicalContextBuilder.build(&whole, counter) {
        Ok(context) => context,
        Err(e) => {
            return Err(ContextActionError::Build(e));
        },
    };
    proof {
        built_contexts_fit(*counter, whole@);
        assert(context@.request.messages.len() > 0);
        assert(context.request.messages@.len() == context@.request.messages.len());
    }
    let base = tail_of(&context.request.messages);
    Ok(PreparedStep { request: context.request, report: context.report, base })
}

/// The canonical protocol bound to one prepared request.
#[derive(Debug, PartialEq, Eq)]
pub struct PreparedProtocol {
    pub request: GenerationRequest,
    pub base: Vec<ModelMessage>,
    pub tools: Vec<ModelToolDefinition>,
}

impl PreparedProtocol {
    /// The prepared request, for exactly the messages and tools it was prepared from.
    pub fn request(&self, messages: &Vec<ModelMessage>, tools: &Vec<ModelToolDefinition>) -> (result: Result<
        GenerationRequest,
        ActionError,
    >)
        ensures
            if messages.deep_view() == self.base.deep_view() && tools.deep_view()
                == self.tools.deep_view() {
                result is Ok && result->Ok_0@ == self.request@
            } else {
                result == Err::<GenerationRequest, ActionError>(ActionError::ToolNotVisible)
            },
    {
        if !messages.is_same(&self.base) || !tools.is_same(&self.tools) {
            return Err(ActionError::ToolNotVisible);
        }
        Ok(self.request.duplicate())
    }
}

/// What a model is told of a tool result.
pub open spec fn feedback_text(name: Seq<char>, call_id: Seq<char>, result: ToolResultModel) -> Seq<char> {
    "{\"name\":"@ + json_string(name) + ",\"runtime_call_id\":"@ + json_string(call_id)
        + ",\"trust\":\"untrusted_tool_data\",\"type\":\"jingwei_tool_result\",\"view\":"@
        + result_json_of(result) + "}"@
}

fn feedback(name: &String, call_id: &String, result: &ToolResultView) -> (text: String)
    ensures
        text@ == feedback_text(name@, call_id@, result@),
{
    let mut text = "{\"name\":".to_owned();
    text.push_str(quote(name.as_str()).as_str());
    text.push_str(",\"runtime_call_id\":");
    text.push_str(quote(call_id.as_str()).as_str());
    text.push_str(",\"trust\":\"untrusted_tool_data\",\"type\":\"jingwei_tool_result\",\"view\":");
    text.push_str(result_json(result).as_str());
    text.push_str("}");
    text
}

/// The last message is the one that carries a tool result under the protocol.
pub open spec fn has_slot(protocol: ContextActionProtocol, messages: Seq<ModelMessageView>) -> bool {
    messages.len() > 0 && match protocol {
        ContextActionProtocol::Native => messages.last() is Tool,
        ContextActionProtocol::Json => messages.last() is User,
    }
}

/// The message with another text.
pub open spec fn retold(message: ModelMessageView, text: Seq<char>) -> ModelMessageView {
    match message {
        ModelMessageView::Tool { call_id, .. } => ModelMessageView::Tool { call_id, content: text },
        ModelMessageView::User { .. } => ModelMessageView::User { content: text },
        other => other,
    }
}

/// The execution that an outcome rests on.
pub open spec fn execution_of(outcome: StepOutcome) -> Option<ToolExecution> {
    match outcome {
        StepOutcome::ToolCompleted { execution } => Some(execution),
        StepOutcome::Halted { execution } => Some(execution),
        _ => None,
    }
}

fn execution_in(outcome: &StepOutcome) -> (execution: Option<&ToolExecution>)
    ensures
        match execution {
            Some(e) => execution_of(*outcome) == Some(*e),
            None => execution_of(*outcome) is None,
        },
{
    match outcome {
        StepOutcome::ToolCompleted { execution } => Some(execution),
        StepOutcome::Halted { execution } => Some(execution),
        _ => None,
    }
}

/// The report holds the step with these messages to go on from.
pub open spec fn goes_on(
    report: ContextActionReport,
    step: ActionStepReport,
    build: ContextBuildReport,
    tools: ToolView,
    result: Option<ToolResultModel>,
    next: Seq<ModelMessageView>,
    current: Seq<ModelMessageView>,
    base_len: int,
) -> bool {
    &&& report.step.context == step.context
    &&& report.step.outcome == step.outcome
    &&& report.step.next_messages.deep_view() == next
    &&& report.build == build
    &&& report.tools == tools
    &&& report.result.deep_view() == result
    &&& report.next_current.deep_view() == current + next.skip(base_len)
}

/// The report holds the step and no more.
pub open spec fn holds_step(
    report: ContextActionReport,
    step: ActionStepReport,
    build: ContextBuildReport,
    tools: ToolView,
) -> bool {
    &&& report.step == step
    &&& report.build == build
    &&& report.tools == tools
    &&& report.result is None
    &&& report.next_current@.len() == 0
}

/// What a step that was carried out comes to, given the view of its result. `viewed` is
/// `None` where no tool was called.
pub open spec fn finishes(
    result: Result<ContextActionReport, ContextActionError>,
    protocol: ContextActionProtocol,
    step: ActionStepReport,
    build: ContextBuildReport,
    tools: ToolView,
    viewed: Option<Result<ToolResultModel, ViewError>>,
    current: Seq<ModelMessageView>,
    base_len: int,
) -> bool {
    let next = step.next_messages.deep_view();
    match viewed {
        None => result matches Ok(report) && goes_on(
            report,
            step,
            build,
            tools,
            None,
            next,
            current,
            base_len,
        ),
        Some(Err(e)) => {
            &&& result matches Err(ContextActionError::ResultView { error, report })
            &&& error == e
            &&& holds_step(*report, step, build, tools)
        },
        Some(Ok(view)) => if !has_slot(protocol, next) {
            &&& result matches Err(ContextActionError::ResultView { error, report })
            &&& error == ViewError::Invalid
            &&& holds_step(*report, step, build, tools)
        } else {
            let call = execution_of(step.outcome)->0.call@;
            &&& result matches Ok(report)
            &&& goes_on(
                report,
                step,
                build,
                tools,
                Some(view),
                next.update(
                    next.len() - 1,
                    retold(next.last(), feedback_text(call.name, call.id, view)),
                ),
                current,
                base_len,
            )
        },
    }
}

fn from_index(messages: &Vec<ModelMessage>, start: usize) -> (rest: Vec<ModelMessage>)
    requires
        start <= messages@.len(),
    ensures
        rest.deep_view() == messages.deep_view().skip(start as int),
{
    let ghost views = messages.deep_view();
    let mut rest: Vec<ModelMessage> = Vec::new();
    let mut i: usize = start;
    while i < messages.len()
        invariant
            start <= i <= messages@.len(),
            views == messages.deep_view(),
            rest@.len() == i - start,
            forall|k: int| 0 <= k < i - start ==> (#[trigger] rest@[k])@ == views[k + start],
        decreases messages@.len() - i,
    {
        assert(views[i as int] == messages@[i as int]@);
        rest.push(messages[i].duplicate());
        i = i + 1;
    }
    assert(rest.deep_view() =~= views.skip(start as int));
    rest
}

pub open spec fn shown_view(viewed: Option<Result<ToolResultView, ViewError>>) -> Option<
    Result<ToolResultModel, ViewError>,
> {
    match viewed {
        Some(result) => Some(result_view(result)),
        None => None,
    }
}

/// The report of a step that was carried out, given the view of its tool result.
pub fn place_result_view(
    protocol: ContextActionProtocol,
    step: ActionStepReport,
    build: ContextBuildReport,
    tools: ToolView,
    viewed: Option<Result<ToolResultView, ViewError>>,
    current: &Vec<ModelMessage>,
    base_len: usize,
) -> (result: Result<ContextActionReport, ContextActionError>)
    requires
        base_len <= step.next_messages@.len(),
        viewed is Some ==> execution_of(step.outcome) is Some,
    ensures
        finishes(
            result,
            protocol,
            step,
            build,
            tools,
            shown_view(viewed),
            current.deep_view(),
            base_len as int,
        ),
{
    let ghost next = step.next_messages.deep_view();
    let ghost whole = step;
    let mut messages = current.duplicate();
    let ghost front = messages.deep_view();
    let viewed = match viewed {
        None => {
            let mut rest = from_index(&step.next_messages, base_len);
            let ghost added = rest.deep_view();
            messages.append(&mut rest);
            assert(messages.deep_view() =~= front + added);
            let report = ContextActionReport {
                step,
                build,
                tools,
                result: None,
                next_current: messages,
            };
            return Ok(report);
        },
        Some(viewed) => viewed,
    };
    let view = match viewed {
        Ok(view) => view,
        Err(error) => {
            let report = ContextActionReport {
                step,
                build,
                tools,
                result: None,
                next_current: Vec::new(),
            };
            return Err(ContextActionError::ResultView { error, report: Box::new(report) });
        },
    };
    let n: usize = step.next_messages.len();
    let slot: bool = if n == 0 {
        false
    } else {
        assert(next.last() == step.next_messages@[n - 1]@);
        match (protocol, &step.next_messages[n - 1]) {
            (ContextActionProtocol::Native, ModelMessage::Tool { .. }) => true,
            (ContextActionProtocol::Json, ModelMessage::User { .. }) => true,
            _ => false,
        }
    };
    let text = match execution_in(&step.outcome) {
        Some(execution) => feedback(&execution.call.name, &execution.call.id, &view),
        None => String::new(),
    };
    if !slot {
        let report = ContextActionReport {
            step,
            build,
            tools,
            result: None,
            next_current: Vec::new(),
        };
        return Err(
            ContextActionError::ResultView { error: ViewError::Invalid, report: Box::new(report) },
        );
    }
    let told = match &step.next_messages[n - 1] {
        ModelMessage::Tool { call_id, content: _ } => ModelMessage::Tool {
            call_id: call_id.duplicate(),
            content: text,
        },
        ModelMessage::User { .. } => ModelMessage::User { content: text },
        other => other.duplicate(),
    };
    let mut next_messages = step.next_messages;
    let ghost held = next_messages@;
    next_messages.set(n - 1, told);
    proof {
        let after = next_messages.deep_view();
        assert(after =~= next.update(n - 1, told@)) by {
            assert forall|k: int| 0 <= k < after.len() implies after[k] == next.update(
                n - 1,
                told@,
            )[k] by {
                if k < n - 1 {
                    assert(next_messages@[k] == held[k]);
                }
            }
        }
    }
    let mut rest = from_index(&next_messages, base_len);
    let ghost added = rest.deep_view();
    messages.append(&mut rest);
    assert(messages.deep_view() =~= front + added);
    let report = ContextActionReport {
        step: ActionStepReport { context: step.context, outcome: step.outcome, next_messages },
        build,
        tools,
        result: Some(view),
        next_current: messages,
    };
    Ok(report)
}

/// What is shown of the step's tool result, if it called one, and what becomes of the
/// store: nothing is shown or kept of a result that another session recorded.
pub open spec fn is_viewed<P: ToolResultPolicy, S: ContentStore>(
    viewed: Option<Result<ToolResultModel, ViewError>>,
    outcome: StepOutcome,
    scope: ContentScopeView,
    now: u64,
    max_preview_bytes: usize,
    policy: P,
    before: S,
    after: S,
) -> bool {
    match execution_of(outcome) {
        None => viewed is None && after == before,
        Some(execution) => if execution.result_event@.session_id != scope.session_id {
            &&& viewed == Some(Err::<ToolResultModel, ViewError>(ViewError::Unavailable))
            &&& after == before
        } else {
            &&& viewed matches Some(result)
            &&& is_projection(
                result,
                execution.result@.outcome,
                execution.result_event@.event_id,
                scope,
                now,
                max_preview_bytes,
                policy,
                before,
                after,
            )
        },
    }
}

/// Ends a step that was carried out: its tool result is projected for the model, under
/// the host's policy and store, and put in the place of the raw one.
pub fn finish_step<P: ToolResultPolicy, S: ContentStore>(
    protocol: ContextActionProtocol,
    input: &ContextActionInput<'_>,
    step: ActionStepReport,
    build: ContextBuildReport,
    tools: ToolView,
    policy: &P,
    store: &mut S,
    max_preview_bytes: usize,
    base_len: usize,
) -> (result: Result<ContextActionReport, ContextActionError>)
    requires
        base_len <= step.next_messages@.len(),
    ensures
        exists|viewed: Option<Result<ToolResultModel, ViewError>>| #[trigger]
            is_viewed(
                viewed,
                step.outcome,
                input.content_scope@,
                input.now_ms,
                max_preview_bytes,
                *policy,
                *old(store),
                *final(store),
            ) && finishes(
                result,
                protocol,
                step,
                build,
                tools,
                viewed,
                input.current.deep_view(),
                base_len as int,
            ),
{
    let ghost before = *store;
    let viewed = match execution_in(&step.outcome) {
        Some(execution) => {
            if !execution.result_event.session_id.is_same(&input.content_scope.session_id) {
                Some(Err(ViewError::Unavailable))
            } else {
                let projected = project_tool_result(
                    &execution.result.outcome,
                    &execution.result_event.event_id,
                    input.content_scope,
                    input.now_ms,
                    policy,
                    store,
                    max_preview_bytes,
                );
                assert(execution.result_event@.event_id == execution.result_event.event_id@);
                assert(execution.result@.outcome == execution.result.outcome@);
                assert(is_viewed(
                    Some(result_view(projected)),
                    step.outcome,
                    input.content_scope@,
                    input.now_ms,
                    max_preview_bytes,
                    *policy,
                    before,
                    *store,
                ));
                Some(projected)
            }
        },
        None => None,
    };
    let ghost shown = shown_view(viewed);
    assert(is_viewed(
        shown,
        step.outcome,
        input.content_scope@,
        input.now_ms,
        max_preview_bytes,
        *policy,
        before,
        *store,
    ));
    place_result_view(protocol, step, build, tools, viewed, input.current, base_len)
}

/// The failure of a step that was not carried out, with what was built for it.
pub fn step_failed(error: ActionStepError, build: ContextBuildReport, tools: ToolView) -> (failure: ContextActionError)
    ensures
        failure == (ContextActionError::Action { error, build, tools }),
{
    ContextActionError::Action { error, build, tools }
}

/// From step to step the conversation only grows at its end: what was current before
/// stays its beginning.
pub proof fn steps_append(
    report: ContextActionReport,
    step: ActionStepReport,
    build: ContextBuildReport,
    tools: ToolView,
    result: Option<ToolResultModel>,
    next: Seq<ModelMessageView>,
    current: Seq<ModelMessageView>,
    base_len: int,
)
    requires
        goes_on(report, step, build, tools, result, next, current, base_len),
    ensures
        current.is_prefix_of(report.next_current.deep_view()),
{
}

} // verus!
