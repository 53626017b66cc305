//! Vocabulary of model requests and answers.

use crate::id::{ProviderToolCallId, StepId, TaskId};
use crate::json::Json;
use crate::record::Record;
use vstd::prelude::*;

verus! {

/// Which decision of which task a model call serves.
#[derive(Debug, PartialEq, Eq)]
pub struct DecisionContext {
    pub task_id: TaskId,
    pub step_id: StepId,
}

pub struct DecisionContextView {
    pub task_id: Seq<char>,
    pub step_id: Seq<char>,
}

impl DecisionContext {
    pub open spec fn view(&self) -> DecisionContextView {
        DecisionContextView {
            task_id: self.task_id@,
            step_id: self.step_id@,
        }
    }
}

impl DeepView for DecisionContext {
    type V = DecisionContextView;

    open spec fn deep_view(&self) -> DecisionContextView {
        self@
    }
}

impl Record for DecisionContext {
    fn is_same(&self, other: &Self) -> (answer: bool) {
        self.task_id.is_same(&other.task_id)
            && self.step_id.is_same(&other.step_id)
    }

    fn duplicate(&self) -> (copy: Self) {
        DecisionContext {
            task_id: self.task_id.duplicate(),
            step_id: self.step_id.duplicate(),
        }
    }
}

/// Which action of a decision a tool call carries out.
#[derive(Debug, PartialEq, Eq)]
pub struct ActionContext {
    pub decision: DecisionContext,
    pub action_id: String,
}

pub struct ActionContextView {
    pub decision: DecisionContextView,
    pub action_id: Seq<char>,
}

impl ActionContext {
    pub open spec fn view(&self) -> ActionContextView {
        ActionContextView {
            decision: self.decision.deep_view(),
            action_id: self.action_id@,
        }
    }
}

impl DeepView for ActionContext {
    type V = ActionContextView;

    open spec fn deep_view(&self) -> ActionContextView {
        self@
    }
}

impl Record for ActionContext {
    fn is_same(&self, other: &Self) -> (answer: bool) {
        self.decision.is_same(&other.decision)
            && self.action_id.is_same(&other.action_id)
    }

    fn duplicate(&self) -> (copy: Self) {
        ActionContext {
            decision: self.decision.duplicate(),
            action_id: self.action_id.duplicate(),
        }
    }
}

/// A tool as the model sees it.
#[derive(Debug, PartialEq, Eq)]
pub struct ModelToolDefinition {
    pub name: String,
    pub description: String,
    /// JSON Schema of the arguments.
    pub parameters: Json,
}

pub struct ModelToolDefinitionView {
    pub name: Seq<char>,
    pub description: Seq<char>,
    pub parameters: Seq<char>,
}

impl ModelToolDefinition {
    pub open spec fn view(&self) -> ModelToolDefinitionView {
        ModelToolDefinitionView {
            name: self.name@,
            description: self.description@,
            parameters: self.parameters@,
        }
    }
}

impl DeepView for ModelToolDefinition {
    type V = ModelToolDefinitionView;

    open spec fn deep_view(&self) -> ModelToolDefinitionView {
        self@
    }
}

impl Record for ModelToolDefinition {
    fn is_same(&self, other: &Self) -> (answer: bool) {
        self.name.is_same(&other.name)
            && self.description.is_same(&other.description)
            && self.parameters.is_same(&other.parameters)
    }

    fn duplicate(&self) -> (copy: Self) {
        ModelToolDefinition {
            name: self.name.duplicate(),
            description: self.description.duplicate(),
            parameters: self.parameters.duplicate(),
        }
    }
}

/// Which tools the model has to use.
#[allow(inconsistent_fields)]
#[derive(Debug, PartialEq, Eq)]
pub enum ToolChoice {
    Auto,
    Required,
    Named { name: String },
}

#[allow(inconsistent_fields)]
pub enum ToolChoiceView {
    Auto,
    Required,
    Named { name: Seq<char> },
}

impl ToolChoice {
    pub open spec fn view(&self) -> ToolChoiceView {
        match self {
            ToolChoice::Auto => ToolChoiceView::Auto,
            ToolChoice::Required => ToolChoiceView::Required,
            ToolChoice::Named { name } => ToolChoiceView::Named {
                name: name@,
            },
        }
    }
}

impl DeepView for ToolChoice {
    type V = ToolChoiceView;

    open spec fn deep_view(&self) -> ToolChoiceView {
        self@
    }
}

impl Record for ToolChoice {
    fn is_same(&self, other: &Self) -> (answer: bool) {
        match (self, other) {
            (ToolChoice::Auto, ToolChoice::Auto) => true,
            (ToolChoice::Required, ToolChoice::Required) => true,
            (ToolChoice::Named { name }, ToolChoice::Named { name: other_name }) => name.is_same(other_name),
            _ => false,
        }
    }

    fn duplicate(&self) -> (copy: Self) {
        match self {
            ToolChoice::Auto => ToolChoice::Auto,
            ToolChoice::Required => ToolChoice::Required,
            ToolChoice::Named { name } => ToolChoice::Named {
                name: name.duplicate(),
            },
        }
    }
}

/// The form that an answer must have.
#[allow(inconsistent_fields)]
#[derive(Debug, PartialEq, Eq)]
pub enum GenerationConstraint {
    Text,
    NativeTools { tools: Vec<ModelToolDefinition>, choice: ToolChoice },
    JsonSchema { name: String, schema: Json },
}

#[allow(inconsistent_fields)]
pub enum GenerationConstraintView {
    Text,
    NativeTools { tools: Seq<ModelToolDefinitionView>, choice: ToolChoiceView },
    JsonSchema { name: Seq<char>, schema: Seq<char> },
}

impl GenerationConstraint {
    pub open spec fn view(&self) -> GenerationConstraintView {
        match self {
            GenerationConstraint::Text => GenerationConstraintView::Text,
            GenerationConstraint::NativeTools { tools, choice } => GenerationConstraintView::NativeTools {
                tools: tools.deep_view(),
                choice: choice.deep_view(),
            },
            GenerationConstraint::JsonSchema { name, schema } => GenerationConstraintView::JsonSchema {
                name: name@,
                schema: schema@,
            },
        }
    }
}

impl DeepView for GenerationConstraint {
    type V = GenerationConstraintView;

    open spec fn deep_view(&self) -> GenerationConstraintView {
        self@
    }
}

impl Record for GenerationConstraint {
    fn is_same(&self, other: &Self) -> (answer: bool) {
        match (self, other) {
            (GenerationConstraint::Text, GenerationConstraint::Text) => true,
            (GenerationConstraint::NativeTools { tools, choice }, GenerationConstraint::NativeTools { tools: other_tools, choice: other_choice }) => tools.is_same(other_tools) && choice.is_same(other_choice),
            (GenerationConstraint::JsonSchema { name, schema }, GenerationConstraint::JsonSchema { name: other_name, schema: other_schema }) => name.is_same(other_name) && schema.is_same(other_schema),
            _ => false,
        }
    }

    fn duplicate(&self) -> (copy: Self) {
        match self {
            GenerationConstraint::Text => GenerationConstraint::Text,
            GenerationConstraint::NativeTools { tools, choice } => GenerationConstraint::NativeTools {
                tools: tools.duplicate(),
                choice: choice.duplicate(),
            },
            GenerationConstraint::JsonSchema { name, schema } => GenerationConstraint::JsonSchema {
                name: name.duplicate(),
                schema: schema.duplicate(),
            },
        }
    }
}

/// A tool call that a model proposed.
#[derive(Debug, PartialEq, Eq)]
pub struct ModelToolCall {
    pub id: ProviderToolCallId,
    pub name: String,
    pub arguments: Json,
}

pub struct ModelToolCallView {
    pub id: Seq<char>,
    pub name: Seq<char>,
    pub arguments: Seq<char>,
}

impl ModelToolCall {
    pub open spec fn view(&self) -> ModelToolCallView {
        ModelToolCallView {
            id: self.id@,
            name: self.name@,
            arguments: self.arguments@,
        }
    }
}

impl DeepView for ModelToolCall {
    type V = ModelToolCallView;

    open spec fn deep_view(&self) -> ModelToolCallView {
        self@
    }
}

impl Record for ModelToolCall {
    fn is_same(&self, other: &Self) -> (answer: bool) {
        self.id.is_same(&other.id)
            && self.name.is_same(&other.name)
            && self.arguments.is_same(&other.arguments)
    }

    fn duplicate(&self) -> (copy: Self) {
        ModelToolCall {
            id: self.id.duplicate(),
            name: self.name.duplicate(),
            arguments: self.arguments.duplicate(),
        }
    }
}

/// One message of a conversation with a model.
#[allow(inconsistent_fields)]
#[derive(Debug, PartialEq, Eq)]
pub enum ModelMessage {
    System { content: String },
    User { content: String },
    Assistant { content: Option<String>, tool_calls: Vec<ModelToolCall> },
    Tool { call_id: ProviderToolCallId, content: String },
}

#[allow(inconsistent_fields)]
pub enum ModelMessageView {
    System { content: Seq<char> },
    User { content: Seq<char> },
    Assistant { content: Option<Seq<char>>, tool_calls: Seq<ModelToolCallView> },
    Tool { call_id: Seq<char>, content: Seq<char> },
}

impl ModelMessage {
    pub open spec fn view(&self) -> ModelMessageView {
        match self {
            ModelMessage::System { content } => ModelMessageView::System {
                content: content@,
            },
            ModelMessage::User { content } => ModelMessageView::User {
                content: content@,
            },
            ModelMessage::Assistant { content, tool_calls } => ModelMessageView::Assistant {
                content: content.deep_view(),
                tool_calls: tool_calls.deep_view(),
            },
            ModelMessage::Tool { call_id, content } => ModelMessageView::Tool {
                call_id: call_id@,
                content: content@,
            },
        }
    }
}

impl DeepView for ModelMessage {
    type V = ModelMessageView;

    open spec fn deep_view(&self) -> ModelMessageView {
        self@
    }
}

impl Record for ModelMessage {
    fn is_same(&self, other: &Self) -> (answer: bool) {
        match (self, other) {
            (ModelMessage::System { content }, ModelMessage::System { content: other_content }) => content.is_same(other_content),
            (ModelMessage::User { content }, ModelMessage::User { content: other_content }) => content.is_same(other_content),
            (ModelMessage::Assistant { content, tool_calls }, ModelMessage::Assistant { content: other_content, tool_calls: other_tool_calls }) => content.is_same(other_content) && tool_calls.is_same(other_tool_calls),
            (ModelMessage::Tool { call_id, content }, ModelMessage::Tool { call_id: other_call_id, content: other_content }) => call_id.is_same(other_call_id) && content.is_same(other_content),
            _ => false,
        }
    }

    fn duplicate(&self) -> (copy: Self) {
        match self {
            ModelMessage::System { content } => ModelMessage::System {
                content: content.duplicate(),
            },
            ModelMessage::User { content } => ModelMessage::User {
                content: content.duplicate(),
            },
            ModelMessage::Assistant { content, tool_calls } => ModelMessage::Assistant {
                content: content.duplicate(),
                tool_calls: tool_calls.duplicate(),
            },
            ModelMessage::Tool { call_id, content } => ModelMessage::Tool {
                call_id: call_id.duplicate(),
                content: content.duplicate(),
            },
        }
    }
}

/// What a model is asked.
#[derive(Debug, PartialEq, Eq)]
pub struct GenerationRequest {
    pub messages: Vec<ModelMessage>,
    pub constraint: GenerationConstraint,
}

pub struct GenerationRequestView {
    pub messages: Seq<ModelMessageView>,
    pub constraint: GenerationConstraintView,
}

impl GenerationRequest {
    pub open spec fn view(&self) -> GenerationRequestView {
        GenerationRequestView {
            messages: self.messages.deep_view(),
            constraint: self.constraint.deep_view(),
        }
    }
}

impl DeepView for GenerationRequest {
    type V = GenerationRequestView;

    open spec fn deep_view(&self) -> GenerationRequestView {
        self@
    }
}

impl Record for GenerationRequest {
    fn is_same(&self, other: &Self) -> (answer: bool) {
        self.messages.is_same(&other.messages)
            && self.constraint.is_same(&other.constraint)
    }

    fn duplicate(&self) -> (copy: Self) {
        GenerationRequest {
            messages: self.messages.duplicate(),
            constraint: self.constraint.duplicate(),
        }
    }
}

/// Bounds on what is collected of one answer.
#[derive(Clone, Copy, Debug, PartialEq, Eq, Structural)]
pub struct GenerationLimits {
    pub max_output_bytes: u64,
    pub max_tool_calls: u32,
}

impl DeepView for GenerationLimits {
    type V = GenerationLimits;

    open spec fn deep_view(&self) -> GenerationLimits {
        *self
    }
}

impl Record for GenerationLimits {
    fn is_same(&self, other: &Self) -> (answer: bool) {
        *self == *other
    }

    fn duplicate(&self) -> (copy: Self) {
        *self
    }
}

/// Why a model stopped.
#[allow(inconsistent_fields)]
#[derive(Debug, PartialEq, Eq)]
pub enum FinishReason {
    Stop,
    ToolCalls,
    Length,
    ContentFiltered,
    Unknown,
    Other { code: String },
}

#[allow(inconsistent_fields)]
pub enum FinishReasonView {
    Stop,
    ToolCalls,
    Length,
    ContentFiltered,
    Unknown,
    Other { code: Seq<char> },
}

impl FinishReason {
    pub open spec fn view(&self) -> FinishReasonView {
        match self {
            FinishReason::Stop => FinishReasonView::Stop,
            FinishReason::ToolCalls => FinishReasonView::ToolCalls,
            FinishReason::Length => FinishReasonView::Length,
            FinishReason::ContentFiltered => FinishReasonView::ContentFiltered,
            FinishReason::Unknown => FinishReasonView::Unknown,
            FinishReason::Other { code } => FinishReasonView::Other {
                code: code@,
            },
        }
    }
}

impl DeepView for FinishReason {
    type V = FinishReasonView;

    open spec fn deep_view(&self) -> FinishReasonView {
        self@
    }
}

impl Record for FinishReason {
    fn is_same(&self, other: &Self) -> (answer: bool) {
        match (self, other) {
            (FinishReason::Stop, FinishReason::Stop) => true,
            (FinishReason::ToolCalls, FinishReason::ToolCalls) => true,
            (FinishReason::Length, FinishReason::Length) => true,
            (FinishReason::ContentFiltered, FinishReason::ContentFiltered) => true,
            (FinishReason::Unknown, FinishReason::Unknown) => true,
            (FinishReason::Other { code }, FinishReason::Other { code: other_code }) => code.is_same(other_code),
            _ => false,
        }
    }

    fn duplicate(&self) -> (copy: Self) {
        match self {
            FinishReason::Stop => FinishReason::Stop,
            FinishReason::ToolCalls => FinishReason::ToolCalls,
            FinishReason::Length => FinishReason::Length,
            FinishReason::ContentFiltered => FinishReason::ContentFiltered,
            FinishReason::Unknown => FinishReason::Unknown,
            FinishReason::Other { code } => FinishReason::Other {
                code: code.duplicate(),
            },
        }
    }
}

/// Tokens as the provider counted them.
#[derive(Debug, PartialEq, Eq)]
pub struct TokenUsage {
    pub input_tokens: Option<u64>,
    pub output_tokens: Option<u64>,
    pub total_tokens: Option<u64>,
}

pub struct TokenUsageView {
    pub input_tokens: Option<u64>,
    pub output_tokens: Option<u64>,
    pub total_tokens: Option<u64>,
}

impl TokenUsage {
    pub open spec fn view(&self) -> TokenUsageView {
        TokenUsageView {
            input_tokens: self.input_tokens.deep_view(),
            output_tokens: self.output_tokens.deep_view(),
            total_tokens: self.total_tokens.deep_view(),
        }
    }
}

impl DeepView for TokenUsage {
    type V = TokenUsageView;

    open spec fn deep_view(&self) -> TokenUsageView {
        self@
    }
}

impl Record for TokenUsage {
    fn is_same(&self, other: &Self) -> (answer: bool) {
        self.input_tokens.is_same(&other.input_tokens)
            && self.output_tokens.is_same(&other.output_tokens)
            && self.total_tokens.is_same(&other.total_tokens)
    }

    fn duplicate(&self) -> (copy: Self) {
        TokenUsage {
            input_tokens: self.input_tokens.duplicate(),
            output_tokens: self.output_tokens.duplicate(),
            total_tokens: self.total_tokens.duplicate(),
        }
    }
}

/// What had arrived when a call failed.
#[derive(Debug, PartialEq, Eq)]
pub struct GenerationPartial {
    pub text: String,
    pub tool_calls: Vec<ModelToolCall>,
}

pub struct GenerationPartialView {
    pub text: Seq<char>,
    pub tool_calls: Seq<ModelToolCallView>,
}

impl GenerationPartial {
    pub open spec fn view(&self) -> GenerationPartialView {
        GenerationPartialView {
            text: self.text@,
            tool_calls: self.tool_calls.deep_view(),
        }
    }
}

impl DeepView for GenerationPartial {
    type V = GenerationPartialView;

    open spec fn deep_view(&self) -> GenerationPartialView {
        self@
    }
}

impl Record for GenerationPartial {
    fn is_same(&self, other: &Self) -> (answer: bool) {
        self.text.is_same(&other.text)
            && self.tool_calls.is_same(&other.tool_calls)
    }

    fn duplicate(&self) -> (copy: Self) {
        GenerationPartial {
            text: self.text.duplicate(),
            tool_calls: self.tool_calls.duplicate(),
        }
    }
}

/// A complete answer.
#[derive(Debug, PartialEq, Eq)]
pub struct GenerationResponse {
    pub content: Option<String>,
    pub tool_calls: Vec<ModelToolCall>,
    pub finish_reason: FinishReason,
    pub usage: TokenUsage,
}

pub struct GenerationResponseView {
    pub content: Option<Seq<char>>,
    pub tool_calls: Seq<ModelToolCallView>,
    pub finish_reason: FinishReasonView,
    pub usage: TokenUsageView,
}

impl GenerationResponse {
    pub open spec fn view(&self) -> GenerationResponseView {
        GenerationResponseView {
            content: self.content.deep_view(),
            tool_calls: self.tool_calls.deep_view(),
            finish_reason: self.finish_reason.deep_view(),
            usage: self.usage.deep_view(),
        }
    }
}

impl DeepView for GenerationResponse {
    type V = GenerationResponseView;

    open spec fn deep_view(&self) -> GenerationResponseView {
        self@
    }
}

impl Record for GenerationResponse {
    fn is_same(&self, other: &Self) -> (answer: bool) {
        self.content.is_same(&other.content)
            && self.tool_calls.is_same(&other.tool_calls)
            && self.finish_reason.is_same(&other.finish_reason)
            && self.usage.is_same(&other.usage)
    }

    fn duplicate(&self) -> (copy: Self) {
        GenerationResponse {
            content: self.content.duplicate(),
            tool_calls: self.tool_calls.duplicate(),
            finish_reason: self.finish_reason.duplicate(),
            usage: self.usage.duplicate(),
        }
    }
}

/// A piece of a streamed answer.
#[allow(inconsistent_fields)]
#[derive(Debug, PartialEq, Eq)]
pub enum GenerationDelta {
    Text { text: String },
    ToolCall { index: u32, id: Option<String>, name: Option<String>, arguments: String },
}

#[allow(inconsistent_fields)]
pub enum GenerationDeltaView {
    Text { text: Seq<char> },
    ToolCall { index: u32, id: Option<Seq<char>>, name: Option<Seq<char>>, arguments: Seq<char> },
}

impl GenerationDelta {
    pub open spec fn view(&self) -> GenerationDeltaView {
        match self {
            GenerationDelta::Text { text } => GenerationDeltaView::Text {
                text: text@,
            },
            GenerationDelta::ToolCall { index, id, name, arguments } => GenerationDeltaView::ToolCall {
                index: *index,
                id: id.deep_view(),
                name: name.deep_view(),
                arguments: arguments@,
            },
        }
    }
}

impl DeepView for GenerationDelta {
    type V = GenerationDeltaView;

    open spec fn deep_view(&self) -> GenerationDeltaView {
        self@
    }
}

impl Record for GenerationDelta {
    fn is_same(&self, other: &Self) -> (answer: bool) {
        match (self, other) {
            (GenerationDelta::Text { text }, GenerationDelta::Text { text: other_text }) => text.is_same(other_text),
            (GenerationDelta::ToolCall { index, id, name, arguments }, GenerationDelta::ToolCall { index: other_index, id: other_id, name: other_name, arguments: other_arguments }) => *index == *other_index && id.is_same(other_id) && name.is_same(other_name) && arguments.is_same(other_arguments),
            _ => false,
        }
    }

    fn duplicate(&self) -> (copy: Self) {
        match self {
            GenerationDelta::Text { text } => GenerationDelta::Text {
                text: text.duplicate(),
            },
            GenerationDelta::ToolCall { index, id, name, arguments } => GenerationDelta::ToolCall {
                index: *index,
                id: id.duplicate(),
                name: name.duplicate(),
                arguments: arguments.duplicate(),
            },
        }
    }
}

/// Version of the recorded model requests and results.
#[derive(Clone, Copy, Debug, PartialEq, Eq, Structural)]
pub enum ModelRecordVersion {
    V1,
}

impl DeepView for ModelRecordVersion {
    type V = ModelRecordVersion;

    open spec fn deep_view(&self) -> ModelRecordVersion {
        *self
    }
}

impl Record for ModelRecordVersion {
    fn is_same(&self, other: &Self) -> (answer: bool) {
        *self == *other
    }

    fn duplicate(&self) -> (copy: Self) {
        *self
    }
}

/// Whether a controlled model call asked for one completion or a stream.
#[derive(Clone, Copy, Debug, PartialEq, Eq, Structural)]
pub enum ModelCallMode {
    Complete,
    Stream,
}

impl DeepView for ModelCallMode {
    type V = ModelCallMode;

    open spec fn deep_view(&self) -> ModelCallMode {
        *self
    }
}

impl Record for ModelCallMode {
    fn is_same(&self, other: &Self) -> (answer: bool) {
        *self == *other
    }

    fn duplicate(&self) -> (copy: Self) {
        *self
    }
}

/// Stable semantic category for a failed controlled model call.
#[derive(Clone, Copy, Debug, PartialEq, Eq, Structural)]
pub enum ModelFailureCategory {
    Upstream,
    Timeout,
    StreamParse,
    Protocol,
    Cancelled,
    Adapter,
    Internal,
    Budget,
}

impl DeepView for ModelFailureCategory {
    type V = ModelFailureCategory;

    open spec fn deep_view(&self) -> ModelFailureCategory {
        *self
    }
}

impl Record for ModelFailureCategory {
    fn is_same(&self, other: &Self) -> (answer: bool) {
        *self == *other
    }

    fn duplicate(&self) -> (copy: Self) {
        *self
    }
}

/// How a request or an answer broke the model protocol.
#[derive(Clone, Copy, Debug, PartialEq, Eq, Structural)]
pub enum ModelProtocolError {
    /// A stream ended without its final answer.
    MissingStreamTerminal,
    OutputLimitExceeded,
    InvalidJsonOutput,
    /// No message at all.
    EmptyRequest,
    /// A message says nothing, or a call has no identity of its own.
    InvalidMessage,
    /// A tool message answers no open call.
    UnexpectedToolResult,
    /// A call is still open where the conversation goes on or ends.
    UnansweredToolCall,
    /// Tools without names of their own, or a choice among them that does not exist.
    InvalidTools,
}

impl DeepView for ModelProtocolError {
    type V = ModelProtocolError;

    open spec fn deep_view(&self) -> ModelProtocolError {
        *self
    }
}

impl Record for ModelProtocolError {
    fn is_same(&self, other: &Self) -> (answer: bool) {
        *self == *other
    }

    fn duplicate(&self) -> (copy: Self) {
        *self
    }
}

} // verus!
