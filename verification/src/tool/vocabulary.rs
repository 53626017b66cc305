//! What tools are, who calls them, and what their execution leaves behind.

use crate::generation::ActionContext;
use crate::json::Json;
use crate::record::Record;
use crate::session::event::{
    SessionEvent, SessionEventKind, SessionEventKindView, SessionEventView,
};
use crate::session::tool_record::{ToolCall, ToolCallView, ToolResult, ToolResultView};
use crate::time::Duration;
use vstd::prelude::*;

verus! {

/// Maximum UTF-8 bytes in a tool name.
pub const MAX_TOOL_NAME_BYTES: usize = 256;

/// Maximum serialized bytes of the arguments of a call.
pub const MAX_TOOL_ARGUMENT_BYTES: usize = 1_048_576;

/// A provider diagnostic which the canonical runtime will budget before recording.
#[derive(Debug, PartialEq, Eq)]
pub struct ToolDiagnostic {
    pub code: String,
    pub message: String,
    pub retryable: bool,
}

impl ToolDiagnostic {
    pub fn new(code: String, message: String, retryable: bool) -> (diagnostic: Self)
        ensures
            diagnostic == (ToolDiagnostic { code, message, retryable }),
    {
        ToolDiagnostic { code, message, retryable }
    }

    pub fn code(&self) -> (code: &str)
        ensures
            code@ == self.code@,
    {
        self.code.as_str()
    }

    pub fn message(&self) -> (message: &str)
        ensures
            message@ == self.message@,
    {
        self.message.as_str()
    }

    pub fn retryable(&self) -> (retryable: bool)
        ensures
            retryable == self.retryable,
    {
        self.retryable
    }
}

/// A tool's own work failed.
#[derive(Debug, PartialEq, Eq)]
pub struct ToolBodyError(pub ToolDiagnostic);

impl ToolBodyError {
    pub fn new(code: String, message: String, retryable: bool) -> (error: Self)
        ensures
            error.0 == (ToolDiagnostic { code, message, retryable }),
    {
        ToolBodyError(ToolDiagnostic::new(code, message, retryable))
    }

    pub fn diagnostic(&self) -> (diagnostic: &ToolDiagnostic)
        ensures
            *diagnostic == self.0,
    {
        &self.0
    }

    pub fn into_diagnostic(self) -> (diagnostic: ToolDiagnostic)
        ensures
            diagnostic == self.0,
    {
        self.0
    }

    /// The error as one line of text.
    pub fn text(&self) -> (text: String)
        ensures
            text@ == "Tool body failure `"@ + self.0.code@ + "`: "@ + self.0.message@,
    {
        let mut text = "Tool body failure `".to_owned();
        text.push_str(self.0.code.as_str());
        text.push_str("`: ");
        text.push_str(self.0.message.as_str());
        text
    }
}

/// A policy refused the call.
#[derive(Debug, PartialEq, Eq)]
pub struct ToolDenial(pub ToolDiagnostic);

impl ToolDenial {
    pub fn new(code: String, message: String, retryable: bool) -> (error: Self)
        ensures
            error.0 == (ToolDiagnostic { code, message, retryable }),
    {
        ToolDenial(ToolDiagnostic::new(code, message, retryable))
    }

    pub fn diagnostic(&self) -> (diagnostic: &ToolDiagnostic)
        ensures
            *diagnostic == self.0,
    {
        &self.0
    }

    pub fn into_diagnostic(self) -> (diagnostic: ToolDiagnostic)
        ensures
            diagnostic == self.0,
    {
        self.0
    }

    /// The error as one line of text.
    pub fn text(&self) -> (text: String)
        ensures
            text@ == "Tool denied `"@ + self.0.code@ + "`: "@ + self.0.message@,
    {
        let mut text = "Tool denied `".to_owned();
        text.push_str(self.0.code.as_str());
        text.push_str("`: ");
        text.push_str(self.0.message.as_str());
        text
    }
}

/// A guard could not decide.
#[derive(Debug, PartialEq, Eq)]
pub struct ToolGuardError(pub ToolDiagnostic);

impl ToolGuardError {
    pub fn new(code: String, message: String, retryable: bool) -> (error: Self)
        ensures
            error.0 == (ToolDiagnostic { code, message, retryable }),
    {
        ToolGuardError(ToolDiagnostic::new(code, message, retryable))
    }

    pub fn diagnostic(&self) -> (diagnostic: &ToolDiagnostic)
        ensures
            *diagnostic == self.0,
    {
        &self.0
    }

    pub fn into_diagnostic(self) -> (diagnostic: ToolDiagnostic)
        ensures
            diagnostic == self.0,
    {
        self.0
    }

    /// The error as one line of text.
    pub fn text(&self) -> (text: String)
        ensures
            text@ == "Tool guard failure `"@ + self.0.code@ + "`: "@ + self.0.message@,
    {
        let mut text = "Tool guard failure `".to_owned();
        text.push_str(self.0.code.as_str());
        text.push_str("`: ");
        text.push_str(self.0.message.as_str());
        text
    }
}

/// An approval provider could not decide.
#[derive(Debug, PartialEq, Eq)]
pub struct ToolAuthorizationError(pub ToolDiagnostic);

impl ToolAuthorizationError {
    pub fn new(code: String, message: String, retryable: bool) -> (error: Self)
        ensures
            error.0 == (ToolDiagnostic { code, message, retryable }),
    {
        ToolAuthorizationError(ToolDiagnostic::new(code, message, retryable))
    }

    pub fn diagnostic(&self) -> (diagnostic: &ToolDiagnostic)
        ensures
            *diagnostic == self.0,
    {
        &self.0
    }

    pub fn into_diagnostic(self) -> (diagnostic: ToolDiagnostic)
        ensures
            diagnostic == self.0,
    {
        self.0
    }

    /// The error as one line of text.
    pub fn text(&self) -> (text: String)
        ensures
            text@ == "Tool authorizer failure `"@ + self.0.code@ + "`: "@ + self.0.message@,
    {
        let mut text = "Tool authorizer failure `".to_owned();
        text.push_str(self.0.code.as_str());
        text.push_str("`: ");
        text.push_str(self.0.message.as_str());
        text
    }
}

/// Whether a tool invocation requires a keyed approval provider.
#[derive(Debug, PartialEq, Eq)]
pub enum ApprovalRequirement {
    NotRequired,
    Required(String),
}

impl ApprovalRequirement {
    pub fn required(key: String) -> (requirement: Self)
        ensures
            requirement == ApprovalRequirement::Required(key),
    {
        ApprovalRequirement::Required(key)
    }

    pub fn key(&self) -> (key: Option<&str>)
        ensures
            match (*self, key) {
                (ApprovalRequirement::NotRequired, None) => true,
                (ApprovalRequirement::Required(required), Some(k)) => k@ == required@,
                _ => false,
            },
    {
        match self {
            ApprovalRequirement::NotRequired => None,
            ApprovalRequirement::Required(key) => Some(key.as_str()),
        }
    }
}

impl Default for ApprovalRequirement {
    fn default() -> (requirement: Self)
        ensures
            requirement == ApprovalRequirement::NotRequired,
    {
        ApprovalRequirement::NotRequired
    }
}

/// What an authorizer decides on a call.
#[derive(Debug, PartialEq, Eq)]
pub enum ToolAuthorizationDecision {
    Approved,
    Denied(ToolDenial),
}

/// Limits of one call. A runtime only tightens what is configured.
#[derive(Debug, PartialEq, Eq)]
pub struct ToolCallOptions {
    /// Where the host says the call comes from. It authorizes nothing.
    pub action: Option<ActionContext>,
    pub timeout: Option<Duration>,
    pub max_output_bytes: Option<usize>,
}

/// How a tool is shown to the caller that may use it.
#[derive(Debug, PartialEq, Eq)]
pub struct ToolSchema {
    pub name: String,
    pub description: String,
    pub parameters: Json,
}

pub struct ToolSchemaView {
    pub name: Seq<char>,
    pub description: Seq<char>,
    pub parameters: Seq<char>,
}

impl ToolSchema {
    pub open spec fn view(&self) -> ToolSchemaView {
        ToolSchemaView {
            name: self.name@,
            description: self.description@,
            parameters: self.parameters@,
        }
    }
}

impl DeepView for ToolSchema {
    type V = ToolSchemaView;

    open spec fn deep_view(&self) -> ToolSchemaView {
        self@
    }
}

/// Static metadata supplied by a raw tool implementation.
#[derive(Debug, PartialEq, Eq)]
pub struct ToolMetadata {
    pub description: String,
    pub input_schema: Json,
    pub timeout_ceiling: Option<Duration>,
    pub output_ceiling_bytes: Option<usize>,
    pub approval: ApprovalRequirement,
}

impl ToolMetadata {
    pub fn description(&self) -> (value: &str)
        ensures
            value@ == self.description@,
    {
        self.description.as_str()
    }

    pub fn input_schema(&self) -> (value: &Json)
        ensures
            *value == self.input_schema,
    {
        &self.input_schema
    }

    pub fn timeout_ceiling(&self) -> (value: Option<Duration>)
        ensures
            value == self.timeout_ceiling,
    {
        self.timeout_ceiling
    }

    pub fn output_ceiling_bytes(&self) -> (value: Option<usize>)
        ensures
            value == self.output_ceiling_bytes,
    {
        self.output_ceiling_bytes
    }

    pub fn approval(&self) -> (value: &ApprovalRequirement)
        ensures
            *value == self.approval,
    {
        &self.approval
    }
}

impl ToolMetadata {
    pub fn new(description: String, input_schema: Json) -> (metadata: Self)
        ensures
            metadata == (ToolMetadata {
                description,
                input_schema,
                timeout_ceiling: None,
                output_ceiling_bytes: None,
                approval: ApprovalRequirement::NotRequired,
            }),
    {
        ToolMetadata {
            description,
            input_schema,
            timeout_ceiling: None,
            output_ceiling_bytes: None,
            approval: ApprovalRequirement::NotRequired,
        }
    }

    pub fn with_timeout_ceiling(self, timeout: Duration) -> (metadata: Self)
        ensures
            metadata == (ToolMetadata { timeout_ceiling: Some(timeout), ..self }),
    {
        ToolMetadata { timeout_ceiling: Some(timeout), ..self }
    }

    pub fn with_output_ceiling(self, bytes: usize) -> (metadata: Self)
        ensures
            metadata == (ToolMetadata { output_ceiling_bytes: Some(bytes), ..self }),
    {
        ToolMetadata { output_ceiling_bytes: Some(bytes), ..self }
    }

    pub fn with_approval(self, approval: ApprovalRequirement) -> (metadata: Self)
        ensures
            metadata == (ToolMetadata { approval, ..self }),
    {
        ToolMetadata { approval, ..self }
    }
}

/// Kernel-owned identity of the agent plugin using a turn gateway.
#[derive(Debug, PartialEq, Eq, Hash, PartialOrd, Ord)]
pub struct ToolCaller {
    owner: String,
}

impl ToolCaller {
    pub closed spec fn view(&self) -> Seq<char> {
        self.owner@
    }

    pub fn new(owner: String) -> (caller: Self)
        ensures
            caller@ == owner@,
    {
        ToolCaller { owner }
    }

    pub fn as_str(&self) -> (owner: &str)
        ensures
            owner@ == self@,
    {
        self.owner.as_str()
    }
}

/// The only canonical event families a tool runtime may request.
#[derive(Debug, PartialEq, Eq)]
pub enum ToolRecord {
    Call(ToolCall),
    Result(ToolResult),
}

impl ToolRecord {
    pub fn into_session_event_kind(self) -> (kind: SessionEventKind)
        ensures
            kind == match self {
                ToolRecord::Call(call) => SessionEventKind::ToolCall { call },
                ToolRecord::Result(result) => SessionEventKind::ToolResult { result },
            },
    {
        match self {
            ToolRecord::Call(call) => SessionEventKind::ToolCall { call },
            ToolRecord::Result(result) => SessionEventKind::ToolResult { result },
        }
    }
}

/// Why supplied committed evidence cannot describe one tool execution.
#[derive(Clone, Copy, Debug, PartialEq, Eq, Structural)]
pub enum InvalidToolExecution {
    /// Call and result name different calls.
    CallIdMismatch,
    /// The committed call event does not contain the supplied call.
    CallEventMismatch,
    /// The committed result event does not contain the supplied result.
    ResultEventMismatch,
    DifferentSession,
    DifferentTurn,
    /// The result does not follow its call.
    ReversedSequence,
}

/// The exact online and replay evidence for one completed semantic tool invocation.
#[derive(Debug, PartialEq, Eq)]
pub struct ToolExecution {
    pub call: ToolCall,
    pub result: ToolResult,
    pub call_event: SessionEvent,
    pub result_event: SessionEvent,
}

/// Why events do not show an execution, if so.
pub open spec fn execution_fault(
    call: ToolCallView,
    result: ToolResultView,
    call_event: SessionEventView,
    result_event: SessionEventView,
) -> Option<InvalidToolExecution> {
    if call.id != result.call_id {
        Some(InvalidToolExecution::CallIdMismatch)
    } else if call_event.kind != (SessionEventKindView::ToolCall { call }) {
        Some(InvalidToolExecution::CallEventMismatch)
    } else if result_event.kind != (SessionEventKindView::ToolResult { result }) {
        Some(InvalidToolExecution::ResultEventMismatch)
    } else if call_event.session_id != result_event.session_id {
        Some(InvalidToolExecution::DifferentSession)
    } else if call_event.turn_id != result_event.turn_id {
        Some(InvalidToolExecution::DifferentTurn)
    } else if call_event.seq >= result_event.seq {
        Some(InvalidToolExecution::ReversedSequence)
    } else {
        None
    }
}

impl ToolExecution {
    pub fn new(
        call: ToolCall,
        result: ToolResult,
        call_event: SessionEvent,
        result_event: SessionEvent,
    ) -> (execution: Result<Self, InvalidToolExecution>)
        ensures
            match execution {
                Ok(e) => {
                    &&& execution_fault(call@, result@, call_event@, result_event@) is None
                    &&& e == (ToolExecution { call, result, call_event, result_event })
                },
                Err(e) => execution_fault(call@, result@, call_event@, result_event@) == Some(e),
            },
    {
        if !call.id.is_same(&result.call_id) {
            return Err(InvalidToolExecution::CallIdMismatch);
        }
        let records_call: bool = match &call_event.kind {
            SessionEventKind::ToolCall { call: recorded } => recorded.is_same(&call),
            _ => false,
        };
        if !records_call {
            return Err(InvalidToolExecution::CallEventMismatch);
        }
        let records_result: bool = match &result_event.kind {
            SessionEventKind::ToolResult { result: recorded } => recorded.is_same(&result),
            _ => false,
        };
        if !records_result {
            return Err(InvalidToolExecution::ResultEventMismatch);
        }
        if !call_event.session_id.is_same(&result_event.session_id) {
            return Err(InvalidToolExecution::DifferentSession);
        }
        if !call_event.turn_id.is_same(&result_event.turn_id) {
            return Err(InvalidToolExecution::DifferentTurn);
        }
        if call_event.seq >= result_event.seq {
            return Err(InvalidToolExecution::ReversedSequence);
        }
        Ok(ToolExecution { call, result, call_event, result_event })
    }

    pub fn call(&self) -> (call: &ToolCall)
        ensures
            *call == self.call,
    {
        &self.call
    }

    pub fn result(&self) -> (result: &ToolResult)
        ensures
            *result == self.result,
    {
        &self.result
    }

    pub fn call_event(&self) -> (event: &SessionEvent)
        ensures
            *event == self.call_event,
    {
        &self.call_event
    }

    pub fn result_event(&self) -> (event: &SessionEvent)
        ensures
            *event == self.result_event,
    {
        &self.result_event
    }

    pub fn into_parts(self) -> (parts: (ToolCall, ToolResult, SessionEvent, SessionEvent))
        ensures
            parts == (self.call, self.result, self.call_event, self.result_event),
    {
        (self.call, self.result, self.call_event, self.result_event)
    }
}

} // verus!
