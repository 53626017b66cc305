//! What the log says of how a turn went.

use crate::agent::driver::{
    agent_fields, body_intent, closing_text, model_fields, run_stop_of, streamed, tool_fields, BodyEnd,
    CancelReason, FieldsView, IntentView, TurnCommitSummary,
};
use crate::agent::turn::{AgentError, DriveFailure, TurnDisposition, TurnOutcome};
use crate::budget::vocabulary::{ReportView, TaskRunStop};
use crate::llm::failure::{LlmError, ModelGatewayError, ModelRuntimeError};
use crate::session::error::SessionRuntimeError;
use crate::session::event::{DoneStatus, SessionEventKindView, SessionEventView};
use crate::tool::failure::ToolRuntimeError;
use vstd::prelude::*;

verus! {

/// The codes in the log tell the failures of model calls apart.
#[verifier::spinoff_prover]
#[verifier::rlimit(60)]
pub proof fn model_failures_are_told_apart(error: ModelGatewayError)
    ensures
        ({
            let code = model_fields(error).code;
            &&& code == "task_budget_stopped"@ <==> (error matches ModelGatewayError::Runtime(ModelRuntimeError::Budget(_)))
            &&& code == "model_upstream"@ <==> (error matches ModelGatewayError::Model(LlmError::Upstream { .. }))
            &&& code == "model_timeout"@ <==> (error matches ModelGatewayError::Model(LlmError::Timeout))
            &&& code == "model_stream_parse"@ <==> (error matches ModelGatewayError::Model(LlmError::StreamParse(_)))
            &&& code == "model_protocol"@ <==> (error matches ModelGatewayError::Model(LlmError::Protocol(_)))
            &&& code == "model_cancelled"@ <==> (error matches ModelGatewayError::Model(LlmError::Cancelled))
            &&& code == "model_adapter"@ <==> (error matches ModelGatewayError::Model(LlmError::Adapter(_)))
            &&& code == "model_runtime_stopped"@ <==> (error matches ModelGatewayError::Runtime(ModelRuntimeError::Stopped))
            &&& code == "model_turn_closed"@ <==> (error matches ModelGatewayError::Runtime(ModelRuntimeError::TurnClosed))
            &&& code == "model_overloaded"@ <==> (error matches ModelGatewayError::Runtime(ModelRuntimeError::Overloaded { .. }))
            &&& code == "model_request_too_large"@ <==> (error matches ModelGatewayError::Runtime(ModelRuntimeError::RequestTooLarge { .. }))
            &&& code == "model_queue_timeout"@ <==> (error matches ModelGatewayError::Runtime(ModelRuntimeError::QueueTimeout))
            &&& code == "model_invalid_timeout"@ <==> (error matches ModelGatewayError::Runtime(ModelRuntimeError::InvalidTimeout))
            &&& code == "model_schema_rejected"@ <==> (error matches ModelGatewayError::SchemaRejected { .. })
            &&& code == "model_recording"@ <==> (error matches ModelGatewayError::Recording(_))
            &&& code == "model_runtime_internal"@ <==> (error matches ModelGatewayError::Runtime(
                ModelRuntimeError::Internal { .. },
            )) || (error matches ModelGatewayError::Internal { .. })
        }),
{
    reveal_strlit("task_budget_stopped");
    reveal_strlit("model_upstream");
    reveal_strlit("model_timeout");
    reveal_strlit("model_stream_parse");
    reveal_strlit("model_protocol");
    reveal_strlit("model_cancelled");
    reveal_strlit("model_adapter");
    reveal_strlit("model_runtime_stopped");
    reveal_strlit("model_turn_closed");
    reveal_strlit("model_overloaded");
    reveal_strlit("model_request_too_large");
    reveal_strlit("model_queue_timeout");
    reveal_strlit("model_invalid_timeout");
    reveal_strlit("model_schema_rejected");
    reveal_strlit("model_recording");
    reveal_strlit("model_runtime_internal");
    assert("task_budget_stopped"@.len() != "model_upstream"@.len());
    assert("task_budget_stopped"@.len() != "model_timeout"@.len());
    assert("model_upstream"@.len() != "model_timeout"@.len());
    assert("task_budget_stopped"@.len() != "model_stream_parse"@.len());
    assert("model_upstream"@.len() != "model_stream_parse"@.len());
    assert("model_timeout"@.len() != "model_stream_parse"@.len());
    assert("task_budget_stopped"@.len() != "model_protocol"@.len());
    assert("model_upstream"@[6] != "model_protocol"@[6]);
    assert("model_timeout"@.len() != "model_protocol"@.len());
    assert("model_stream_parse"@.len() != "model_protocol"@.len());
    assert("task_budget_stopped"@.len() != "model_cancelled"@.len());
    assert("model_upstream"@.len() != "model_cancelled"@.len());
    assert("model_timeout"@.len() != "model_cancelled"@.len());
    assert("model_stream_parse"@.len() != "model_cancelled"@.len());
    assert("model_protocol"@.len() != "model_cancelled"@.len());
    assert("task_budget_stopped"@.len() != "model_adapter"@.len());
    assert("model_upstream"@.len() != "model_adapter"@.len());
    assert("model_timeout"@[6] != "model_adapter"@[6]);
    assert("model_stream_parse"@.len() != "model_adapter"@.len());
    assert("model_protocol"@.len() != "model_adapter"@.len());
    assert("model_cancelled"@.len() != "model_adapter"@.len());
    assert("task_budget_stopped"@.len() != "model_runtime_stopped"@.len());
    assert("model_upstream"@.len() != "model_runtime_stopped"@.len());
    assert("model_timeout"@.len() != "model_runtime_stopped"@.len());
    assert("model_stream_parse"@.len() != "model_runtime_stopped"@.len());
    assert("model_protocol"@.len() != "model_runtime_stopped"@.len());
    assert("model_cancelled"@.len() != "model_runtime_stopped"@.len());
    assert("model_adapter"@.len() != "model_runtime_stopped"@.len());
    assert("task_budget_stopped"@.len() != "model_turn_closed"@.len());
    assert("model_upstream"@.len() != "model_turn_closed"@.len());
    assert("model_timeout"@.len() != "model_turn_closed"@.len());
    assert("model_stream_parse"@.len() != "model_turn_closed"@.len());
    assert("model_protocol"@.len() != "model_turn_closed"@.len());
    assert("model_cancelled"@.len() != "model_turn_closed"@.len());
    assert("model_adapter"@.len() != "model_turn_closed"@.len());
    assert("model_runtime_stopped"@.len() != "model_turn_closed"@.len());
    assert("task_budget_stopped"@.len() != "model_overloaded"@.len());
    assert("model_upstream"@.len() != "model_overloaded"@.len());
    assert("model_timeout"@.len() != "model_overloaded"@.len());
    assert("model_stream_parse"@.len() != "model_overloaded"@.len());
    assert("model_protocol"@.len() != "model_overloaded"@.len());
    assert("model_cancelled"@.len() != "model_overloaded"@.len());
    assert("model_adapter"@.len() != "model_overloaded"@.len());
    assert("model_runtime_stopped"@.len() != "model_overloaded"@.len());
    assert("model_turn_closed"@.len() != "model_overloaded"@.len());
    assert("task_budget_stopped"@.len() != "model_request_too_large"@.len());
    assert("model_upstream"@.len() != "model_request_too_large"@.len());
    assert("model_timeout"@.len() != "model_request_too_large"@.len());
    assert("model_stream_parse"@.len() != "model_request_too_large"@.len());
    assert("model_protocol"@.len() != "model_request_too_large"@.len());
    assert("model_cancelled"@.len() != "model_request_too_large"@.len());
    assert("model_adapter"@.len() != "model_request_too_large"@.len());
    assert("model_runtime_stopped"@.len() != "model_request_too_large"@.len());
    assert("model_turn_closed"@.len() != "model_request_too_large"@.len());
    assert("model_overloaded"@.len() != "model_request_too_large"@.len());
    assert("task_budget_stopped"@[0] != "model_queue_timeout"@[0]);
    assert("model_upstream"@.len() != "model_queue_timeout"@.len());
    assert("model_timeout"@.len() != "model_queue_timeout"@.len());
    assert("model_stream_parse"@.len() != "model_queue_timeout"@.len());
    assert("model_protocol"@.len() != "model_queue_timeout"@.len());
    assert("model_cancelled"@.len() != "model_queue_timeout"@.len());
    assert("model_adapter"@.len() != "model_queue_timeout"@.len());
    assert("model_runtime_stopped"@.len() != "model_queue_timeout"@.len());
    assert("model_turn_closed"@.len() != "model_queue_timeout"@.len());
    assert("model_overloaded"@.len() != "model_queue_timeout"@.len());
    assert("model_request_too_large"@.len() != "model_queue_timeout"@.len());
    assert("task_budget_stopped"@.len() != "model_invalid_timeout"@.len());
    assert("model_upstream"@.len() != "model_invalid_timeout"@.len());
    assert("model_timeout"@.len() != "model_invalid_timeout"@.len());
    assert("model_stream_parse"@.len() != "model_invalid_timeout"@.len());
    assert("model_protocol"@.len() != "model_invalid_timeout"@.len());
    assert("model_cancelled"@.len() != "model_invalid_timeout"@.len());
    assert("model_adapter"@.len() != "model_invalid_timeout"@.len());
    assert("model_runtime_stopped"@[6] != "model_invalid_timeout"@[6]);
    assert("model_turn_closed"@.len() != "model_invalid_timeout"@.len());
    assert("model_overloaded"@.len() != "model_invalid_timeout"@.len());
    assert("model_request_too_large"@.len() != "model_invalid_timeout"@.len());
    assert("model_queue_timeout"@.len() != "model_invalid_timeout"@.len());
    assert("task_budget_stopped"@.len() != "model_schema_rejected"@.len());
    assert("model_upstream"@.len() != "model_schema_rejected"@.len());
    assert("model_timeout"@.len() != "model_schema_rejected"@.len());
    assert("model_stream_parse"@.len() != "model_schema_rejected"@.len());
    assert("model_protocol"@.len() != "model_schema_rejected"@.len());
    assert("model_cancelled"@.len() != "model_schema_rejected"@.len());
    assert("model_adapter"@.len() != "model_schema_rejected"@.len());
    assert("model_runtime_stopped"@[6] != "model_schema_rejected"@[6]);
    assert("model_turn_closed"@.len() != "model_schema_rejected"@.len());
    assert("model_overloaded"@.len() != "model_schema_rejected"@.len());
    assert("model_request_too_large"@.len() != "model_schema_rejected"@.len());
    assert("model_queue_timeout"@.len() != "model_schema_rejected"@.len());
    assert("model_invalid_timeout"@[6] != "model_schema_rejected"@[6]);
    assert("task_budget_stopped"@.len() != "model_recording"@.len());
    assert("model_upstream"@.len() != "model_recording"@.len());
    assert("model_timeout"@.len() != "model_recording"@.len());
    assert("model_stream_parse"@.len() != "model_recording"@.len());
    assert("model_protocol"@.len() != "model_recording"@.len());
    assert("model_cancelled"@[6] != "model_recording"@[6]);
    assert("model_adapter"@.len() != "model_recording"@.len());
    assert("model_runtime_stopped"@.len() != "model_recording"@.len());
    assert("model_turn_closed"@.len() != "model_recording"@.len());
    assert("model_overloaded"@.len() != "model_recording"@.len());
    assert("model_request_too_large"@.len() != "model_recording"@.len());
    assert("model_queue_timeout"@.len() != "model_recording"@.len());
    assert("model_invalid_timeout"@.len() != "model_recording"@.len());
    assert("model_schema_rejected"@.len() != "model_recording"@.len());
    assert("task_budget_stopped"@.len() != "model_runtime_internal"@.len());
    assert("model_upstream"@.len() != "model_runtime_internal"@.len());
    assert("model_timeout"@.len() != "model_runtime_internal"@.len());
    assert("model_stream_parse"@.len() != "model_runtime_internal"@.len());
    assert("model_protocol"@.len() != "model_runtime_internal"@.len());
    assert("model_cancelled"@.len() != "model_runtime_internal"@.len());
    assert("model_adapter"@.len() != "model_runtime_internal"@.len());
    assert("model_runtime_stopped"@.len() != "model_runtime_internal"@.len());
    assert("model_turn_closed"@.len() != "model_runtime_internal"@.len());
    assert("model_overloaded"@.len() != "model_runtime_internal"@.len());
    assert("model_request_too_large"@.len() != "model_runtime_internal"@.len());
    assert("model_queue_timeout"@.len() != "model_runtime_internal"@.len());
    assert("model_invalid_timeout"@.len() != "model_runtime_internal"@.len());
    assert("model_schema_rejected"@.len() != "model_runtime_internal"@.len());
    assert("model_recording"@.len() != "model_runtime_internal"@.len());
}

/// The codes in the log tell the failures of tool calls apart.
pub proof fn tool_failures_are_told_apart(error: ToolRuntimeError)
    ensures
        ({
            let code = tool_fields(error).code;
            &&& code == "task_budget_stopped"@ <==> (error matches ToolRuntimeError::Budget(_))
            &&& code == "tool_runtime_stopped"@ <==> (error matches ToolRuntimeError::Stopped)
            &&& code == "tool_turn_closed"@ <==> (error matches ToolRuntimeError::TurnClosed)
            &&& code == "tool_runtime_overloaded"@ <==> (error matches ToolRuntimeError::Overloaded)
            &&& code == "tool_invalid_request"@ <==> (error matches ToolRuntimeError::Preflight(_))
            &&& code == "tool_cancelled"@ <==> (error matches ToolRuntimeError::Cancelled { .. })
            &&& code == "tool_recording"@ <==> (error matches ToolRuntimeError::Recording(_))
            &&& code == "tool_runtime_internal"@ <==> (error matches ToolRuntimeError::Internal { .. })
        }),
{
    reveal_strlit("task_budget_stopped");
    reveal_strlit("tool_runtime_stopped");
    reveal_strlit("tool_turn_closed");
    reveal_strlit("tool_runtime_overloaded");
    reveal_strlit("tool_invalid_request");
    reveal_strlit("tool_cancelled");
    reveal_strlit("tool_recording");
    reveal_strlit("tool_runtime_internal");
    assert("task_budget_stopped"@.len() != "tool_runtime_stopped"@.len());
    assert("task_budget_stopped"@.len() != "tool_turn_closed"@.len());
    assert("tool_runtime_stopped"@.len() != "tool_turn_closed"@.len());
    assert("task_budget_stopped"@.len() != "tool_runtime_overloaded"@.len());
    assert("tool_runtime_stopped"@.len() != "tool_runtime_overloaded"@.len());
    assert("tool_turn_closed"@.len() != "tool_runtime_overloaded"@.len());
    assert("task_budget_stopped"@.len() != "tool_invalid_request"@.len());
    assert("tool_runtime_stopped"@[5] != "tool_invalid_request"@[5]);
    assert("tool_turn_closed"@.len() != "tool_invalid_request"@.len());
    assert("tool_runtime_overloaded"@.len() != "tool_invalid_request"@.len());
    assert("task_budget_stopped"@.len() != "tool_cancelled"@.len());
    assert("tool_runtime_stopped"@.len() != "tool_cancelled"@.len());
    assert("tool_turn_closed"@.len() != "tool_cancelled"@.len());
    assert("tool_runtime_overloaded"@.len() != "tool_cancelled"@.len());
    assert("tool_invalid_request"@.len() != "tool_cancelled"@.len());
    assert("task_budget_stopped"@.len() != "tool_recording"@.len());
    assert("tool_runtime_stopped"@.len() != "tool_recording"@.len());
    assert("tool_turn_closed"@.len() != "tool_recording"@.len());
    assert("tool_runtime_overloaded"@.len() != "tool_recording"@.len());
    assert("tool_invalid_request"@.len() != "tool_recording"@.len());
    assert("tool_cancelled"@[5] != "tool_recording"@[5]);
    assert("task_budget_stopped"@.len() != "tool_runtime_internal"@.len());
    assert("tool_runtime_stopped"@.len() != "tool_runtime_internal"@.len());
    assert("tool_turn_closed"@.len() != "tool_runtime_internal"@.len());
    assert("tool_runtime_overloaded"@.len() != "tool_runtime_internal"@.len());
    assert("tool_invalid_request"@.len() != "tool_runtime_internal"@.len());
    assert("tool_cancelled"@.len() != "tool_runtime_internal"@.len());
    assert("tool_recording"@.len() != "tool_runtime_internal"@.len());
}

/// Only what may pass by itself is called retryable: a timeout, an overload, an adapter's
/// failure, a busy or broken provider, or what the agent itself calls so.
pub proof fn only_passing_failures_are_retryable(error: AgentError)
    ensures
        agent_fields(error).retryable <==> match error {
            AgentError::Failed(failure) => failure.retryable,
            AgentError::Model(ModelGatewayError::Model(LlmError::Upstream { status, .. })) => status
                == 408 || status == 429 || status >= 500,
            AgentError::Model(ModelGatewayError::Model(LlmError::Timeout)) => true,
            AgentError::Model(ModelGatewayError::Model(LlmError::Adapter(_))) => true,
            AgentError::Model(ModelGatewayError::Runtime(ModelRuntimeError::Overloaded { .. })) => true,
            AgentError::Model(ModelGatewayError::Runtime(ModelRuntimeError::QueueTimeout)) => true,
            AgentError::Tool(ToolRuntimeError::Overloaded) => true,
            _ => false,
        },
{
}

/// Both failures are of one kind, whatever words came with them.
pub open spec fn are_of_one_kind(a: ModelGatewayError, b: ModelGatewayError) -> bool {
    match (a, b) {
        (
            ModelGatewayError::Model(LlmError::Upstream { status: s, .. }),
            ModelGatewayError::Model(LlmError::Upstream { status: t, .. }),
        ) => s == t,
        (
            ModelGatewayError::Model(LlmError::StreamParse(_)),
            ModelGatewayError::Model(LlmError::StreamParse(_)),
        ) => true,
        (
            ModelGatewayError::Model(LlmError::Protocol(_)),
            ModelGatewayError::Model(LlmError::Protocol(_)),
        ) => true,
        (
            ModelGatewayError::Model(LlmError::Adapter(_)),
            ModelGatewayError::Model(LlmError::Adapter(_)),
        ) => true,
        (ModelGatewayError::Internal { .. }, ModelGatewayError::Internal { .. }) => true,
        (ModelGatewayError::SchemaRejected { .. }, ModelGatewayError::SchemaRejected { .. }) => true,
        (ModelGatewayError::Recording(_), ModelGatewayError::Recording(_)) => true,
        _ => a == b,
    }
}

/// What a provider, an adapter or a store said never gets into the log: failures of one
/// kind are logged in the same words.
pub proof fn outside_words_are_not_logged(a: ModelGatewayError, b: ModelGatewayError)
    requires
        are_of_one_kind(a, b),
    ensures
        model_fields(a) == model_fields(b),
{
}

/// A turn comes to what its agent came to: an outcome is kept with its text and artifact, a
/// cancellation is no failure, a failure keeps its cause, and the text that was streamed
/// stays.
pub proof fn turns_come_to_what_the_agent_came_to(end: BodyEnd, partial: Seq<char>)
    ensures
        ({
            let intent = body_intent(end, partial);
            match end {
                BodyEnd::Finished(Ok(output)) => {
                    &&& intent.disposition == TurnDisposition::Completed <==> output.outcome
                        == TurnOutcome::Completed
                    &&& intent.disposition == TurnDisposition::WaitingForInput <==> output.outcome
                        == TurnOutcome::WaitingForInput
                    &&& intent.disposition == TurnDisposition::Cancelled <==> output.outcome
                        == TurnOutcome::Cancelled
                    &&& intent.final_text == output.final_text@
                    &&& intent.artifact == output.artifact.deep_view()
                    &&& intent.drive_failure is None
                },
                BodyEnd::Cancelled => intent.disposition == TurnDisposition::Cancelled
                    && intent.final_text == partial && intent.drive_failure is None,
                BodyEnd::BudgetStopped(error) => intent.disposition == TurnDisposition::Failed
                    && intent.final_text == partial && intent.drive_failure == Some(
                    DriveFailure::Agent(AgentError::Budget(error)),
                ),
                BodyEnd::Panicked => intent.disposition == TurnDisposition::Failed
                    && intent.final_text == partial && intent.drive_failure == Some(
                    DriveFailure::Panicked,
                ),
                BodyEnd::Finished(Err(error)) => {
                    &&& intent.final_text == partial
                    &&& intent.artifact is None
                    &&& error == AgentError::Cancelled ==> intent.disposition
                        == TurnDisposition::Cancelled
                    &&& intent.disposition == TurnDisposition::Cancelled || (intent.disposition
                        == TurnDisposition::Failed && intent.drive_failure == Some(
                        DriveFailure::Agent(error),
                    ))
                    &&& error is Failed || error is Budget || error is Session
                        || error is CapabilityClosure ==> intent.disposition
                        == TurnDisposition::Failed
                },
            }
        }),
{
}

/// The last event of a turn says what it came to, and carries its artifact; of a failed
/// turn it says how it failed.
pub proof fn last_events_say_what_a_turn_came_to(intent: IntentView)
    requires
        intent.wf(),
    ensures
        match intent.terminal_kind() {
            SessionEventKindView::Done { status, artifact } => {
                &&& artifact == intent.artifact
                &&& status == DoneStatus::Completed <==> intent.disposition
                    == TurnDisposition::Completed
                &&& status == DoneStatus::WaitingForInput <==> intent.disposition
                    == TurnDisposition::WaitingForInput
                &&& status == DoneStatus::Cancelled <==> intent.disposition
                    == TurnDisposition::Cancelled
                &&& intent.disposition != TurnDisposition::Failed
            },
            SessionEventKindView::Error { code, message, retryable } => {
                &&& intent.disposition == TurnDisposition::Failed
                &&& intent.terminal_error == Some(FieldsView { code, message, retryable })
            },
            _ => false,
        },
{
}

/// The report of a run says why it ended; a budget that stopped it prevails, the task's
/// before the run's.
pub proof fn run_reports_say_why_a_run_ended(
    report: ReportView,
    disposition: TurnDisposition,
    reason: CancelReason,
)
    ensures
        ({
            let stop = run_stop_of(report, disposition, reason);
            let of_run = report.run is Some && report.run->0.stop is Some;
            let budget = report.stop is Some || of_run;
            &&& stop is Budget <==> budget
            &&& report.stop matches Some(why) ==> stop == TaskRunStop::Budget(why)
            &&& report.stop is None && of_run ==> stop == TaskRunStop::Budget(
                report.run->0.stop->0,
            )
            &&& !budget ==> {
                &&& stop == TaskRunStop::Completed <==> disposition == TurnDisposition::Completed
                &&& stop == TaskRunStop::WaitingForInput <==> disposition
                    == TurnDisposition::WaitingForInput
                &&& stop == TaskRunStop::Failed <==> disposition == TurnDisposition::Failed
                &&& stop == TaskRunStop::RuntimeStopping <==> disposition
                    == TurnDisposition::Cancelled && reason == CancelReason::RuntimeStopping
                &&& stop == TaskRunStop::CallerCancelled <==> disposition
                    == TurnDisposition::Cancelled && reason != CancelReason::RuntimeStopping
            }
        }),
{
}

/// Streamed text is put together piece by piece, in the order of the log: what two parts
/// of a log streamed, they streamed together.
pub proof fn streams_are_put_together(a: Seq<SessionEventView>, b: Seq<SessionEventView>)
    ensures
        streamed(a + b) == streamed(a) + streamed(b),
    decreases b.len(),
{
    if b.len() == 0 {
        assert(a + b =~= a);
        assert(streamed(a) + streamed(b) =~= streamed(a));
    } else {
        assert((a + b).drop_last() =~= a + b.drop_last());
        streams_are_put_together(a, b.drop_last());
        match b.last().kind {
            SessionEventKindView::AssistantDelta { text } => {
                assert(streamed(a) + (streamed(b.drop_last()) + text) =~= (streamed(a) + streamed(
                    b.drop_last(),
                )) + text);
            },
            _ => {},
        }
    }
}

/// One piece is its own text, and nothing else streams anything.
pub proof fn pieces_are_streamed_as_they_are(event: SessionEventView)
    ensures
        streamed(seq![event]) == match event.kind {
            SessionEventKindView::AssistantDelta { text } => text,
            _ => Seq::empty(),
        },
{
    assert(seq![event].drop_last() =~= Seq::<SessionEventView>::empty());
    assert(streamed(Seq::<SessionEventView>::empty()) =~= Seq::<char>::empty());
    assert(streamed(seq![event]) =~= match event.kind {
        SessionEventKindView::AssistantDelta { text } => text,
        _ => Seq::empty(),
    });
}

/// A closed turn shows the text that the agent gave; where it gave none, or failed, it
/// shows what was streamed to the log.
pub proof fn closed_turns_show_their_text(
    intent: IntentView,
    settled: Result<TurnCommitSummary, SessionRuntimeError>,
)
    ensures
        intent.disposition == TurnDisposition::Completed || intent.disposition
            == TurnDisposition::WaitingForInput ==> closing_text(intent, settled)
            == intent.final_text,
        intent.disposition == TurnDisposition::Failed && settled is Ok ==> closing_text(
            intent,
            settled,
        ) == streamed(settled->Ok_0.events.deep_view()),
        intent.disposition == TurnDisposition::Cancelled && settled is Ok ==> closing_text(
            intent,
            settled,
        ) == if intent.has_agent_output {
            intent.final_text
        } else {
            streamed(settled->Ok_0.events.deep_view())
        },
        settled is Err ==> closing_text(intent, settled) == intent.final_text,
{
}

} // verus!
