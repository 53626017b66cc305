//! The handoff from a question to its answer, within one process.
//!
//! What is kept of a question grants nothing by itself. The answer is taken only with
//! the live ledger that the question was asked under, unchanged since.

use crate::agent::reference::{is_valid_question, ReferenceConfigError};
use crate::agent::reference_report::{PendingQuestion, PendingQuestionView};
use crate::agent::turn::{AgentTurnReport, AgentTurnRequest, TurnDisposition};
use crate::budget::ledger::TaskBudget;
use crate::budget::model::LedgerView;
use crate::budget::vocabulary::{BudgetAmounts, BudgetLimits, TaskRunStop};
use crate::id::TurnId;
use crate::json::{json_string, quote};
use crate::record::Record;
use crate::text::{blank, byte_len, is_blank, same_text, size};
use crate::time::Duration;
use vstd::prelude::*;

verus! {

/// A question with the ledger it was asked under. The host keeps one owner of it.
pub struct ReferenceWaiting {
    pub pending: PendingQuestion,
    pub task: TaskBudget,
    pub charged: BudgetAmounts,
}

/// The report is that of a turn that waits, and carries exactly this question of this
/// task. `artifact_type` is what the report's artifact calls itself.
pub open spec fn matches_question(
    report: AgentTurnReport,
    pending: PendingQuestionView,
    artifact_type: Option<Seq<char>>,
    task: LedgerView,
) -> bool {
    &&& report.task_run_report matches Some(receipt)
    &&& report.artifact is Some
    &&& report.disposition == TurnDisposition::WaitingForInput
    &&& report.budget_checkpoint is None
    &&& receipt.stop == TaskRunStop::WaitingForInput
    &&& receipt.capabilities_drained
    &&& artifact_type == Some("reference_waiting_v1"@)
    &&& is_valid_question(pending)
    &&& pending.session_id == report.session_id@
    &&& pending.turn_id == report.turn_id@
    &&& pending.pending_question == report.final_text@
    &&& pending.session_id == task.identity.session
    &&& pending.task_id == task.identity.task
    &&& pending.agent_key == task.identity.agent
    &&& receipt@.budget.identity == task.identity
    &&& receipt@.budget.run matches Some(run)
    &&& !run.open
    &&& run.turn == Some(report.turn_id@)
}

/// The ledger is idle and has charged what the question's report says, some model
/// request among it.
pub open spec fn is_idle_with(task: LedgerView, charged: BudgetAmounts) -> bool {
    &&& !task.sealed
    &&& task.report().run is None
    &&& task.report().stop is None
    &&& task.report().pending.len() == 0
    &&& task.report().charged == charged
    &&& charged.model_requests > 0
}

/// The answer as the next user message.
pub open spec fn reply_text(answer: Seq<char>, turn: Seq<char>, task: Seq<char>) -> Seq<char> {
    "{\"answer\":"@ + json_string(answer) + ",\"reply_to\":"@ + json_string(turn)
        + ",\"task_id\":"@ + json_string(task) + ",\"type\":\"reference_reply_v1\"}"@
}

fn idle_with(task: &mut TaskBudget, charged: &BudgetAmounts, now: Duration) -> (answer: bool)
    requires
        old(task).wf(),
    ensures
        final(task).wf(),
        final(task)@ == old(task)@.ticked(now.length()),
        answer == is_idle_with(final(task)@, *charged),
{
    let live = match task.report(now) {
        Ok(live) => live,
        Err(_) => {
            return false;
        },
    };
    live.run.is_none() && live.stop.is_none() && live.pending.len() == 0 && live.charged
        == *charged && charged.model_requests > 0
}

impl ReferenceWaiting {
    /// Takes a report that waits, the question in its artifact, and the ledger.
    pub fn from_report(
        report: &AgentTurnReport,
        pending: PendingQuestion,
        artifact_type: &Option<String>,
        task: TaskBudget,
        now: Duration,
    ) -> (result: Result<Self, ReferenceConfigError>)
        requires
            task.wf(),
        ensures
            match result {
                Ok(waiting) => {
                    let charged = report.task_run_report->0.budget.charged;
                    &&& matches_question(*report, pending@, artifact_type.deep_view(), task@)
                    &&& is_idle_with(task@.ticked(now.length()), charged)
                    &&& waiting.pending == pending
                    &&& waiting.charged == charged
                    &&& waiting.task.wf()
                    &&& waiting.task@ == task@.ticked(now.length())
                },
                Err(_) => !(matches_question(
                    *report,
                    pending@,
                    artifact_type.deep_view(),
                    task@,
                ) && is_idle_with(
                    task@.ticked(now.length()),
                    report.task_run_report->0.budget.charged,
                )),
            },
    {
        let mut task = task;
        let receipt = match &report.task_run_report {
            Some(receipt) => receipt,
            None => {
                return Err(ReferenceConfigError);
            },
        };
        let typed: bool = match artifact_type {
            Some(text) => same_text(text.as_str(), "reference_waiting_v1"),
            None => false,
        };
        if report.artifact.is_none() || report.disposition != TurnDisposition::WaitingForInput
            || report.budget_checkpoint.is_some() || receipt.stop != TaskRunStop::WaitingForInput
            || !receipt.capabilities_drained || !typed || !pending.valid()
            || !pending.session_id.is_same(&report.session_id) || !pending.turn_id.is_same(
            &report.turn_id,
        ) || !pending.pending_question.is_same(&report.final_text) {
            return Err(ReferenceConfigError);
        }
        let identity = task.identity();
        if !pending.session_id.is_same(&identity.session_id) || !pending.task_id.is_same(
            &identity.task_id,
        ) || !pending.agent_key.is_same(&identity.agent_key) || !receipt.budget.identity.is_same(
            identity,
        ) {
            return Err(ReferenceConfigError);
        }
        let ran: bool = match &receipt.budget.run {
            Some(run) => !run.open && match &run.turn_id {
                Some(turn) => turn.is_same(&report.turn_id),
                None => false,
            },
            None => false,
        };
        if !ran {
            return Err(ReferenceConfigError);
        }
        let charged = receipt.budget.charged;
        if !idle_with(&mut task, &charged, now) {
            return Err(ReferenceConfigError);
        }
        Ok(ReferenceWaiting { pending, task, charged })
    }

    pub fn pending(&self) -> (pending: &PendingQuestion)
        ensures
            *pending == self.pending,
    {
        &self.pending
    }

    /// Takes the answer to exactly this question and asks for the next turn. The caller
    /// has authenticated the user; nothing is read as consent to what was denied.
    pub fn resume(self, reply_to: &TurnId, answer: &String, run_limits: BudgetLimits, now: Duration) -> (result:
        Result<AgentTurnRequest, ReferenceConfigError>)
        requires
            self.task.wf(),
        ensures
            ({
                let accepts = reply_to@ == self.pending@.turn_id && !is_blank(answer@) && byte_len(
                    answer@,
                ) <= 65_536 && is_idle_with(self.task@.ticked(now.length()), self.charged);
                match result {
                    Ok(request) => {
                        &&& accepts
                        &&& request.session_id == self.pending.session_id
                        &&& request.agent_key == self.pending.agent_key
                        &&& request.user_message@ == reply_text(
                            answer@,
                            self.pending@.turn_id,
                            self.pending@.task_id,
                        )
                        &&& request.binding matches Some((task, limits))
                        &&& task.wf()
                        &&& task@ == self.task@.ticked(now.length())
                        &&& limits == run_limits
                    },
                    Err(_) => !accepts,
                }
            }),
    {
        let mut task = self.task;
        if !reply_to.is_same(&self.pending.turn_id) || blank(answer.as_str()) || size(
            answer.as_str(),
        ) > 65_536 {
            return Err(ReferenceConfigError);
        }
        if !idle_with(&mut task, &self.charged, now) {
            return Err(ReferenceConfigError);
        }
        let mut message = "{\"answer\":".to_owned();
        message.push_str(quote(answer.as_str()).as_str());
        message.push_str(",\"reply_to\":");
        message.push_str(quote(self.pending.turn_id.as_str()).as_str());
        message.push_str(",\"task_id\":");
        message.push_str(quote(self.pending.task_id.as_str()).as_str());
        message.push_str(",\"type\":\"reference_reply_v1\"}");
        Ok(
            AgentTurnRequest::new(
                self.pending.session_id,
                self.pending.agent_key,
                message,
            ).with_budget(task, run_limits),
        )
    }
}

/// A ledger that was charged anything since the question does not take its answer.
pub proof fn answers_need_the_same_ledger(task: LedgerView, charged: BudgetAmounts, other: BudgetAmounts)
    requires
        is_idle_with(task, charged),
        other != charged,
    ensures
        !is_idle_with(task, other),
{
}

} // verus!
