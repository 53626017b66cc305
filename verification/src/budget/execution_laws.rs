//! What a stored ledger and the log say of each other.

use crate::agent::reference_report::PendingQuestionView;
use crate::agent::turn::{AgentTurnReport, TurnDisposition};
use crate::agent::waiting::matches_question;
use crate::budget::audit::RecoveryRequestView;
use crate::budget::execution::{claimed, history_fault};
use crate::budget::model::LedgerView;
use crate::budget::recovery::{assessment, recovered, BudgetRecoveryAssessment, BudgetRecoveryError};
use crate::budget::sealed::{before_grants, CheckpointView};
use crate::budget::vocabulary::TaskRunStop;
use crate::session::event::{DoneStatus, SessionEventKindView, SessionEventView};
use vstd::prelude::*;

verus! {

/// The last event says that the turn ended as its report says.
pub open spec fn ends_as_reported(last: SessionEventKindView, stop: TaskRunStop) -> bool {
    match stop {
        TaskRunStop::Completed => last matches SessionEventKindView::Done { status, .. } && status
            == DoneStatus::Completed,
        TaskRunStop::WaitingForInput => last matches SessionEventKindView::Done { status, .. } && status
            == DoneStatus::WaitingForInput,
        TaskRunStop::CallerCancelled => last matches SessionEventKindView::Done { status, .. } && status
            == DoneStatus::Cancelled,
        TaskRunStop::RuntimeStopping => last matches SessionEventKindView::Done { status, .. } && status
            == DoneStatus::Cancelled,
        TaskRunStop::Budget(_) => last is Error,
        TaskRunStop::Failed => last is Error,
    }
}

/// A stored ledger that the log confirms stands at the end of the log, behind a turn that
/// is over, and holds what that turn's own report says was spent; where nothing is on
/// record, nothing was spent. Every event stands in its place, in the ledger's session.
pub proof fn confirmed_ledgers_agree_with_the_log(c: CheckpointView, history: Seq<SessionEventView>)
    requires
        history_fault(c, history) is None,
    ensures
        ({
            let n = history.len() as int;
            let before = before_grants(c.image.report, c.grants, c.image.anchor);
            &&& before is Some
            &&& before->0.charged == c.image.report.charged
            &&& forall|i: int|
                0 <= i < n ==> (#[trigger] history[i]).seq == i && history[i].session_id
                    == c.image.report.identity.session
            &&& n == 0 ==> {
                &&& c.image.anchor is None
                &&& before->0.charged.steps == 0 && before->0.charged.model_requests == 0
                &&& before->0.charged.tool_calls == 0 && before->0.charged.corrections == 0
                &&& before->0.charged.input_tokens == 0 && before->0.charged.output_tokens == 0
                &&& before->0.charged.tool_output_bytes == 0
                &&& before->0.active == 0 && before->0.cleanup == 0
            }
            &&& n > 0 ==> {
                &&& n >= 2
                &&& c.image.anchor matches Some(anchor)
                &&& anchor.event == history[n - 1].event_id && anchor.seq == history[n - 1].seq
                    && anchor.turn == history[n - 1].turn_id
                &&& history[n - 1].kind is Done || history[n - 1].kind is Error
                &&& history[n - 2].turn_id == history[n - 1].turn_id
                &&& history[n - 2].kind matches SessionEventKindView::TaskRunReport { report }
                &&& ends_as_reported(history[n - 1].kind, report.stop)
                &&& report.budget.charged == before->0.charged
                &&& report.budget.usage == before->0.usage
                &&& report.budget.active == before->0.active
                &&& report.budget.limits == before->0.limits
                &&& report.budget.stop == before->0.stop
                &&& report.budget.identity == before->0.identity
                &&& report.budget.pending.len() == 0 && report.capabilities_drained
                &&& report.budget.run matches Some(run)
                &&& !run.open && run.turn == Some(history[n - 1].turn_id)
                &&& run.metrics.confirmed.model_requests == run.metrics.confirmed.model_results
                &&& run.metrics.confirmed.tool_calls == run.metrics.confirmed.tool_results
            }
        }),
{
    let n = history.len() as int;
    grants_keep_charges(c);
    assert forall|i: int| 0 <= i < n implies (#[trigger] history[i]).seq == i && history[i].session_id
        == c.image.report.identity.session by {
        assert(crate::budget::execution::address_holds(
            history,
            history[i],
            i,
            c.image.report.identity.session,
            0,
        ));
    }
}

proof fn grants_keep_charges(c: CheckpointView)
    ensures
        before_grants(c.image.report, c.grants, c.image.anchor) matches Some(before) ==> before.charged
            == c.image.report.charged,
    decreases c.grants.len(),
{
    if c.grants.len() > 0 {
        let last = c.grants.last();
        let back = crate::budget::vocabulary::ReportView {
            limits: last.old_limits,
            stop: last.old_stop,
            ..c.image.report
        };
        let earlier = CheckpointView {
            image: crate::budget::checkpoint::ImageView { report: back, ..c.image },
            grants: c.grants.drop_last(),
            ..c
        };
        grants_keep_charges(earlier);
    }
}

/// Claiming a ledger marks it and moves it on by one, and changes no account.
pub proof fn claims_change_no_account(base: CheckpointView, execution: Seq<char>)
    requires
        base.image.revision < u64::MAX,
    ensures
        ({
            let claim = claimed(base, execution);
            &&& claim.execution == Some(execution)
            &&& claim.image.revision == base.image.revision + 1
            &&& claim.image.report == base.image.report
            &&& claim.image.anchor == base.image.anchor
            &&& claim.image.next_id == base.image.next_id
            &&& claim.grants == base.grants
            &&& claim.recoveries == base.recoveries
        }),
{
}

/// What is recovered is the candidate itself, with the recovery on record.
pub proof fn recoveries_keep_the_candidate(
    candidate: CheckpointView,
    request: RecoveryRequestView,
    owner: Seq<char>,
)
    ensures
        ({
            let next = recovered(candidate, request, owner);
            &&& next.image == candidate.image
            &&& next.execution == candidate.execution
            &&& next.grants == candidate.grants
            &&& next.recoveries.len() == candidate.recoveries.len() + 1
            &&& next.recoveries.last().request == request
            &&& next.recoveries.last().ownership == owner
            &&& next.recoveries.last().report == candidate.image.report
        }),
{
}

/// A ledger is ready exactly where nothing holds it and the log confirms it; one that is
/// held is never ready, and only where the log has not moved is it said that nothing new
/// happened.
pub proof fn held_ledgers_are_never_ready(c: CheckpointView, history: Seq<SessionEventView>)
    ensures
        assessment(c, history) == Ok::<BudgetRecoveryAssessment, BudgetRecoveryError>(BudgetRecoveryAssessment::Ready)
            <==> c.is_quiescent() && history_fault(c, history) is None,
        assessment(c, history) == Ok::<BudgetRecoveryAssessment, BudgetRecoveryError>(
            BudgetRecoveryAssessment::FrozenNoNewEvents,
        ) <==> !c.is_quiescent() && match c.image.anchor {
            None => history.len() == 0,
            Some(anchor) => history.len() > 0 && anchor == history.last().cursor(),
        },
        assessment(c, history) == Ok::<BudgetRecoveryAssessment, BudgetRecoveryError>(
            BudgetRecoveryAssessment::FrozenClosedTailNeedsCandidate,
        ) ==> history.len() >= 2 && (history.last().kind is Done || history.last().kind is Error)
            && history[history.len() - 2].kind is TaskRunReport,
{
}

/// A question is taken for waiting only where the turn that asked it waits for input, its
/// run is over and reported so, and question, turn, session, task and agent are those of
/// that turn and of its ledger.
pub proof fn questions_belong_to_their_turn(
    report: AgentTurnReport,
    pending: PendingQuestionView,
    artifact_type: Option<Seq<char>>,
    task: LedgerView,
)
    requires
        matches_question(report, pending, artifact_type, task),
    ensures
        report.disposition == TurnDisposition::WaitingForInput,
        report.artifact is Some && artifact_type is Some,
        pending.turn_id == report.turn_id@,
        pending.session_id == report.session_id@ && pending.session_id == task.identity.session,
        pending.task_id == task.identity.task,
        pending.agent_key == task.identity.agent,
        pending.pending_question == report.final_text@,
        report.task_run_report matches Some(receipt) && receipt.stop == TaskRunStop::WaitingForInput
            && receipt.capabilities_drained && receipt@.budget.identity == task.identity,
{
}

} // verus!
