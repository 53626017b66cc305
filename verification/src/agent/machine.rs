//! The steps of a turn in their order: what is done next, and what follows from what came
//! of it. Whatever happens on the way, a turn that was let in goes on to its end: its
//! scopes are closed, its report and its terminal are tried, and its session is settled.

use crate::agent::driver::{
    after_attempt, after_binding, after_body, after_body_of, after_model, after_report, after_start,
    after_tools, before_cleanup, binds_as, binds_tools, body_intent, close_turn,
    confirms_report, is_after_attempt, is_after_scopes, model_finish_mode, report_attempt,
    run_agent_body, run_stop_of, starts_as, task_run_report, tool_finish_mode, turn_closes,
    unless_stopped,
    Binding, BodyEnd, CancelReason, ClosedTurn, IntentView, ResolvedIntent, StartStep,
    TurnCommitSummary,
};
use crate::agent::turn::{InvalidTurnFailure, TaskRunReportAttempt, TurnDisposition};
use crate::budget::model::BudgetError;
use crate::budget::vocabulary::{
    BudgetReport, TaskRunReport, TaskRunReportVersion, TaskRunReportView,
};
use crate::id::{SessionId, TurnId};
use crate::llm::failure::{ModelFinishMode, ModelRuntimeError, ModelTurnFailure};
use crate::record::Record;
use crate::session::error::SessionRuntimeError;
use crate::session::event::SessionEvent;
use crate::tool::failure::{ToolFinishMode, ToolRuntimeError, ToolTurnFailure};
use vstd::prelude::*;

verus! {

/// How far a turn has come, and what it carries.
#[allow(inconsistent_fields)]
pub enum Stage {
    /// The user's message is to be recorded.
    Starting,
    BindingModel,
    BindingTools { model: Binding<ModelRuntimeError> },
    /// The agent works.
    Working,
    /// It is known what the turn comes to, unless it is cancelled or stopped.
    Resolved { intent: ResolvedIntent },
    FinishingModel { intent: ResolvedIntent, partial: String },
    FinishingTools {
        intent: ResolvedIntent,
        partial: String,
        model: Option<ModelTurnFailure>,
    },
    /// Nothing works any more; the ledger makes its report.
    Cleaning { intent: ResolvedIntent },
    Reporting { intent: ResolvedIntent, receipt: TaskRunReport },
    Ending { intent: ResolvedIntent, attempt: TaskRunReportAttempt },
    Settling {
        intent: ResolvedIntent,
        attempt: TaskRunReportAttempt,
        terminal: Result<SessionEvent, SessionRuntimeError>,
    },
    Closed(Result<ClosedTurn, InvalidTurnFailure>),
}

/// What the host does next. A scope that was never bound has nothing to finish.
#[allow(inconsistent_fields)]
#[derive(Clone, Copy, Debug, PartialEq, Eq, Structural)]
pub enum TurnAction {
    AppendStart,
    BindModel,
    BindTools,
    RunAgent,
    /// Look whether the turn was cancelled or its budget stopped.
    Look,
    FinishModel { bound: bool, mode: ModelFinishMode },
    FinishTools { bound: bool, mode: ToolFinishMode },
    /// Begin the cleanup and have the ledger make its report.
    PrepareReport,
    AppendReport,
    AppendTerminal,
    Settle,
    Done,
}

/// What came of an action.
#[allow(inconsistent_fields)]
pub enum TurnEvent {
    Started {
        appended: Result<(), SessionRuntimeError>,
        budget: Result<(), BudgetError>,
        cancelled: bool,
    },
    ModelBound(Binding<ModelRuntimeError>),
    ToolsBound(Binding<ToolRuntimeError>),
    AgentEnded { end: BodyEnd, partial: String },
    Looked { partial: String, cancelled: bool, budget: Result<(), BudgetError> },
    ModelFinished { failure: Option<ModelTurnFailure>, cancelled: bool },
    ToolsFinished { failure: Option<ToolTurnFailure>, cancelled: bool },
    ReportPrepared {
        budget: Result<(), BudgetError>,
        prepared: Result<(), BudgetError>,
        report: BudgetReport,
        reason: CancelReason,
    },
    /// Nothing where the session is not the task's own, and no report was sent to it.
    Reported(Option<Result<SessionEvent, SessionRuntimeError>>),
    Ended(Result<SessionEvent, SessionRuntimeError>),
    Settled(Result<TurnCommitSummary, SessionRuntimeError>),
}

/// A turn on its way.
pub struct TurnMachine {
    pub session_id: SessionId,
    pub turn_id: TurnId,
    pub model_allowed: bool,
    pub tools_allowed: bool,
    /// The model scope is open.
    pub model_open: bool,
    /// The tool scope is open.
    pub tools_open: bool,
    pub stage: Stage,
}

impl Stage {
    /// How far a turn has come.
    pub open spec fn place(self) -> nat {
        match self {
            Stage::Starting => 0,
            Stage::BindingModel => 1,
            Stage::BindingTools { .. } => 2,
            Stage::Working => 3,
            Stage::Resolved { .. } => 4,
            Stage::FinishingModel { .. } => 5,
            Stage::FinishingTools { .. } => 6,
            Stage::Cleaning { .. } => 7,
            Stage::Reporting { .. } => 8,
            Stage::Ending { .. } => 9,
            Stage::Settling { .. } => 10,
            Stage::Closed(_) => 11,
        }
    }

    /// What the turn comes to, as far as it is known.
    pub open spec fn intent(self) -> Option<IntentView> {
        match self {
            Stage::Resolved { intent } => Some(intent@),
            Stage::FinishingModel { intent, .. } => Some(intent@),
            Stage::FinishingTools { intent, .. } => Some(intent@),
            Stage::Cleaning { intent } => Some(intent@),
            Stage::Reporting { intent, .. } => Some(intent@),
            Stage::Ending { intent, .. } => Some(intent@),
            Stage::Settling { intent, .. } => Some(intent@),
            _ => None,
        }
    }
}

impl TurnMachine {
    /// A scope is open only from its binding to its finish, and what the turn comes to
    /// is consistent.
    pub open spec fn wf(self) -> bool {
        &&& self.model_open ==> 2 <= self.stage.place() <= 5
        &&& self.tools_open ==> 3 <= self.stage.place() <= 6
        &&& self.stage.intent() matches Some(intent) ==> intent.wf()
    }

    /// What is done next.
    pub open spec fn next_action(self) -> TurnAction {
        match self.stage {
            Stage::Starting => TurnAction::AppendStart,
            Stage::BindingModel => TurnAction::BindModel,
            Stage::BindingTools { .. } => TurnAction::BindTools,
            Stage::Working => TurnAction::RunAgent,
            Stage::Resolved { .. } => TurnAction::Look,
            Stage::FinishingModel { intent, .. } => TurnAction::FinishModel {
                bound: self.model_open,
                mode: if intent@.is_successful() {
                    ModelFinishMode::Graceful
                } else {
                    ModelFinishMode::Cancel
                },
            },
            Stage::FinishingTools { intent, model, .. } => TurnAction::FinishTools {
                bound: self.tools_open,
                mode: if intent@.is_successful() && model is None {
                    ToolFinishMode::Graceful
                } else {
                    ToolFinishMode::Cancel
                },
            },
            Stage::Cleaning { .. } => TurnAction::PrepareReport,
            Stage::Reporting { .. } => TurnAction::AppendReport,
            Stage::Ending { .. } => TurnAction::AppendTerminal,
            Stage::Settling { .. } => TurnAction::Settle,
            Stage::Closed(_) => TurnAction::Done,
        }
    }

    /// Everything but the stage and the scopes stays.
    pub open spec fn same_turn(self, next: TurnMachine) -> bool {
        &&& next.session_id == self.session_id
        &&& next.turn_id == self.turn_id
        &&& next.model_allowed == self.model_allowed
        &&& next.tools_allowed == self.tools_allowed
    }
}

/// Once it is settled which model binding a turn has: tools are bound where the agent may
/// use them and the model did not fail, else the turn goes on without.
pub open spec fn goes_on_from_model(model: Binding<ModelRuntimeError>, tools_allowed: bool, stage: Stage) -> bool {
    if tools_allowed && (model is NotAllowed || model is Bound) {
        stage == (Stage::BindingTools { model })
    } else {
        goes_on_from_tools(model, Binding::NotAllowed, stage)
    }
}

/// Once both bindings are settled: the agent works, or the turn is resolved.
pub open spec fn goes_on_from_tools(
    model: Binding<ModelRuntimeError>,
    tools: Binding<ToolRuntimeError>,
    stage: Stage,
) -> bool {
    match stage {
        Stage::Working => binds_as(model, tools, None),
        Stage::Resolved { intent } => binds_as(model, tools, Some(intent)),
        _ => false,
    }
}

/// What a report attempt is, given what came of appending the report.
pub open spec fn attempts(
    receipt: TaskRunReport,
    appended: Option<Result<SessionEvent, SessionRuntimeError>>,
    session: Seq<char>,
    turn: Seq<char>,
    attempt: TaskRunReportAttempt,
) -> bool {
    match appended {
        None => attempt == (TaskRunReportAttempt::Rejected {
            report: receipt,
            error: BudgetError::IdentityMismatch,
        }),
        Some(Err(source)) => attempt == (TaskRunReportAttempt::Failed { report: receipt, source }),
        Some(Ok(event)) => attempt == if confirms_report(event@, session, turn, receipt@) {
            TaskRunReportAttempt::Committed { report: receipt, event }
        } else {
            TaskRunReportAttempt::Invalid { report: receipt, event }
        },
    }
}

/// The event is what the stage waits for.
pub open spec fn is_expected(stage: Stage, event: TurnEvent) -> bool {
    match (stage, event) {
        (Stage::Starting, TurnEvent::Started { .. }) => true,
        (Stage::BindingModel, TurnEvent::ModelBound(_)) => true,
        (Stage::BindingTools { .. }, TurnEvent::ToolsBound(_)) => true,
        (Stage::Working, TurnEvent::AgentEnded { .. }) => true,
        (Stage::Resolved { .. }, TurnEvent::Looked { .. }) => true,
        (Stage::FinishingModel { .. }, TurnEvent::ModelFinished { .. }) => true,
        (Stage::FinishingTools { .. }, TurnEvent::ToolsFinished { .. }) => true,
        (Stage::Cleaning { .. }, TurnEvent::ReportPrepared { .. }) => true,
        (Stage::Reporting { .. }, TurnEvent::Reported(_)) => true,
        (Stage::Ending { .. }, TurnEvent::Ended(_)) => true,
        (Stage::Settling { .. }, TurnEvent::Settled(_)) => true,
        _ => false,
    }
}

/// The beginning of a turn: its message is recorded and its scopes are bound.
pub open spec fn opens(m: TurnMachine, event: TurnEvent, n: TurnMachine) -> bool {
    match (m.stage, event) {
        (Stage::Starting, TurnEvent::Started { appended, budget, cancelled }) => {
            &&& n.model_open == m.model_open
            &&& n.tools_open == m.tools_open
            &&& match n.stage {
                Stage::Resolved { intent } => starts_as(
                    appended,
                    budget,
                    cancelled,
                    StartStep::Resolved(intent),
                ),
                Stage::BindingModel => m.model_allowed && starts_as(
                    appended,
                    budget,
                    cancelled,
                    StartStep::Bind,
                ),
                _ => !m.model_allowed && starts_as(appended, budget, cancelled, StartStep::Bind)
                    && goes_on_from_model(Binding::NotAllowed, m.tools_allowed, n.stage),
            }
        },
        (Stage::BindingModel, TurnEvent::ModelBound(model)) => {
            &&& n.model_open == (model is Bound)
            &&& n.tools_open == m.tools_open
            &&& goes_on_from_model(model, m.tools_allowed, n.stage)
        },
        (Stage::BindingTools { model }, TurnEvent::ToolsBound(tools)) => {
            &&& n.model_open == m.model_open
            &&& n.tools_open == (tools is Bound)
            &&& goes_on_from_tools(model, tools, n.stage)
        },
        (Stage::Working, TurnEvent::AgentEnded { end, partial }) => {
            &&& n.model_open == m.model_open
            &&& n.tools_open == m.tools_open
            &&& n.stage matches Stage::Resolved { intent }
            &&& intent@ == body_intent(end, partial@)
        },
        _ => false,
    }
}

/// The end of a turn: scopes are closed, then report, terminal and settlement follow.
pub open spec fn winds_up(m: TurnMachine, event: TurnEvent, n: TurnMachine) -> bool {
    match (m.stage, event) {
        (Stage::Resolved { intent: known }, TurnEvent::Looked { partial: text, cancelled, budget }) => {
            &&& n.model_open == m.model_open
            &&& n.tools_open == m.tools_open
            &&& n.stage matches Stage::FinishingModel { intent, partial }
            &&& intent@ == after_body_of(known@, text@, cancelled, budget)
            &&& partial == text
        },
        (
            Stage::FinishingModel { intent: known, partial: text },
            TurnEvent::ModelFinished { failure, cancelled },
        ) => {
            &&& !n.model_open
            &&& n.tools_open == m.tools_open
            &&& n.stage matches Stage::FinishingTools { intent, partial, model }
            &&& intent@ == known@.unless_cancelled(cancelled, text@)
            &&& partial == text
            &&& model == failure
        },
        (
            Stage::FinishingTools { intent: known, partial: text, model },
            TurnEvent::ToolsFinished { failure, cancelled },
        ) => {
            &&& n.model_open == m.model_open
            &&& !n.tools_open
            &&& n.stage matches Stage::Cleaning { intent }
            &&& is_after_scopes(
                intent@,
                known@.unless_cancelled(cancelled, text@),
                model,
                failure,
            )
        },
        (
            Stage::Cleaning { intent: known },
            TurnEvent::ReportPrepared { budget, prepared, report, reason },
        ) => {
            let stopped = if known@.disposition == TurnDisposition::Failed {
                known@
            } else {
                unless_stopped(known@, budget)
            };
            &&& n.model_open == m.model_open
            &&& n.tools_open == m.tools_open
            &&& n.stage matches Stage::Reporting { intent, receipt }
            &&& intent@ == unless_stopped(stopped, prepared)
            &&& receipt@ == (TaskRunReportView {
                version: TaskRunReportVersion::V1,
                budget: report@,
                stop: run_stop_of(report@, intent@.disposition, reason),
                capabilities_drained: report@.pending.len() == 0,
            })
        },
        (Stage::Reporting { intent: known, receipt }, TurnEvent::Reported(appended)) => {
            &&& n.model_open == m.model_open
            &&& n.tools_open == m.tools_open
            &&& n.stage matches Stage::Ending { intent, attempt }
            &&& attempts(receipt, appended, m.session_id@, m.turn_id@, attempt)
            &&& is_after_attempt(intent@, known@, attempt is Committed)
        },
        (Stage::Ending { intent: known, attempt: tried }, TurnEvent::Ended(appended)) => {
            &&& n.model_open == m.model_open
            &&& n.tools_open == m.tools_open
            &&& n.stage == (Stage::Settling { intent: known, attempt: tried, terminal: appended })
        },
        (Stage::Settling { intent, attempt, terminal }, TurnEvent::Settled(settled)) => {
            &&& n.model_open == m.model_open
            &&& n.tools_open == m.tools_open
            &&& n.stage matches Stage::Closed(closed)
            &&& turn_closes(
                closed,
                m.session_id@,
                m.turn_id@,
                intent@,
                attempt,
                terminal,
                settled,
            )
        },
        _ => false,
    }
}

/// What a turn becomes by an event. One that nobody waits for changes nothing.
pub open spec fn follows(m: TurnMachine, event: TurnEvent, n: TurnMachine) -> bool {
    if is_expected(m.stage, event) {
        m.same_turn(n) && (opens(m, event, n) || winds_up(m, event, n))
    } else {
        n == m
    }
}

fn without_tools(model: Binding<ModelRuntimeError>, tools: Binding<ToolRuntimeError>) -> (stage: Stage)
    ensures
        goes_on_from_tools(model, tools, stage),
        stage.intent() matches Some(intent) ==> intent.wf(),
        stage.place() == 3 || stage.place() == 4,
{
    match after_binding(model, tools) {
        Some(intent) => Stage::Resolved { intent },
        None => Stage::Working,
    }
}

fn with_model(model: Binding<ModelRuntimeError>, tools_allowed: bool) -> (stage: Stage)
    ensures
        goes_on_from_model(model, tools_allowed, stage),
        stage.intent() matches Some(intent) ==> intent.wf(),
        2 <= stage.place() <= 4,
{
    if binds_tools(&model, tools_allowed) {
        Stage::BindingTools { model }
    } else {
        without_tools(model, Binding::NotAllowed)
    }
}

impl TurnMachine {
    /// A turn that was just let in.
    pub fn new(session_id: SessionId, turn_id: TurnId, model_allowed: bool, tools_allowed: bool) -> (machine: Self)
        ensures
            machine == (TurnMachine {
                session_id,
                turn_id,
                model_allowed,
                tools_allowed,
                model_open: false,
                tools_open: false,
                stage: Stage::Starting,
            }),
            machine.wf(),
    {
        TurnMachine {
            session_id,
            turn_id,
            model_allowed,
            tools_allowed,
            model_open: false,
            tools_open: false,
            stage: Stage::Starting,
        }
    }

    /// What is done next.
    pub fn action(&self) -> (action: TurnAction)
        ensures
            action == self.next_action(),
    {
        match &self.stage {
            Stage::Starting => TurnAction::AppendStart,
            Stage::BindingModel => TurnAction::BindModel,
            Stage::BindingTools { .. } => TurnAction::BindTools,
            Stage::Working => TurnAction::RunAgent,
            Stage::Resolved { .. } => TurnAction::Look,
            Stage::FinishingModel { intent, .. } => TurnAction::FinishModel {
                bound: self.model_open,
                mode: model_finish_mode(intent),
            },
            Stage::FinishingTools { intent, model, .. } => TurnAction::FinishTools {
                bound: self.tools_open,
                mode: tool_finish_mode(intent, model.is_none()),
            },
            Stage::Cleaning { .. } => TurnAction::PrepareReport,
            Stage::Reporting { .. } => TurnAction::AppendReport,
            Stage::Ending { .. } => TurnAction::AppendTerminal,
            Stage::Settling { .. } => TurnAction::Settle,
            Stage::Closed(_) => TurnAction::Done,
        }
    }

    /// Takes in what came of an action.
    pub fn advance(self, event: TurnEvent) -> (next: Self)
        requires
            self.wf(),
        ensures
            next.wf(),
            follows(self, event, next),
    {
        let ghost before = self;
        let TurnMachine {
            session_id,
            turn_id,
            model_allowed,
            tools_allowed,
            model_open,
            tools_open,
            stage,
        } = self;
        let mut model_open: bool = model_open;
        let mut tools_open: bool = tools_open;
        let stage = match (stage, event) {
            (Stage::Starting, TurnEvent::Started { appended, budget, cancelled }) => {
                match after_start(appended, budget, cancelled) {
                    StartStep::Resolved(intent) => Stage::Resolved { intent },
                    StartStep::Bind => if model_allowed {
                        Stage::BindingModel
                    } else {
                        with_model(Binding::NotAllowed, tools_allowed)
                    },
                }
            },
            (Stage::BindingModel, TurnEvent::ModelBound(model)) => {
                model_open = matches!(model, Binding::Bound);
                with_model(model, tools_allowed)
            },
            (Stage::BindingTools { model }, TurnEvent::ToolsBound(tools)) => {
                tools_open = matches!(tools, Binding::Bound);
                without_tools(model, tools)
            },
            (Stage::Working, TurnEvent::AgentEnded { end, partial }) => Stage::Resolved {
                intent: run_agent_body(end, partial),
            },
            (Stage::Resolved { intent }, TurnEvent::Looked { partial, cancelled, budget }) => {
                let intent = after_body(intent, &partial, cancelled, budget);
                Stage::FinishingModel { intent, partial }
            },
            (
                Stage::FinishingModel { intent, partial },
                TurnEvent::ModelFinished { failure, cancelled },
            ) => {
                model_open = false;
                let intent = after_model(intent, &partial, cancelled);
                Stage::FinishingTools { intent, partial, model: failure }
            },
            (
                Stage::FinishingTools { intent, partial, model },
                TurnEvent::ToolsFinished { failure, cancelled },
            ) => {
                tools_open = false;
                Stage::Cleaning { intent: after_tools(intent, &partial, cancelled, model, failure) }
            },
            (
                Stage::Cleaning { intent },
                TurnEvent::ReportPrepared { budget, prepared, report, reason },
            ) => {
                let intent = after_report(before_cleanup(intent, budget), prepared);
                let receipt = task_run_report(report, intent.disposition, reason);
                Stage::Reporting { intent, receipt }
            },
            (Stage::Reporting { intent, receipt }, TurnEvent::Reported(appended)) => {
                let attempt = report_attempt(receipt, appended, &session_id, &turn_id);
                let intent = after_attempt(intent, &attempt);
                Stage::Ending { intent, attempt }
            },
            (Stage::Ending { intent, attempt }, TurnEvent::Ended(terminal)) => Stage::Settling {
                intent,
                attempt,
                terminal,
            },
            (Stage::Settling { intent, attempt, terminal }, TurnEvent::Settled(settled)) => {
                Stage::Closed(
                    close_turn(
                        session_id.duplicate(),
                        turn_id.duplicate(),
                        intent,
                        attempt,
                        terminal,
                        settled,
                    ),
                )
            },
            (stage, _) => stage,
        };
        TurnMachine {
            session_id,
            turn_id,
            model_allowed,
            tools_allowed,
            model_open,
            tools_open,
            stage,
        }
    }
}

/// A turn that takes in what it waits for comes further, so that at most eleven events
/// bring any turn to its end.
pub proof fn turns_come_to_an_end(m: TurnMachine, event: TurnEvent, n: TurnMachine)
    requires
        follows(m, event, n),
        is_expected(m.stage, event),
    ensures
        m.stage.place() < n.stage.place() <= 11,
        n.stage is Closed ==> m.stage is Settling,
{
}

/// A session is settled only after the report and the terminal were tried, and those are
/// tried only when no scope of the turn is open any more.
pub proof fn nothing_is_open_when_a_turn_ends(m: TurnMachine)
    requires
        m.wf(),
        m.next_action() == TurnAction::PrepareReport || m.next_action()
            == TurnAction::AppendReport || m.next_action() == TurnAction::AppendTerminal
            || m.next_action() == TurnAction::Settle || m.next_action() == TurnAction::Done,
    ensures
        !m.model_open && !m.tools_open,
        m.next_action() == TurnAction::Settle ==> m.stage is Settling,
{
}

/// A turn that failed never turns out well after all: from the end of its work on, what
/// happens can only make it fail or be cancelled.
pub proof fn failed_turns_stay_failed(m: TurnMachine, event: TurnEvent, n: TurnMachine)
    requires
        m.wf(),
        follows(m, event, n),
        m.stage.intent() is Some,
        m.stage.intent()->0.disposition == TurnDisposition::Failed,
        n.stage.intent() is Some,
    ensures
        n.stage.intent()->0.disposition == TurnDisposition::Failed,
{
}

} // verus!
