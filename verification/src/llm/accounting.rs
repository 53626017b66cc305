//! What a model call may cost and what it did cost.

use crate::budget::binding::{bind_budget, is_own_ledger, own_budget};
use crate::budget::ledger::{BudgetReservation, BudgetRun, BudgetScope, TaskBudget};
use crate::budget::model::BudgetError;
use crate::budget::vocabulary::{
    BudgetAmounts, BudgetRequest, BudgetStopReason, BudgetUsage, IdentityView, TokenBoundEvidence, UsageValue,
};
use crate::generation::TokenUsage;
use crate::id::{SessionId, TaskId, TurnId};
use crate::llm::failure::{ModelGatewayError, ModelRuntimeError};
use crate::record::Record;
use crate::session::event::SessionEvent;
use crate::time::Duration;
use vstd::prelude::*;

verus! {

/// What a call is expected to cost, and how well that is known.
#[derive(Clone, Copy, Debug, PartialEq, Eq, Structural)]
pub struct ModelTokenEstimate {
    pub input_tokens: u64,
    pub output_tokens: u64,
    pub input_evidence: TokenBoundEvidence,
    pub output_evidence: TokenBoundEvidence,
}

/// The budget that the calls of a turn work under.
#[derive(Debug)]
pub struct TurnBudget {
    pub scope: BudgetScope,
    /// The caller supplied the budget.
    pub explicit: bool,
    pub expected_turn: Option<TurnId>,
    pub owned_run: Option<BudgetRun>,
}

impl TurnBudget {
    /// Binds a budget that the caller supplies.
    pub fn bound(scope: BudgetScope, budget: &mut TaskBudget, now: Duration) -> (result: Result<Self, BudgetError>)
        requires
            old(budget).wf(),
        ensures
            final(budget).wf(),
            ({
                let t = old(budget)@.ticked(now.length());
                if let Some(e) = t.active_fault(scope.run()) {
                    result == Err::<Self, BudgetError>(e) && final(budget)@ == t
                } else if let Some(e) = t.run_fault(scope.run()) {
                    result == Err::<Self, BudgetError>(e) && final(budget)@ == t
                } else if t.run->0.report.turn is None {
                    &&& result == Err::<Self, BudgetError>(BudgetError::IdentityMismatch)
                    &&& final(budget)@ == t.stopped_with(
                        scope.run(),
                        BudgetStopReason::IdentityMismatch,
                        now.length(),
                    )
                } else {
                    &&& final(budget)@ == t
                    &&& result matches Ok(turn)
                    &&& turn.scope == scope
                    &&& turn.explicit
                    &&& turn.expected_turn is Some
                    &&& turn.expected_turn->0@ == t.run->0.report.turn->0
                    &&& turn.owned_run is None
                }
            }),
    {
        match bind_budget(&scope, budget, now) {
            Err(e) => Err(e),
            Ok(_) => match scope.turn_id(budget) {
                Err(e) => Err(e),
                Ok(expected_turn) => Ok(
                    TurnBudget { scope, explicit: true, expected_turn, owned_run: None },
                ),
            },
        }
    }

    /// A budget of the turn's own, with the usual limits.
    pub fn owned(task_id: TaskId, session_id: SessionId, turn_id: TurnId, now: Duration) -> (result: Result<
        (Self, TaskBudget),
        BudgetError,
    >)
        ensures
            match result {
                Ok((turn, budget)) => {
                    &&& budget.wf()
                    &&& !turn.explicit
                    &&& turn.expected_turn is None
                    &&& turn.owned_run is Some
                    &&& turn.owned_run->0.run_id() == 1
                    &&& !turn.owned_run->0.is_finished()
                    &&& turn.scope.run() == 1
                    &&& is_own_ledger(
                        budget@,
                        IdentityView {
                            task: task_id@,
                            session: session_id@,
                            agent: "canonical-model-runtime"@,
                        },
                        turn_id@,
                        now.length(),
                    )
                },
                Err(e) => e == BudgetError::InvalidIdentity && !(IdentityView {
                    task: task_id@,
                    session: session_id@,
                    agent: "canonical-model-runtime"@,
                }).is_named(),
            },
    {
        match own_budget(
            "canonical-model-runtime".to_owned(),
            task_id,
            session_id,
            turn_id,
            now,
        ) {
            Err(e) => Err(e),
            Ok((budget, run)) => {
                let scope = run.scope();
                Ok(
                    (
                        TurnBudget { scope, explicit: false, expected_turn: None, owned_run: Some(run) },
                        budget,
                    ),
                )
            },
        }
    }

    /// Whether a call may be made, and whether it names the task that the budget belongs to.
    pub fn check_context(&self, budget: &mut TaskBudget, context_task: Option<&TaskId>, now: Duration) -> (result: Result<
        (),
        BudgetError,
    >)
        requires
            old(budget).wf(),
        ensures
            final(budget).wf(),
            ({
                let t = old(budget)@.ticked(now.length());
                if let Some(e) = t.active_fault(self.scope.run()) {
                    result == Err::<(), BudgetError>(e) && final(budget)@ == t
                } else if self.explicit && context_task is Some && context_task->0@
                    != t.identity.task {
                    &&& result == Err::<(), BudgetError>(BudgetError::IdentityMismatch)
                    &&& final(budget)@ == t.stopped_with(
                        self.scope.run(),
                        BudgetStopReason::IdentityMismatch,
                        now.length(),
                    )
                } else {
                    result is Ok && final(budget)@ == t
                }
            }),
    {
        match self.scope.check_active(budget, now) {
            Err(e) => {
                return Err(e);
            },
            Ok(_) => {},
        }
        if self.explicit {
            match context_task {
                Some(task) => {
                    if !task.is_same(&budget.identity().task_id) {
                        let _ = self.scope.stop_with(budget, BudgetStopReason::IdentityMismatch, now);
                        return Err(BudgetError::IdentityMismatch);
                    }
                },
                None => {},
            }
        }
        Ok(())
    }

    /// Whether an event belongs to the bound session and turn.
    pub open spec fn owns(&self, session: Seq<char>, event: crate::session::event::SessionEventView) -> bool {
        !self.explicit || (event.session_id == session && self.expected_turn is Some
            && self.expected_turn->0@ == event.turn_id)
    }

    /// Whether a recorded event belongs to the bound session and turn. One that does not
    /// stops the run.
    pub fn check_event(&self, budget: &mut TaskBudget, event: &SessionEvent, now: Duration) -> (result: Result<
        (),
        BudgetError,
    >)
        requires
            old(budget).wf(),
        ensures
            final(budget).wf(),
            if self.owns(old(budget)@.identity.session, event@) {
                result is Ok && final(budget)@ == old(budget)@
            } else {
                &&& result == Err::<(), BudgetError>(BudgetError::IdentityMismatch)
                &&& final(budget)@ == old(budget)@.stopped_with(
                    self.scope.run(),
                    BudgetStopReason::IdentityMismatch,
                    now.length(),
                )
            },
    {
        if self.explicit {
            let same_turn: bool = match &self.expected_turn {
                Some(turn) => turn.is_same(&event.turn_id),
                None => false,
            };
            if !event.session_id.is_same(&budget.identity().session_id) || !same_turn {
                let _ = self.scope.stop_with(budget, BudgetStopReason::IdentityMismatch, now);
                return Err(BudgetError::IdentityMismatch);
            }
        }
        Ok(())
    }

    /// Finishes a run of the turn's own; one that could not be finished stays.
    pub fn finish_owned(&mut self, budget: &mut TaskBudget, now: Duration) -> (result: Result<(), BudgetError>)
        requires
            old(budget).wf(),
        ensures
            final(budget).wf(),
            final(self).scope == old(self).scope,
            final(self).explicit == old(self).explicit,
            final(self).expected_turn == old(self).expected_turn,
            match old(self).owned_run {
                None => result is Ok && final(budget)@ == old(budget)@ && final(self).owned_run is None,
                Some(run) => {
                    &&& final(budget)@ == old(budget)@.finished(run.run_id(), now.length())
                    &&& match result {
                        Ok(_) => old(budget)@.finish_fault(run.run_id(), now.length()) is None
                            && final(self).owned_run is None,
                        Err(e) => {
                            &&& old(budget)@.finish_fault(run.run_id(), now.length()) == Some(e)
                            &&& final(self).owned_run matches Some(kept)
                            &&& kept.run_id() == run.run_id()
                            &&& kept.is_finished() == run.is_finished()
                        },
                    }
                },
            },
    {
        match &mut self.owned_run {
            Some(run) => match run.finish(budget, now) {
                Err(e) => {
                    return Err(e);
                },
                Ok(_) => {},
            },
            None => {},
        }
        self.owned_run = None;
        Ok(())
    }
}

/// A soft guess: the bytes of the request and 1024 tokens for the provider's framing,
/// and the caller's cap on output or 4096 tokens. Neither is a hard bound.
pub struct SoftModelBudgetEstimator;

impl SoftModelBudgetEstimator {
    /// The guess for a request that takes so many serialized bytes.
    pub fn estimate(&self, request_bytes: u64, max_tokens: Option<u32>) -> (result: Result<
        ModelTokenEstimate,
        BudgetError,
    >)
        ensures
            result == if request_bytes + 1024 > u64::MAX {
                Err::<ModelTokenEstimate, BudgetError>(
                    BudgetError::Stopped(BudgetStopReason::AccountingOverflow),
                )
            } else {
                Ok(
                    ModelTokenEstimate {
                        input_tokens: (request_bytes + 1024) as u64,
                        output_tokens: match max_tokens {
                            None => 4096,
                            Some(0) => 1,
                            Some(n) => n as u64,
                        },
                        input_evidence: TokenBoundEvidence::Estimate,
                        output_evidence: TokenBoundEvidence::Estimate,
                    },
                )
            },
    {
        let input_tokens: u64 = match request_bytes.checked_add(1024) {
            Some(n) => n,
            None => {
                return Err(BudgetError::Stopped(BudgetStopReason::AccountingOverflow));
            },
        };
        let output_tokens: u64 = match max_tokens {
            None => 4096,
            Some(0) => 1,
            Some(n) => n as u64,
        };
        Ok(
            ModelTokenEstimate {
                input_tokens,
                output_tokens,
                input_evidence: TokenBoundEvidence::Estimate,
                output_evidence: TokenBoundEvidence::Estimate,
            },
        )
    }
}

/// What asking the estimator came to.
#[derive(Clone, Copy, Debug, PartialEq, Eq)]
pub enum EstimateAnswer {
    Estimated(ModelTokenEstimate),
    Refused(BudgetError),
    Panicked,
}

/// What one call reserves.
pub open spec fn call_reserves(estimate: ModelTokenEstimate) -> BudgetRequest {
    BudgetRequest {
        amounts: BudgetAmounts {
            steps: 1,
            model_requests: 1,
            tool_calls: 0,
            corrections: 0,
            input_tokens: estimate.input_tokens,
            output_tokens: estimate.output_tokens,
            tool_output_bytes: 0,
        },
        input_tokens: estimate.input_evidence,
        output_tokens: estimate.output_evidence,
    }
}

/// What a call reserves, from what the estimator said. An estimator that gives no
/// estimate stops the run.
pub fn request_estimate(turn: &TurnBudget, budget: &mut TaskBudget, answer: EstimateAnswer, now: Duration) -> (result: Result<
    BudgetRequest,
    ModelGatewayError,
>)
    requires
        old(budget).wf(),
    ensures
        final(budget).wf(),
        match answer {
            EstimateAnswer::Estimated(estimate) => {
                &&& result == Ok::<BudgetRequest, ModelGatewayError>(call_reserves(estimate))
                &&& final(budget)@ == old(budget)@
            },
            _ => final(budget)@ == old(budget)@.stopped_with(
                turn.scope.run(),
                BudgetStopReason::InvalidRequest,
                now.length(),
            ),
        },
        answer matches EstimateAnswer::Refused(e) ==> result == Err::<
            BudgetRequest,
            ModelGatewayError,
        >(ModelGatewayError::Runtime(ModelRuntimeError::Budget(e))),
        answer is Panicked ==> (result matches Err(ModelGatewayError::Internal { code, message })
            && code@ == "model_budget_estimator_panicked"@ && message@
            == "Trusted model budget estimator panicked"@),
{
    match answer {
        EstimateAnswer::Estimated(estimate) => Ok(
            BudgetRequest::new(
                BudgetAmounts {
                    steps: 1,
                    model_requests: 1,
                    tool_calls: 0,
                    corrections: 0,
                    input_tokens: estimate.input_tokens,
                    output_tokens: estimate.output_tokens,
                    tool_output_bytes: 0,
                },
            ).with_token_evidence(estimate.input_evidence, estimate.output_evidence),
        ),
        EstimateAnswer::Refused(error) => {
            let _ = turn.scope.stop_with(budget, BudgetStopReason::InvalidRequest, now);
            Err(ModelGatewayError::Runtime(ModelRuntimeError::Budget(error)))
        },
        EstimateAnswer::Panicked => {
            let _ = turn.scope.stop_with(budget, BudgetStopReason::InvalidRequest, now);
            Err(
                ModelGatewayError::Internal {
                    code: "model_budget_estimator_panicked".to_owned(),
                    message: "Trusted model budget estimator panicked".to_owned(),
                },
            )
        },
    }
}

/// The account of one call.
#[derive(Debug)]
pub struct JobBudget {
    pub reservation: Option<BudgetReservation>,
    pub started: bool,
    pub usage: BudgetUsage,
}

/// Tokens as far as the provider counted them.
pub open spec fn counted_tokens(tokens: Option<u64>) -> UsageValue {
    match tokens {
        Some(n) => UsageValue::Actual(n),
        None => UsageValue::Unknown,
    }
}

fn tokens_of(tokens: Option<u64>) -> (usage: UsageValue)
    ensures
        usage == counted_tokens(tokens),
{
    match tokens {
        Some(n) => UsageValue::Actual(n),
        None => UsageValue::Unknown,
    }
}

impl JobBudget {
    pub fn new(reservation: BudgetReservation) -> (account: Self)
        ensures
            account == (JobBudget {
                reservation: Some(reservation),
                started: false,
                usage: BudgetUsage {
                    input_tokens: UsageValue::Unknown,
                    output_tokens: UsageValue::Unknown,
                    tool_output_bytes: UsageValue::Actual(0),
                },
            }),
    {
        JobBudget {
            reservation: Some(reservation),
            started: false,
            usage: BudgetUsage {
                input_tokens: UsageValue::Unknown,
                output_tokens: UsageValue::Unknown,
                tool_output_bytes: UsageValue::Actual(0),
            },
        }
    }

    /// Charges the start of a call.
    pub fn start(&mut self, budget: &mut TaskBudget, now: Duration) -> (result: Result<(), BudgetError>)
        requires
            old(budget).wf(),
        ensures
            final(budget).wf(),
            *final(self) == (JobBudget {
                started: old(self).started || result is Ok,
                ..*old(self)
            }),
            match old(self).reservation {
                None => result == Err::<(), BudgetError>(BudgetError::ReservationMissing)
                    && final(budget)@ == old(budget)@,
                Some(held) => {
                    &&& final(budget)@ == old(budget)@.started(
                        held.run(),
                        held.reservation_id(),
                        now.length(),
                    )
                    &&& match result {
                        Ok(_) => old(budget)@.ticked(now.length()).start_fault(
                            held.run(),
                            held.reservation_id(),
                        ) is None,
                        Err(e) => old(budget)@.ticked(now.length()).start_fault(
                            held.run(),
                            held.reservation_id(),
                        ) == Some(e),
                    }
                },
            },
    {
        match &mut self.reservation {
            Some(reservation) => match reservation.mark_started(budget, now) {
                Err(e) => {
                    return Err(e);
                },
                Ok(_) => {},
            },
            None => {
                return Err(BudgetError::ReservationMissing);
            },
        }
        self.started = true;
        Ok(())
    }

    /// What the provider said the call took.
    pub fn observe(&mut self, usage: &TokenUsage)
        ensures
            *final(self) == (JobBudget {
                usage: BudgetUsage {
                    input_tokens: counted_tokens(usage.input_tokens),
                    output_tokens: counted_tokens(usage.output_tokens),
                    ..old(self).usage
                },
                ..*old(self)
            }),
    {
        self.usage.input_tokens = tokens_of(usage.input_tokens);
        self.usage.output_tokens = tokens_of(usage.output_tokens);
    }

    /// Settles the account, once. What was never started gives its hold back; what was
    /// started and not counted keeps all of it.
    /// A reservation that cannot be resolved is abandoned.
    pub fn settle(&mut self, budget: &mut TaskBudget, now: Duration) -> (result: Result<(), BudgetError>)
        requires
            old(budget).wf(),
        ensures
            final(budget).wf(),
            *final(self) == (JobBudget { reservation: None, ..*old(self) }),
            match old(self).reservation {
                None => result is Ok && final(budget)@ == old(budget)@,
                Some(held) => if old(self).started {
                    &&& final(budget)@ == old(budget)@.settled_for_good(
                        held.reservation_id(),
                        old(self).usage,
                        now.length(),
                    )
                    &&& match result {
                        Ok(_) => old(budget)@.settle_fault(
                            held.reservation_id(),
                            old(self).usage,
                            now.length(),
                        ) is None,
                        Err(e) => old(budget)@.settle_fault(
                            held.reservation_id(),
                            old(self).usage,
                            now.length(),
                        ) == Some(e),
                    }
                } else {
                    &&& final(budget)@ == old(budget)@.cancelled_for_good(
                        held.reservation_id(),
                        now.length(),
                    )
                    &&& match result {
                        Ok(_) => old(budget)@.cancel_fault(held.reservation_id(), now.length())
                            is None,
                        Err(e) => old(budget)@.cancel_fault(held.reservation_id(), now.length())
                            == Some(e),
                    }
                },
            },
    {
        match self.reservation.take() {
            None => Ok(()),
            Some(held) => {
                if self.started {
                    held.settle(budget, self.usage, now)
                } else {
                    held.cancel_before_start(budget, now)
                }
            },
        }
    }
}

} // verus!
