//! The budget that a turn's capability works under.

use crate::budget::ledger::{BudgetRun, BudgetScope, TaskBudget};
use crate::budget::model::{BudgetError, LedgerView};
use crate::budget::vocabulary::{
    BudgetAmounts, BudgetIdentity, BudgetLimits, BudgetStopReason, IdentityView, TokenBudgetMode,
};
use crate::id::{SessionId, TaskId, TurnId};
use crate::time::Duration;
use vstd::prelude::*;

verus! {

/// Why a turn cannot work under a run, if it cannot: the run must be active and bound to
/// a turn.
pub open spec fn bind_fault(ledger: LedgerView, run: u64, now: nat) -> Option<BudgetError> {
    let t = ledger.ticked(now);
    if t.active_fault(run) is Some {
        t.active_fault(run)
    } else if t.run_fault(run) is Some {
        t.run_fault(run)
    } else if t.run->0.report.turn is None {
        Some(BudgetError::IdentityMismatch)
    } else {
        None
    }
}

/// The ledger after a turn tried to bind to a run. A run without a turn is stopped.
pub open spec fn after_binding(ledger: LedgerView, run: u64, now: nat) -> LedgerView {
    let t = ledger.ticked(now);
    if t.active_fault(run) is None && t.run_fault(run) is None && t.run->0.report.turn is None {
        t.stopped_with(run, BudgetStopReason::IdentityMismatch, now)
    } else {
        t
    }
}

/// Binds a turn to a budget that its caller supplies: it must be active and bound to a
/// turn.
pub fn bind_budget(scope: &BudgetScope, budget: &mut TaskBudget, now: Duration) -> (result: Result<(), BudgetError>)
    requires
        old(budget).wf(),
    ensures
        final(budget).wf(),
        match bind_fault(old(budget)@, scope.run(), now.length()) {
            Some(e) => result == Err::<(), BudgetError>(e),
            None => result is Ok,
        },
        final(budget)@ == after_binding(old(budget)@, scope.run(), now.length()),
{
    match scope.check_active(budget, now) {
        Err(e) => {
            return Err(e);
        },
        Ok(_) => {},
    }
    match scope.turn_id(budget) {
        Err(e) => Err(e),
        Ok(Some(_)) => Ok(()),
        Ok(None) => {
            let _ = scope.stop_with(budget, BudgetStopReason::IdentityMismatch, now);
            Err(BudgetError::IdentityMismatch)
        },
    }
}

/// A ledger with the usual limits whose first run has begun.
pub open spec fn is_own_ledger(ledger: LedgerView, identity: IdentityView, turn: Seq<char>, now: nat) -> bool {
    &&& identity.is_named()
    &&& exists|limits: BudgetLimits| #[trigger]
        is_usual(limits) && ledger == LedgerView::fresh(
            identity,
            limits@.meet(limits@),
            TokenBudgetMode::Soft,
            now,
        ).begun(Some(turn), limits@, now, now)
}

/// A budget of the turn's own, with the usual limits. The host makes the identities up;
/// only an identity that names nothing is refused.
pub fn own_budget(
    agent_key: String,
    task_id: TaskId,
    session_id: SessionId,
    turn_id: TurnId,
    now: Duration,
) -> (result: Result<(TaskBudget, BudgetRun), BudgetError>)
    ensures
        match result {
            Ok((budget, run)) => budget.wf() && !run.is_finished() && run.run_id() == 1
                && is_own_ledger(
                budget@,
                IdentityView { task: task_id@, session: session_id@, agent: agent_key@ },
                turn_id@,
                now.length(),
            ),
            Err(e) => e == BudgetError::InvalidIdentity && !(IdentityView {
                task: task_id@,
                session: session_id@,
                agent: agent_key@,
            }).is_named(),
        },
{
    let limits = BudgetLimits::default();
    assert(is_usual(limits));
    let identity = BudgetIdentity {
        task_id,
        session_id,
        agent_key,
    };
    match TaskBudget::new(identity, limits, limits, TokenBudgetMode::Soft, now) {
        Err(e) => Err(e),
        Ok(budget) => {
            let mut budget = budget;
            match budget.begin_run(turn_id, limits, now, now) {
                Err(e) => Err(e),
                Ok(run) => Ok((budget, run)),
            }
        },
    }
}

/// The limits of a budget that nobody set.
pub open spec fn is_usual(limits: BudgetLimits) -> bool {
    &&& limits.resources == (BudgetAmounts {
        steps: 128,
        model_requests: 128,
        tool_calls: 128,
        corrections: 32,
        input_tokens: 4_000_000,
        output_tokens: 1_000_000,
        tool_output_bytes: 16_777_216,
    })
    &&& limits.active_time.length() == 600_000_000_000
}

} // verus!
