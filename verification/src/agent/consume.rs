//! What an agent may charge to its task's budget by itself.

use crate::budget::ledger::{BudgetScope, TaskBudget};
use crate::budget::model::BudgetError;
use crate::budget::promises::cancelling_undoes_the_hold;
use crate::budget::vocabulary::{BudgetAmounts, BudgetRequest, TokenBoundEvidence};
use crate::time::Duration;
use vstd::prelude::*;

verus! {

/// A request for one attempt, and nothing that could be given back.
pub open spec fn one_attempt(steps: u64, corrections: u64) -> BudgetRequest {
    BudgetRequest {
        amounts: BudgetAmounts { steps, corrections, ..BudgetAmounts::none() },
        input_tokens: TokenBoundEvidence::Estimate,
        output_tokens: TokenBoundEvidence::Estimate,
    }
}

/// Charges the request's attempts for good and holds nothing. The clock is sampled
/// twice.
fn consume(
    scope: &BudgetScope,
    budget: &mut TaskBudget,
    request: BudgetRequest,
    now: Duration,
    later: Duration,
) -> (result: Result<(), BudgetError>)
    requires
        old(budget).wf(),
    ensures
        final(budget).wf(),
        match old(budget)@.ticked(now.length()).reserve_fault(scope.run(), request) {
            Some(fault) => {
                &&& result == Err::<(), BudgetError>(fault)
                &&& final(budget)@ == old(budget)@.requested(scope.run(), request, now.length())
            },
            None => {
                &&& result is Ok
                &&& final(budget)@ == old(budget)@.requested(
                    scope.run(),
                    request,
                    now.length(),
                ).cancelled((old(budget)@.next_id + 1) as u64, later.length())
                &&& final(budget)@.reserved == old(budget)@.reserved
                &&& final(budget)@.pending == old(budget)@.pending
            },
        },
{
    let ghost before = budget@;
    let reservation = match scope.reserve(budget, request, now) {
        Ok(reservation) => reservation,
        Err(e) => {
            return Err(e);
        },
    };
    proof {
        cancelling_undoes_the_hold(
            before,
            scope.run(),
            request,
            now.length(),
            later.length(),
        );
    }
    reservation.cancel_before_start(budget, later)
}

/// Charges one step.
pub fn consume_step(scope: &BudgetScope, budget: &mut TaskBudget, now: Duration, later: Duration) -> (result:
    Result<(), BudgetError>)
    requires
        old(budget).wf(),
    ensures
        final(budget).wf(),
        match old(budget)@.ticked(now.length()).reserve_fault(scope.run(), one_attempt(1, 0)) {
            Some(fault) => {
                &&& result == Err::<(), BudgetError>(fault)
                &&& final(budget)@ == old(budget)@.requested(
                    scope.run(),
                    one_attempt(1, 0),
                    now.length(),
                )
            },
            None => {
                &&& result is Ok
                &&& final(budget)@ == old(budget)@.requested(
                    scope.run(),
                    one_attempt(1, 0),
                    now.length(),
                ).cancelled((old(budget)@.next_id + 1) as u64, later.length())
                &&& final(budget)@.reserved == old(budget)@.reserved
                &&& final(budget)@.pending == old(budget)@.pending
            },
        },
{
    let amounts = BudgetAmounts { steps: 1, ..BudgetAmounts::zero() };
    consume(scope, budget, BudgetRequest::new(amounts), now, later)
}

/// Charges one correction.
pub fn consume_correction(scope: &BudgetScope, budget: &mut TaskBudget, now: Duration, later: Duration) -> (result:
    Result<(), BudgetError>)
    requires
        old(budget).wf(),
    ensures
        final(budget).wf(),
        match old(budget)@.ticked(now.length()).reserve_fault(scope.run(), one_attempt(0, 1)) {
            Some(fault) => {
                &&& result == Err::<(), BudgetError>(fault)
                &&& final(budget)@ == old(budget)@.requested(
                    scope.run(),
                    one_attempt(0, 1),
                    now.length(),
                )
            },
            None => {
                &&& result is Ok
                &&& final(budget)@ == old(budget)@.requested(
                    scope.run(),
                    one_attempt(0, 1),
                    now.length(),
                ).cancelled((old(budget)@.next_id + 1) as u64, later.length())
                &&& final(budget)@.reserved == old(budget)@.reserved
                &&& final(budget)@.pending == old(budget)@.pending
            },
        },
{
    let amounts = BudgetAmounts { corrections: 1, ..BudgetAmounts::zero() };
    consume(scope, budget, BudgetRequest::new(amounts), now, later)
}

} // verus!
