//! A turn's access to the tools: what it may call, and what its calls are charged to.

use crate::budget::binding::{after_binding, bind_budget, bind_fault, is_own_ledger, own_budget};
use crate::budget::ledger::{BudgetRun, BudgetScope, TaskBudget};
use crate::budget::model::BudgetError;
use crate::budget::vocabulary::IdentityView;
use crate::id::{SessionId, TaskId, TurnId};
use crate::lifecycle::LifecycleState;
use crate::time::Duration;
use crate::tool::control::RuntimeControl;
use crate::tool::failure::ToolRuntimeError;
use crate::tool::registry::{
    granted_to, granted_tools, schemas_of, turn_schemas, ExpandedGrant, ToolEntry,
};
use crate::tool::vocabulary::{ToolCaller, ToolSchema};
use vstd::prelude::*;

verus! {

/// A turn that may call tools.
#[derive(Debug, PartialEq, Eq)]
pub struct TurnBinding {
    pub turn_id: u64,
    pub granted: Vec<String>,
    pub schemas: Vec<ToolSchema>,
}

/// The binding of a turn: it may call what its owner was granted, and sees the schema of
/// each of those tools that there is.
pub open spec fn is_binding(
    binding: TurnBinding,
    turn_id: u64,
    grants: Seq<ExpandedGrant>,
    tools: Seq<ToolEntry>,
    caller: Seq<char>,
) -> bool {
    &&& binding.turn_id == turn_id
    &&& binding.granted.deep_view() == granted_to(grants, caller, 0)
    &&& binding.schemas.deep_view() == schemas_of(granted_to(grants, caller, 0), tools)
}

/// What a runtime answers to a turn that has its budget.
pub open spec fn enters(
    before: RuntimeControl,
    after: RuntimeControl,
    grants: Seq<ExpandedGrant>,
    tools: Seq<ToolEntry>,
    caller: Seq<char>,
    result: Result<TurnBinding, ToolRuntimeError>,
) -> bool {
    if before.lifecycle != LifecycleState::Running {
        result == Err::<TurnBinding, ToolRuntimeError>(ToolRuntimeError::Stopped) && after == before
    } else if before.next_turn_id == u64::MAX {
        &&& result matches Err(ToolRuntimeError::Internal { code, message })
        &&& code@ == "tool_turn_id_exhausted"@
        &&& message@ == "Tool turn ID space is exhausted"@
        &&& after == before
    } else {
        &&& result matches Ok(binding)
        &&& is_binding(binding, before.next_turn_id, grants, tools, caller)
        &&& after == (RuntimeControl {
            next_turn_id: (before.next_turn_id + 1) as u64,
            ..before
        })
    }
}

fn enter(
    control: &mut RuntimeControl,
    grants: &Vec<ExpandedGrant>,
    tools: &Vec<ToolEntry>,
    caller: &ToolCaller,
) -> (result: Result<TurnBinding, ToolRuntimeError>)
    requires
        old(control).wf(),
    ensures
        final(control).wf(),
        enters(*old(control), *final(control), grants@, tools@, caller@, result),
{
    match control.bind_turn() {
        Err(e) => Err(e),
        Ok(turn_id) => {
            let granted = granted_tools(grants, caller.as_str());
            let schemas = turn_schemas(&granted, tools);
            Ok(TurnBinding { turn_id, granted, schemas })
        },
    }
}

/// Binds a turn that brings the run it is charged to.
pub fn bind_turn(
    control: &mut RuntimeControl,
    grants: &Vec<ExpandedGrant>,
    tools: &Vec<ToolEntry>,
    caller: &ToolCaller,
    cancelled: bool,
    scope: &BudgetScope,
    budget: &mut TaskBudget,
    now: Duration,
) -> (result: Result<TurnBinding, ToolRuntimeError>)
    requires
        old(control).wf(),
        old(budget).wf(),
    ensures
        final(control).wf(),
        final(budget).wf(),
        final(budget)@ == if cancelled {
            old(budget)@
        } else {
            after_binding(old(budget)@, scope.run(), now.length())
        },
        if cancelled {
            result == Err::<TurnBinding, ToolRuntimeError>(ToolRuntimeError::TurnClosed)
                && *final(control) == *old(control)
        } else if let Some(e) = bind_fault(old(budget)@, scope.run(), now.length()) {
            result == Err::<TurnBinding, ToolRuntimeError>(ToolRuntimeError::Budget(e))
                && *final(control) == *old(control)
        } else {
            enters(*old(control), *final(control), grants@, tools@, caller@, result)
        },
{
    if cancelled {
        return Err(ToolRuntimeError::TurnClosed);
    }
    match bind_budget(scope, budget, now) {
        Err(e) => Err(ToolRuntimeError::Budget(e)),
        Ok(_) => enter(control, grants, tools, caller),
    }
}

/// Binds a turn that brings no budget: it is charged to a ledger of its own, which bears
/// the caller's name. The host makes the identities up.
pub fn bind_own_turn(
    control: &mut RuntimeControl,
    grants: &Vec<ExpandedGrant>,
    tools: &Vec<ToolEntry>,
    caller: &ToolCaller,
    cancelled: bool,
    task_id: TaskId,
    session_id: SessionId,
    turn_id: TurnId,
    now: Duration,
) -> (result: Result<(TurnBinding, TaskBudget, BudgetRun), ToolRuntimeError>)
    requires
        old(control).wf(),
    ensures
        final(control).wf(),
        ({
            let identity = IdentityView {
                task: task_id@,
                session: session_id@,
                agent: caller@,
            };
            match result {
                Ok((binding, budget, run)) => {
                    &&& !cancelled
                    &&& budget.wf()
                    &&& !run.is_finished()
                    &&& run.run_id() == 1
                    &&& is_own_ledger(budget@, identity, turn_id@, now.length())
                    &&& enters(
                        *old(control),
                        *final(control),
                        grants@,
                        tools@,
                        caller@,
                        Ok(binding),
                    )
                },
                Err(e) => {
                    &&& *final(control) == *old(control)
                    &&& if cancelled {
                        e == ToolRuntimeError::TurnClosed
                    } else if !identity.is_named() {
                        e == ToolRuntimeError::Budget(BudgetError::InvalidIdentity)
                    } else {
                        enters(
                            *old(control),
                            *final(control),
                            grants@,
                            tools@,
                            caller@,
                            Err(e),
                        )
                    }
                },
            }
        }),
{
    if cancelled {
        return Err(ToolRuntimeError::TurnClosed);
    }
    match own_budget(caller.as_str().to_owned(), task_id, session_id, turn_id, now) {
        Err(e) => Err(ToolRuntimeError::Budget(e)),
        Ok((budget, run)) => match enter(control, grants, tools, caller) {
            Err(e) => Err(e),
            Ok(binding) => Ok((binding, budget, run)),
        },
    }
}

/// No turn is let into a runtime that does not run, and none twice under one number.
pub proof fn bindings_are_numbered(
    before: RuntimeControl,
    between: RuntimeControl,
    after: RuntimeControl,
    grants: Seq<ExpandedGrant>,
    tools: Seq<ToolEntry>,
    first: Seq<char>,
    second: Seq<char>,
    one: TurnBinding,
    other: TurnBinding,
)
    requires
        enters(before, between, grants, tools, first, Ok(one)),
        enters(between, after, grants, tools, second, Ok(other)),
    ensures
        before.lifecycle == LifecycleState::Running,
        one.turn_id < other.turn_id,
{
}

} // verus!
