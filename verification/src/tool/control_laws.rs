//! Which tool calls are let in.

use crate::budget::model::LedgerView;
use crate::lifecycle::LifecycleState;
use crate::text::byte_len;
use crate::tool::control::{check_fault, checked_ledger, time_left, RuntimeControl};
use vstd::prelude::*;

verus! {

/// A call is turned down exactly where its name or its arguments are of the wrong size, its
/// turn was cancelled, it is made for another task, or the budget lets nothing more in;
/// a call that is turned down for its own faults does not touch the budget.
pub proof fn calls_are_turned_down_for_a_reason(
    b: LedgerView,
    name: Seq<char>,
    arguments: Seq<char>,
    cancelled: bool,
    foreign: bool,
    run: u64,
    now: nat,
)
    ensures
        ({
            let t = b.ticked(now);
            let sized = 0 < name.len() && byte_len(name) <= 256 && byte_len(arguments) <= 1_048_576;
            let open = {
                &&& !t.sealed && !t.recovery_frozen
                &&& t.run is Some && t.run->0.id == run && t.run->0.report.open
                &&& t.stop is None && t.run->0.report.stop is None
            };
            &&& check_fault(b, name, arguments, cancelled, foreign, run, now) is None <==> sized
                && !cancelled && !foreign && open
            &&& !sized || cancelled ==> checked_ledger(
                b,
                name,
                arguments,
                cancelled,
                foreign,
                run,
                now,
            ) == b
        }),
{
}

/// The time that is left is what task and run both still allow.
pub proof fn no_more_time_is_left_than_allowed(t: LedgerView)
    requires
        t.run is Some,
        t.active <= t.limits.active,
        t.run->0.report.active <= t.run->0.report.limits.active,
    ensures
        ({
            let run = t.run->0.report;
            &&& t.active + time_left(t) <= t.limits.active
            &&& run.active + time_left(t) <= run.limits.active
            &&& t.active + time_left(t) == t.limits.active || run.active + time_left(t)
                == run.limits.active
        }),
{
}

/// A runtime lets a call in exactly where it runs, the turn is open and there is room.
pub proof fn tool_calls_are_let_in_where_there_is_room(control: RuntimeControl, turn_open: bool)
    ensures
        control.entry_fault(turn_open) is None <==> control.lifecycle == LifecycleState::Running && turn_open
            && control.jobs@.len() < control.max_in_flight && control.next_job_id < u64::MAX,
{
}

} // verus!
