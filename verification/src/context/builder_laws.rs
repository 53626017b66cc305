//! What a built context holds, and what it leaves out.

use crate::context::budgeting::{ContextBuildReportView, ContextCountAttemptView, ContextTurnSelectionView};
use crate::context::builder::{
    assembled, built, built_contexts_fit, built_from, first_removable, first_report, heuristic_of, input_fault,
    judged, retained_messages, retains, system_messages, without_turn, ContextTokenCounter, InputView,
};
use crate::context::vocabulary::ProjectionGroupView;
use crate::generation::ModelMessageView;
use crate::generation_shape::shape_fault;
use vstd::prelude::*;

verus! {

/// A context that was built starts with the host's texts, each as it is and in its order,
/// ends with the whole current conversation, and asks for exactly what was asked for.
pub proof fn contexts_hold_their_frame<C: ContextTokenCounter>(counter: C, input: InputView)
    ensures
        built(counter, input) matches Ok(context) ==> {
            let messages = context.request.messages;
            let n = input.system.len() as int;
            let c = input.current.len() as int;
            &&& context.request.constraint == input.constraint
            &&& messages.len() >= n + c
            &&& forall|i: int|
                0 <= i < n ==> #[trigger] messages[i] == (ModelMessageView::System {
                    content: input.system[i],
                })
            &&& forall|i: int|
                0 <= i < c ==> #[trigger] input.current[i] == messages[messages.len() - c + i]
            &&& messages.subrange(n, messages.len() - c) == retained_messages(
                input.history.groups,
                context.report.turns,
            )
        },
{
    built_contexts_fit(counter, input);
    if let Ok(context) = built(counter, input) {
        let head = system_messages(input.system);
        let middle = retained_messages(input.history.groups, context.report.turns);
        let messages = context.request.messages;
        assert(messages == head + middle + input.current);
        assert(messages.subrange(
            input.system.len() as int,
            messages.len() - input.current.len(),
        ) =~= middle);
    }
}

/// Between them stands the history: the messages of a group are kept whole where its turn
/// is kept, and left out whole where it is not, in the order of the groups.
pub proof fn groups_are_kept_whole(
    before: Seq<ProjectionGroupView>,
    group: ProjectionGroupView,
    after: Seq<ProjectionGroupView>,
    turns: Seq<ContextTurnSelectionView>,
)
    ensures
        retained_messages(before + seq![group] + after, turns) == retained_messages(before, turns) + (
        if exists|k: int|
            0 <= k < turns.len() && (#[trigger] turns[k]).retained && turns[k].turn_id
                == group.turn_id {
            group.messages
        } else {
            Seq::empty()
        }) + retained_messages(after, turns),
{
    histories_are_put_together(before + seq![group], after, turns);
    histories_are_put_together(before, seq![group], turns);
    assert(seq![group].drop_last() =~= Seq::<ProjectionGroupView>::empty());
    let own = if retains(turns, group.turn_id) {
        group.messages
    } else {
        Seq::empty()
    };
    assert(retained_messages(Seq::<ProjectionGroupView>::empty(), turns) =~= Seq::<
        ModelMessageView,
    >::empty());
    assert(retained_messages(seq![group], turns) =~= own);
}

proof fn histories_are_put_together(
    a: Seq<ProjectionGroupView>,
    b: Seq<ProjectionGroupView>,
    turns: Seq<ContextTurnSelectionView>,
)
    ensures
        retained_messages(a + b, turns) == retained_messages(a, turns) + retained_messages(b, turns),
    decreases b.len(),
{
    if b.len() == 0 {
        assert(a + b =~= a);
        assert(retained_messages(a, turns) + retained_messages(b, turns) =~= retained_messages(
            a,
            turns,
        ));
    } else {
        assert((a + b).drop_last() =~= a + b.drop_last());
        assert((a + b).last() == b.last());
        histories_are_put_together(a, b.drop_last(), turns);
        let x = retained_messages(a, turns);
        let y = retained_messages(b.drop_last(), turns);
        assert(x + (y + b.last().messages) =~= (x + y) + b.last().messages);
    }
}

/// The first counts were all too large.
pub open spec fn are_too_large(attempts: Seq<ContextCountAttemptView>, n: int, window: u64) -> bool {
    forall|i: int| 0 <= i < n ==> (#[trigger] attempts[i]).total_reserved > window
}

/// How many turns are left out.
pub open spec fn left_out(turns: Seq<ContextTurnSelectionView>) -> int
    decreases turns.len(),
{
    if turns.len() == 0 {
        0
    } else {
        left_out(turns.drop_last()) + if turns.last().retained {
            0int
        } else {
            1int
        }
    }
}

proof fn one_more_is_left_out(turns: Seq<ContextTurnSelectionView>, k: int)
    requires
        0 <= k < turns.len(),
        turns[k].retained,
    ensures
        left_out(without_turn(turns, k)) == left_out(turns) + 1,
    decreases turns.len(),
{
    let next = without_turn(turns, k);
    if k == turns.len() - 1 {
        assert(next.drop_last() =~= turns.drop_last());
    } else {
        assert(next.drop_last() =~= without_turn(turns.drop_last(), k));
        assert(next.last() == turns.last());
        one_more_is_left_out(turns.drop_last(), k);
    }
}

proof fn removable_is_there(turns: Seq<ContextTurnSelectionView>, k: int)
    requires
        0 <= k,
    ensures
        first_removable(turns, k) matches Some(i) ==> k <= i < turns.len() && turns[i].retained,
    decreases turns.len() - k,
{
    if k < turns.len() {
        removable_is_there(turns, k + 1);
    }
}

proof fn attempts_say_why<C: ContextTokenCounter>(
    counter: C,
    input: InputView,
    report: ContextBuildReportView,
)
    requires
        report.attempts.len() < input.limits.max_count_calls,
        are_too_large(report.attempts, report.attempts.len() as int, input.budget.window_tokens),
        left_out(report.turns) == report.attempts.len(),
    ensures
        built_from(counter, input, report) matches Ok(context) ==> {
            let attempts = context.report.attempts;
            &&& are_too_large(attempts, attempts.len() - 1, input.budget.window_tokens)
            &&& left_out(context.report.turns) == attempts.len() - 1
        },
    decreases input.limits.max_count_calls - report.attempts.len(),
{
    let request = assembled(input, report.turns);
    if let Ok(count) = counter.counted(input.target, request) {
        if let Ok(total) = judged(count, input.target, input.budget) {
            removable_is_there(report.turns, 0);
            let counted = ContextBuildReportView {
                attempts: report.attempts.push(
                    ContextCountAttemptView {
                        removed_turns: report.attempts.len() as usize,
                        count,
                        total_reserved: total,
                    },
                ),
                ..report
            };
            if total > input.budget.window_tokens && shape_fault(request) is None {
                if let Some(k) = first_removable(report.turns, 0) {
                    if counted.attempts.len() < input.limits.max_count_calls {
                        one_more_is_left_out(report.turns, k);
                        attempts_say_why(
                            counter,
                            input,
                            ContextBuildReportView {
                                turns: without_turn(report.turns, k),
                                ..counted
                            },
                        );
                    }
                }
            }
        }
    }
}

proof fn nothing_is_left_out(turns: Seq<ContextTurnSelectionView>)
    requires
        forall|k: int| 0 <= k < turns.len() ==> (#[trigger] turns[k]).retained,
    ensures
        left_out(turns) == 0,
    decreases turns.len(),
{
    if turns.len() > 0 {
        assert forall|k: int| 0 <= k < turns.drop_last().len() implies (
        #[trigger] turns.drop_last()[k]).retained by {
            assert(turns[k].retained);
        }
        nothing_is_left_out(turns.drop_last());
    }
}

/// No turn is left out without need: each one that is left out follows a count that was
/// too large, one count for each, and the count after the last fits.
pub proof fn turns_are_left_out_of_need<C: ContextTokenCounter>(counter: C, input: InputView)
    ensures
        built(counter, input) matches Ok(context) ==> {
            let attempts = context.report.attempts;
            &&& attempts.len() > 0
            &&& are_too_large(attempts, attempts.len() - 1, input.budget.window_tokens)
            &&& attempts.last().total_reserved <= input.budget.window_tokens
            &&& left_out(context.report.turns) == attempts.len() - 1
        },
{
    built_contexts_fit(counter, input);
    if input_fault(input) is None && input.budget.output_reserve + input.budget.safety_margin
        <= u64::MAX {
        let report = first_report(input);
        nothing_is_left_out(report.turns);
        attempts_say_why(counter, input, report);
        fits_at_last(counter, input, report);
    }
}

proof fn fits_at_last<C: ContextTokenCounter>(counter: C, input: InputView, report: ContextBuildReportView)
    requires
        report.attempts.len() < input.limits.max_count_calls,
    ensures
        built_from(counter, input, report) matches Ok(context) ==> context.report.attempts.len() > 0
            && context.report.attempts.last().total_reserved <= input.budget.window_tokens,
    decreases input.limits.max_count_calls - report.attempts.len(),
{
    let request = assembled(input, report.turns);
    if let Ok(count) = counter.counted(input.target, request) {
        if let Ok(total) = judged(count, input.target, input.budget) {
            let counted = ContextBuildReportView {
                attempts: report.attempts.push(
                    ContextCountAttemptView {
                        removed_turns: report.attempts.len() as usize,
                        count,
                        total_reserved: total,
                    },
                ),
                ..report
            };
            if total > input.budget.window_tokens && shape_fault(request) is None {
                if let Some(k) = first_removable(report.turns, 0) {
                    if counted.attempts.len() < input.limits.max_count_calls {
                        fits_at_last(
                            counter,
                            input,
                            ContextBuildReportView {
                                turns: without_turn(report.turns, k),
                                ..counted
                            },
                        );
                    }
                }
            }
        }
    }
}

/// The guess for a text of so many bytes is a token for every four of them, begun ones
/// counted whole.
pub proof fn guesses_round_up(bytes: u64)
    ensures
        4 * heuristic_of(bytes) >= bytes,
        4 * heuristic_of(bytes) < bytes + 4,
{
}

} // verus!
