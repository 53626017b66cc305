//! How a call ends, by what was seen of it first.

use crate::session::tool_record::{ToolFailureCategory, ToolRecordedOutcomeView};
use crate::text::byte_len;
use crate::time::Duration;
use crate::tool::control::{tightest_size, tightest_time};
use crate::tool::recovery_laws::comes_before_the_tool;
use crate::tool::schema::Validation;
use crate::tool::semantic::{
    clipped, clipped_texts_fit, guard_ends, guards_end, is_consented, semantic_step, start_step, ActionView,
    Approval, AuthorizerAnswer, BodyAnswer, Controlled, GuardAnswer, Interruption, Observed, ResolutionView,
};
use crate::tool::vocabulary::{ToolAuthorizationDecision, ToolDiagnostic};
use vstd::prelude::*;
use vstd::utf8::*;

verus! {

/// The text, or of a long one the beginning.
pub open spec fn is_start_of(short: Seq<char>, text: Seq<char>) -> bool {
    &&& encode_utf8(short).is_prefix_of(encode_utf8(text))
    &&& byte_len(short) <= 1024
    &&& byte_len(text) <= 1024 ==> short == text
}

/// The call ends in a failure of this category.
pub open spec fn fails(end: ResolutionView, category: ToolFailureCategory) -> bool {
    end.outcome matches ToolRecordedOutcomeView::Failed { category: c, .. } && c == category
}

/// The failure is told in the words that came with it.
pub open spec fn fails_with_words(
    end: ResolutionView,
    category: ToolFailureCategory,
    words: ToolDiagnostic,
) -> bool {
    &&& end.outcome matches ToolRecordedOutcomeView::Failed { category: c, code, message, retryable }
    &&& c == category
    &&& is_start_of(code, words.code@)
    &&& is_start_of(message, words.message@)
    &&& retryable == words.retryable
}

/// The call was interrupted for this reason, and only then is it told as cancelled or as
/// stopped by the budget.
pub open spec fn is_interrupted_by(end: ResolutionView, reason: Interruption) -> bool {
    match reason {
        Interruption::Cancelled => fails(end, ToolFailureCategory::Cancelled) && end.cancelled
            && end.budget_error is None,
        Interruption::TimedOut => fails(end, ToolFailureCategory::Timeout) && !end.cancelled
            && end.budget_error is None,
        Interruption::Budget(error) => fails(end, ToolFailureCategory::Budget) && !end.cancelled
            && end.budget_error == Some(error),
    }
}

/// A diagnostic is told in its own words.
proof fn words_are_kept(category: ToolFailureCategory, words: ToolDiagnostic)
    ensures
        fails_with_words(ResolutionView::diagnosed(category, words), category, words),
{
    starts_are_kept(words.code@);
    starts_are_kept(words.message@);
}

proof fn starts_are_kept(text: Seq<char>)
    ensures
        is_start_of(clipped(text, 1024), text),
{
    clipped_texts_fit(text, 1024);
    let short = clipped(text, 1024);
    assert(encode_utf8(short) =~= encode_utf8(text).subrange(0, byte_len(short) as int));
}

/// The guards up to the `i`th let the call pass.
pub open spec fn passed_guards(seen: Observed, i: int) -> bool {
    forall|j: int|
        0 <= j < i ==> #[trigger] seen.guard_answers@[j] == Controlled::Ready(GuardAnswer::Passed)
}

/// The call is in order as far as it can be before anybody is asked.
pub open spec fn is_in_order(seen: Observed) -> bool {
    &&& seen.interrupted_first is None
    &&& seen.available
    &&& seen.validation == Some(Validation::Valid)
    &&& seen.rechecked == Some(None::<Interruption>)
}

proof fn guards_end_at(answers: Seq<Controlled<GuardAnswer>>, k: int, i: int)
    requires
        0 <= k <= i < answers.len(),
        forall|j: int| k <= j < i ==> #[trigger] answers[j] == Controlled::Ready(GuardAnswer::Passed),
        answers[i] != Controlled::Ready(GuardAnswer::Passed),
    ensures
        guards_end(answers, k) == guard_ends(answers[i]),
        guards_end(answers, k) is Some,
    decreases i - k,
{
    if k < i {
        assert(answers[k] == Controlled::Ready(GuardAnswer::Passed));
        guards_end_at(answers, k + 1, i);
    }
}

proof fn no_guard_objects(answers: Seq<Controlled<GuardAnswer>>, k: int)
    requires
        0 <= k,
        forall|j: int|
            k <= j < answers.len() ==> #[trigger] answers[j] == Controlled::Ready(GuardAnswer::Passed),
    ensures
        guards_end(answers, k) is None,
    decreases answers.len() - k,
{
    if k < answers.len() {
        assert(answers[k] == Controlled::Ready(GuardAnswer::Passed));
        no_guard_objects(answers, k + 1);
    }
}

/// What was seen first decides how a call ends: an interruption, a tool that is not to be
/// had, arguments that do not hold.
pub proof fn first_obstacles_end_a_call(seen: Observed)
    ensures
        ({
            let step = semantic_step(seen);
            &&& seen.interrupted_first matches Some(reason) ==> {
                &&& step matches ActionView::Done(end)
                &&& is_interrupted_by(end, reason)
            }
            &&& seen.interrupted_first is None && !seen.available ==> {
                &&& step matches ActionView::Done(end)
                &&& fails(end, ToolFailureCategory::Unavailable)
            }
            &&& seen.interrupted_first is None && seen.available ==> match seen.validation {
                None => step is Validate,
                Some(Validation::Valid) => match seen.rechecked {
                    None => step is Recheck,
                    Some(Some(reason)) => step matches ActionView::Done(end) && is_interrupted_by(
                        end,
                        reason,
                    ),
                    Some(None) => true,
                },
                Some(_) => step matches ActionView::Done(end) && fails(
                    end,
                    ToolFailureCategory::InvalidArguments,
                ),
            }
        }),
{
}

/// The first guard that does not let a call pass ends it, in that guard's own words; no
/// guard is left out, and each is asked in its turn.
pub proof fn each_guard_has_a_say(seen: Observed, i: int)
    requires
        is_in_order(seen),
        0 <= i <= seen.guard_answers@.len(),
        passed_guards(seen, i),
    ensures
        ({
            let step = semantic_step(seen);
            &&& i == seen.guard_answers@.len() && i < seen.guards ==> step == ActionView::AskGuard(i)
            &&& i < seen.guard_answers@.len() ==> match seen.guard_answers@[i] {
                Controlled::Ready(GuardAnswer::Passed) => true,
                Controlled::Ready(GuardAnswer::Denied(denial)) => step matches ActionView::Done(end)
                    && fails_with_words(end, ToolFailureCategory::Denied, denial.0),
                Controlled::Ready(GuardAnswer::Fault(error)) => step matches ActionView::Done(end)
                    && fails_with_words(end, ToolFailureCategory::GuardFault, error.0),
                Controlled::Ready(GuardAnswer::Panicked) => step matches ActionView::Done(end)
                    && fails(end, ToolFailureCategory::GuardFault),
                Controlled::Interrupted(reason) => step matches ActionView::Done(end)
                    && is_interrupted_by(end, reason),
            }
        }),
{
    let answers = seen.guard_answers@;
    if i == answers.len() {
        no_guard_objects(answers, 0);
    } else if answers[i] != Controlled::Ready(GuardAnswer::Passed) {
        guards_end_at(answers, 0, i);
        match answers[i] {
            Controlled::Ready(GuardAnswer::Denied(denial)) => {
                words_are_kept(ToolFailureCategory::Denied, denial.0);
            },
            Controlled::Ready(GuardAnswer::Fault(error)) => {
                words_are_kept(ToolFailureCategory::GuardFault, error.0);
            },
            _ => {},
        }
    }
}

/// Where approval is required, nothing starts before it was given, and a refusal ends the
/// call in the authorizer's own words.
pub proof fn approval_is_waited_for(seen: Observed)
    requires
        is_in_order(seen),
        seen.guard_answers@.len() >= seen.guards,
        passed_guards(seen, seen.guard_answers@.len() as int),
    ensures
        ({
            let step = semantic_step(seen);
            match seen.approval {
                Approval::NotRequired => step == start_step(seen),
                Approval::Unavailable => step matches ActionView::Done(end) && fails(
                    end,
                    ToolFailureCategory::ApprovalUnavailable,
                ),
                Approval::Required => match seen.authorizer_answer {
                    None => step is AskAuthorizer,
                    Some(Controlled::Interrupted(reason)) => step matches ActionView::Done(end)
                        && is_interrupted_by(end, reason),
                    Some(Controlled::Ready(AuthorizerAnswer::Panicked)) => step matches ActionView::Done(
                        end,
                    ) && fails(end, ToolFailureCategory::ApprovalFault),
                    Some(Controlled::Ready(AuthorizerAnswer::Fault(error))) =>
                        step matches ActionView::Done(end) && fails_with_words(
                        end,
                        ToolFailureCategory::ApprovalFault,
                        error.0,
                    ),
                    Some(
                        Controlled::Ready(
                            AuthorizerAnswer::Decided(ToolAuthorizationDecision::Denied(denial)),
                        ),
                    ) => step matches ActionView::Done(end) && fails_with_words(
                        end,
                        ToolFailureCategory::ApprovalDenied,
                        denial.0,
                    ),
                    Some(
                        Controlled::Ready(
                            AuthorizerAnswer::Decided(ToolAuthorizationDecision::Approved),
                        ),
                    ) => step == start_step(seen),
                },
            }
        }),
{
    no_guard_objects(seen.guard_answers@, 0);
    match seen.authorizer_answer {
        Some(Controlled::Ready(AuthorizerAnswer::Fault(error))) => {
            words_are_kept(ToolFailureCategory::ApprovalFault, error.0);
        },
        Some(
            Controlled::Ready(AuthorizerAnswer::Decided(ToolAuthorizationDecision::Denied(denial))),
        ) => {
            words_are_kept(ToolFailureCategory::ApprovalDenied, denial.0);
        },
        _ => {},
    }
}

/// Once everybody agreed, the call is started and the tool run, unless something
/// interrupts it at the last moment; what the tool answers is what the call ends with: its
/// output where that is within the limit, and its failure where it failed.
pub proof fn tools_answers_end_a_call(seen: Observed)
    requires
        is_in_order(seen),
        is_consented(seen),
    ensures
        ({
            let step = semantic_step(seen);
            match (seen.interrupted_last, seen.started) {
                (Some(Some(reason)), _) => step matches ActionView::Done(end) && is_interrupted_by(
                    end,
                    reason,
                ),
                (Some(None), Some(Err(error))) => step matches ActionView::Done(end)
                    && is_interrupted_by(end, Interruption::Budget(error)),
                (Some(None), Some(Ok(_))) => match seen.body_answer {
                    None => step is RunBody,
                    Some(Controlled::Interrupted(reason)) => step matches ActionView::Done(end)
                        && is_interrupted_by(end, reason),
                    Some(Controlled::Ready(BodyAnswer::Panicked)) => step matches ActionView::Done(end)
                        && fails(end, ToolFailureCategory::BodyPanic),
                    Some(Controlled::Ready(BodyAnswer::Fault(error))) => step matches ActionView::Done(
                        end,
                    ) && fails_with_words(end, ToolFailureCategory::BodyFailure, error.0),
                    Some(Controlled::Ready(BodyAnswer::Output(output))) => {
                        &&& step matches ActionView::Done(end)
                        &&& byte_len(output@) > seen.output_limit ==> fails(
                            end,
                            ToolFailureCategory::OutputLimit,
                        )
                        &&& byte_len(output@) <= seen.output_limit ==> end.outcome == (
                        ToolRecordedOutcomeView::Succeeded { output: output@ }) && !end.cancelled
                            && end.budget_error is None
                    },
                },
                _ => step is Start,
            }
        }),
{
    no_guard_objects(seen.guard_answers@, 0);
    match seen.body_answer {
        Some(Controlled::Ready(BodyAnswer::Fault(error))) => {
            words_are_kept(ToolFailureCategory::BodyFailure, error.0);
        },
        _ => {},
    }
}

/// A failure of a category that stands for a tool that did not run is never recorded of a
/// call that everybody agreed to, and so never of one whose tool was run.
pub proof fn refusals_are_recorded_before_the_tool_runs(seen: Observed, end: ResolutionView)
    requires
        semantic_step(seen) == ActionView::Done(end),
        end.outcome matches ToolRecordedOutcomeView::Failed { category, .. } && comes_before_the_tool(
            category,
        ),
    ensures
        !is_consented(seen),
{
    if is_consented(seen) {
        no_guard_objects(seen.guard_answers@, 0);
    }
}

/// The shortest of all limits on the time of a call holds, and the smallest of those on
/// its output.
pub proof fn the_tightest_limit_holds(
    runtime: Duration,
    tool: Option<Duration>,
    requested: Option<Duration>,
    size: usize,
    tool_size: Option<usize>,
    wanted_size: Option<usize>,
)
    ensures
        ({
            let time = tightest_time(runtime, tool, requested);
            &&& time <= runtime.length()
            &&& tool matches Some(t) ==> time <= t.length()
            &&& requested matches Some(r) ==> time <= r.length()
            &&& time == runtime.length() || (tool matches Some(t) && time == t.length()) || (
            requested matches Some(r) && time == r.length())
        }),
        ({
            let limit = tightest_size(size, tool_size, wanted_size);
            &&& limit <= size
            &&& tool_size matches Some(t) ==> limit <= t
            &&& wanted_size matches Some(r) ==> limit <= r
            &&& limit == size || tool_size == Some(limit) || wanted_size == Some(limit)
        }),
{
}

} // verus!
