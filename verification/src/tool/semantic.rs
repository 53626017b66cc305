//! What a tool call comes to: consent, execution and the outcome on record.
//!
//! The host asks guards, authorizer and tool one after the other. After each answer
//! [`resolve_semantic`] says what comes next, from everything that was seen so far.

use crate::budget::ledger::{BudgetReservation, BudgetScope, TaskBudget};
use crate::budget::model::BudgetError;
use crate::budget::vocabulary::{BudgetStopReason, BudgetUsage, UsageValue};
use crate::budget::wording;
use crate::context::content;
use crate::record::Record;
use crate::session::event::SessionEvent;
use crate::session::tool_record::{
    ToolCall, ToolFailureCategory, ToolRecordedOutcome, ToolRecordedOutcomeView, ToolResult, ToolResultView,
};
use crate::text::{byte_len, size};
use crate::time::Duration;
use crate::tool::failure::{ToolClosureFailure, ToolRecordError, ToolRuntimeError};
use crate::tool::schema::Validation;
use crate::tool::vocabulary;
use crate::tool::vocabulary::{
    InvalidToolExecution, ToolAuthorizationDecision, ToolAuthorizationError, ToolBodyError, ToolDenial, ToolDiagnostic, ToolExecution,
    ToolGuardError,
};
use vstd::prelude::*;
use vstd::utf8::*;

verus! {

pub const MAX_TOOL_DIAGNOSTIC_BYTES: usize = 1024;

/// The longest start of a text that has at most `limit` bytes.
pub open spec fn clipped(text: Seq<char>, limit: nat) -> Seq<char> {
    if byte_len(text) <= limit {
        text
    } else {
        let bytes = encode_utf8(text);
        decode_utf8(bytes.subrange(0, content::boundary_of(bytes, limit as int)))
    }
}

/// The longest start of `value` that has at most `limit` bytes.
pub fn bounded_text(value: &str, limit: usize) -> (text: String)
    ensures
        text@ == clipped(value@, limit as nat),
{
    if size(value) <= limit {
        return value.to_owned();
    }
    let end: usize = content::boundary(value, limit);
    proof {
        encode_utf8_valid_utf8(value@);
        is_char_boundary_start_end_of_seq(encode_utf8(value@));
    }
    let piece = content::cut(value, 0, end);
    proof {
        encode_utf8_decode_utf8(piece@);
    }
    piece
}

/// Clipping keeps to the limit, and the rest is the text's own start.
pub proof fn clipped_texts_fit(text: Seq<char>, limit: nat)
    ensures
        byte_len(clipped(text, limit)) <= limit,
        byte_len(clipped(text, limit)) <= byte_len(text),
        encode_utf8(clipped(text, limit)) == encode_utf8(text).subrange(
            0,
            byte_len(clipped(text, limit)) as int,
        ),
{
    let bytes = encode_utf8(text);
    if byte_len(text) <= limit {
        assert(bytes.subrange(0, bytes.len() as int) =~= bytes);
    } else {
        encode_utf8_valid_utf8(text);
        content::boundaries_are_boundaries(bytes, limit as int);
        let end = content::boundary_of(bytes, limit as int);
        valid_utf8_split(bytes, end);
        decode_utf8_encode_utf8(bytes.subrange(0, end));
        assert(bytes.subrange(0, end).len() == end);
    }
}

/// What stopped an operation from outside.
#[derive(Clone, Copy, Debug, PartialEq, Eq)]
pub enum Interruption {
    Budget(BudgetError),
    Cancelled,
    TimedOut,
}

/// What waiting for outside work came to.
#[derive(Debug, PartialEq, Eq)]
pub enum Controlled<T> {
    Ready(T),
    Interrupted(Interruption),
}

#[derive(Debug, PartialEq, Eq)]
pub enum GuardAnswer {
    Passed,
    Denied(ToolDenial),
    Fault(ToolGuardError),
    Panicked,
}

#[derive(Debug, PartialEq, Eq)]
pub enum AuthorizerAnswer {
    Decided(ToolAuthorizationDecision),
    Fault(ToolAuthorizationError),
    Panicked,
}

#[derive(Debug, PartialEq, Eq)]
pub enum BodyAnswer {
    Output(String),
    Fault(ToolBodyError),
    Panicked,
}

/// The outcome to be recorded and what the caller hears beside it.
#[derive(Debug, PartialEq, Eq)]
pub struct SemanticResolution {
    pub outcome: ToolRecordedOutcome,
    pub cancelled: bool,
    pub budget_error: Option<BudgetError>,
}

pub struct ResolutionView {
    pub outcome: ToolRecordedOutcomeView,
    pub cancelled: bool,
    pub budget_error: Option<BudgetError>,
}

impl ResolutionView {
    pub open spec fn failure(category: ToolFailureCategory, code: Seq<char>, message: Seq<char>, retryable: bool) -> Self {
        ResolutionView {
            outcome: ToolRecordedOutcomeView::Failed {
                category,
                code: clipped(code, MAX_TOOL_DIAGNOSTIC_BYTES as nat),
                message: clipped(message, MAX_TOOL_DIAGNOSTIC_BYTES as nat),
                retryable,
            },
            cancelled: false,
            budget_error: None,
        }
    }

    pub open spec fn diagnosed(category: ToolFailureCategory, diagnostic: ToolDiagnostic) -> Self {
        Self::failure(
            category,
            diagnostic.code@,
            diagnostic.message@,
            diagnostic.retryable,
        )
    }

    pub open spec fn interrupted(reason: Interruption) -> Self {
        match reason {
            Interruption::Cancelled => ResolutionView {
                cancelled: true,
                ..Self::failure(
                    ToolFailureCategory::Cancelled,
                    "tool_cancelled"@,
                    "Tool operation was cancelled"@,
                    false,
                )
            },
            Interruption::TimedOut => Self::failure(
                ToolFailureCategory::Timeout,
                "tool_timeout"@,
                "Tool operation exceeded its deadline"@,
                true,
            ),
            Interruption::Budget(error) => ResolutionView {
                budget_error: Some(error),
                ..Self::failure(
                    ToolFailureCategory::Budget,
                    "tool_budget_stopped"@,
                    wording::error_text_of(error),
                    false,
                )
            },
        }
    }
}

impl SemanticResolution {
    pub open spec fn view(&self) -> ResolutionView {
        ResolutionView {
            outcome: self.outcome@,
            cancelled: self.cancelled,
            budget_error: self.budget_error,
        }
    }

    pub fn success(output: String) -> (resolution: Self)
        ensures
            resolution@ == (ResolutionView {
                outcome: ToolRecordedOutcomeView::Succeeded { output: output@ },
                cancelled: false,
                budget_error: None,
            }),
    {
        SemanticResolution {
            outcome: ToolRecordedOutcome::Succeeded { output },
            cancelled: false,
            budget_error: None,
        }
    }

    pub fn failure(category: ToolFailureCategory, code: &str, message: &str, retryable: bool) -> (resolution: Self)
        ensures
            resolution@ == ResolutionView::failure(category, code@, message@, retryable),
    {
        SemanticResolution {
            outcome: ToolRecordedOutcome::Failed {
                category,
                code: bounded_text(code, MAX_TOOL_DIAGNOSTIC_BYTES),
                message: bounded_text(message, MAX_TOOL_DIAGNOSTIC_BYTES),
                retryable,
            },
            cancelled: false,
            budget_error: None,
        }
    }

    pub fn diagnosed(category: ToolFailureCategory, diagnostic: &ToolDiagnostic) -> (resolution: Self)
        ensures
            resolution@ == ResolutionView::diagnosed(category, *diagnostic),
    {
        Self::failure(
            category,
            diagnostic.code.as_str(),
            diagnostic.message.as_str(),
            diagnostic.retryable,
        )
    }

    pub fn interrupted(reason: Interruption) -> (resolution: Self)
        ensures
            resolution@ == ResolutionView::interrupted(reason),
    {
        match reason {
            Interruption::Cancelled => {
                let mut resolution = Self::failure(
                    ToolFailureCategory::Cancelled,
                    "tool_cancelled",
                    "Tool operation was cancelled",
                    false,
                );
                resolution.cancelled = true;
                resolution
            },
            Interruption::TimedOut => Self::failure(
                ToolFailureCategory::Timeout,
                "tool_timeout",
                "Tool operation exceeded its deadline",
                true,
            ),
            Interruption::Budget(error) => {
                let text = error.text();
                let mut resolution = Self::failure(
                    ToolFailureCategory::Budget,
                    "tool_budget_stopped",
                    text.as_str(),
                    false,
                );
                resolution.budget_error = Some(error);
                resolution
            },
        }
    }
}

/// Why an operation cannot go on, if it cannot. The ledger comes first, after it the
/// ledger's own deadline, the caller and at last the deadline of the call.
pub fn interruption(
    scope: &BudgetScope,
    budget: &mut TaskBudget,
    ledger_now: Duration,
    now: Duration,
    budget_deadline: Option<Duration>,
    cancelled: bool,
    deadline: Duration,
) -> (reason: Option<Interruption>)
    requires
        old(budget).wf(),
    ensures
        final(budget).wf(),
        ({
            let t = old(budget)@.ticked(ledger_now.length());
            let expires = budget_deadline is Some && budget_deadline->0.length() <= now.length();
            match t.active_fault(scope.run()) {
                Some(e) => reason == Some(Interruption::Budget(e)) && final(budget)@ == t,
                None => if expires {
                    &&& final(budget)@ == t.expired(scope.run(), ledger_now.length())
                    &&& reason == Some(
                        Interruption::Budget(
                            match t.ticked(ledger_now.length()).run_fault(scope.run()) {
                                Some(e) => e,
                                None => BudgetError::Stopped(BudgetStopReason::ActiveTime),
                            },
                        ),
                    )
                } else {
                    &&& final(budget)@ == t
                    &&& reason == if cancelled {
                        Some(Interruption::Cancelled)
                    } else if deadline.length() <= now.length() {
                        Some(Interruption::TimedOut)
                    } else {
                        None
                    }
                },
            }
        }),
{
    match scope.check_active(budget, ledger_now) {
        Err(e) => {
            return Some(Interruption::Budget(e));
        },
        Ok(_) => {},
    }
    match budget_deadline {
        Some(at) => {
            if !now.shorter_than(&at) {
                return Some(Interruption::Budget(expire_budget(scope, budget, ledger_now)));
            }
        },
        None => {},
    }
    if cancelled {
        return Some(Interruption::Cancelled);
    }
    if !now.shorter_than(&deadline) {
        return Some(Interruption::TimedOut);
    }
    None
}

/// The ledger's time is over: the error to be told.
pub fn expire_budget(scope: &BudgetScope, budget: &mut TaskBudget, now: Duration) -> (error: BudgetError)
    requires
        old(budget).wf(),
    ensures
        final(budget).wf(),
        final(budget)@ == old(budget)@.expired(scope.run(), now.length()),
        error == match old(budget)@.ticked(now.length()).run_fault(scope.run()) {
            Some(e) => e,
            None => BudgetError::Stopped(BudgetStopReason::ActiveTime),
        },
{
    match scope.expire(budget, now) {
        Err(e) => e,
        Ok(_) => BudgetError::Stopped(BudgetStopReason::ActiveTime),
    }
}

/// What comes next for a call.
#[derive(Debug, PartialEq, Eq)]
pub enum SemanticAction {
    /// Check the arguments against the tool's schema.
    Validate,
    /// Look for an interruption again.
    Recheck,
    /// Ask the guard of that number.
    AskGuard(usize),
    AskAuthorizer,
    /// Look for an interruption and charge the start.
    Start,
    /// Run the tool.
    RunBody,
    Done(SemanticResolution),
}

pub enum ActionView {
    Validate,
    Recheck,
    AskGuard(int),
    AskAuthorizer,
    Start,
    RunBody,
    Done(ResolutionView),
}

impl SemanticAction {
    pub open spec fn view(&self) -> ActionView {
        match self {
            SemanticAction::Validate => ActionView::Validate,
            SemanticAction::Recheck => ActionView::Recheck,
            SemanticAction::AskGuard(i) => ActionView::AskGuard(*i as int),
            SemanticAction::AskAuthorizer => ActionView::AskAuthorizer,
            SemanticAction::Start => ActionView::Start,
            SemanticAction::RunBody => ActionView::RunBody,
            SemanticAction::Done(resolution) => ActionView::Done(resolution@),
        }
    }
}

/// What is known about the call's tool.
#[derive(Clone, Copy, Debug, PartialEq, Eq, Structural)]
pub enum Approval {
    NotRequired,
    Required,
    /// It is required, and its authorizer is not there.
    Unavailable,
}

/// Everything seen of a call so far, in the order in which it was seen.
#[derive(Debug, PartialEq, Eq)]
pub struct Observed {
    pub interrupted_first: Option<Interruption>,
    /// The caller was granted the tool, and there is such a tool.
    pub available: bool,
    pub approval: Approval,
    /// How many guards there are.
    pub guards: usize,
    pub output_limit: usize,
    pub validation: Option<Validation>,
    pub rechecked: Option<Option<Interruption>>,
    pub guard_answers: Vec<Controlled<GuardAnswer>>,
    pub authorizer_answer: Option<Controlled<AuthorizerAnswer>>,
    pub interrupted_last: Option<Option<Interruption>>,
    pub started: Option<Result<(), BudgetError>>,
    pub body_answer: Option<Controlled<BodyAnswer>>,
}

/// What a guard's answer ends the call with, if it does.
pub open spec fn guard_ends(answer: Controlled<GuardAnswer>) -> Option<ResolutionView> {
    match answer {
        Controlled::Interrupted(reason) => Some(ResolutionView::interrupted(reason)),
        Controlled::Ready(GuardAnswer::Panicked) => Some(
            ResolutionView::failure(
                ToolFailureCategory::GuardFault,
                "tool_guard_panicked"@,
                "Tool guard panicked"@,
                false,
            ),
        ),
        Controlled::Ready(GuardAnswer::Fault(error)) => Some(
            ResolutionView::diagnosed(ToolFailureCategory::GuardFault, error.0),
        ),
        Controlled::Ready(GuardAnswer::Denied(denial)) => Some(
            ResolutionView::diagnosed(ToolFailureCategory::Denied, denial.0),
        ),
        Controlled::Ready(GuardAnswer::Passed) => None,
    }
}

/// The first guard that ends the call.
pub open spec fn guards_end(answers: Seq<Controlled<GuardAnswer>>, k: int) -> Option<ResolutionView>
    decreases answers.len() - k,
{
    if k < 0 || k >= answers.len() {
        None
    } else {
        match guard_ends(answers[k]) {
            Some(end) => Some(end),
            None => guards_end(answers, k + 1),
        }
    }
}

pub open spec fn authorizer_ends(answer: Controlled<AuthorizerAnswer>) -> Option<ResolutionView> {
    match answer {
        Controlled::Interrupted(reason) => Some(ResolutionView::interrupted(reason)),
        Controlled::Ready(AuthorizerAnswer::Panicked) => Some(
            ResolutionView::failure(
                ToolFailureCategory::ApprovalFault,
                "tool_authorizer_panicked"@,
                "Tool authorizer panicked"@,
                false,
            ),
        ),
        Controlled::Ready(AuthorizerAnswer::Fault(error)) => Some(
            ResolutionView::diagnosed(ToolFailureCategory::ApprovalFault, error.0),
        ),
        Controlled::Ready(AuthorizerAnswer::Decided(ToolAuthorizationDecision::Denied(denial))) => Some(
            ResolutionView::diagnosed(ToolFailureCategory::ApprovalDenied, denial.0),
        ),
        Controlled::Ready(AuthorizerAnswer::Decided(ToolAuthorizationDecision::Approved)) => None,
    }
}

pub open spec fn validation_ends(validation: Validation) -> Option<ResolutionView> {
    match validation {
        Validation::Valid => None,
        Validation::Fault => Some(
            ResolutionView::failure(
                ToolFailureCategory::InvalidArguments,
                "tool_arguments_validation_fault"@,
                "Tool argument validation failed internally"@,
                false,
            ),
        ),
        Validation::Invalid(words) => Some(
            ResolutionView::failure(
                ToolFailureCategory::InvalidArguments,
                "tool_arguments_invalid"@,
                words@,
                false,
            ),
        ),
    }
}

/// What the tool's answer comes to.
pub open spec fn body_resolution(answer: Controlled<BodyAnswer>, output_limit: usize) -> ResolutionView {
    match answer {
        Controlled::Interrupted(reason) => ResolutionView::interrupted(reason),
        Controlled::Ready(BodyAnswer::Panicked) => ResolutionView::failure(
            ToolFailureCategory::BodyPanic,
            "tool_body_panicked"@,
            "Tool body panicked"@,
            false,
        ),
        Controlled::Ready(BodyAnswer::Fault(error)) => ResolutionView::diagnosed(
            ToolFailureCategory::BodyFailure,
            error.0,
        ),
        Controlled::Ready(BodyAnswer::Output(output)) => if byte_len(output@) > output_limit {
            ResolutionView::failure(
                ToolFailureCategory::OutputLimit,
                "tool_output_limit"@,
                "Tool output exceeded the configured byte limit"@,
                false,
            )
        } else {
            ResolutionView {
                outcome: ToolRecordedOutcomeView::Succeeded { output: output@ },
                cancelled: false,
                budget_error: None,
            }
        },
    }
}

/// The arguments are in order and nobody objected to the call.
pub open spec fn consent_step(seen: Observed) -> Option<ActionView> {
    if let Some(end) = guards_end(seen.guard_answers@, 0) {
        Some(ActionView::Done(end))
    } else if seen.guard_answers@.len() < seen.guards {
        Some(ActionView::AskGuard(seen.guard_answers@.len() as int))
    } else {
        match seen.approval {
            Approval::NotRequired => None,
            Approval::Unavailable => Some(
                ActionView::Done(
                    ResolutionView::failure(
                        ToolFailureCategory::ApprovalUnavailable,
                        "tool_approval_unavailable"@,
                        "Required Tool authorizer is unavailable"@,
                        false,
                    ),
                ),
            ),
            Approval::Required => match seen.authorizer_answer {
                None => Some(ActionView::AskAuthorizer),
                Some(answer) => match authorizer_ends(answer) {
                    Some(end) => Some(ActionView::Done(end)),
                    None => None,
                },
            },
        }
    }
}

/// What comes next, from everything seen so far.
pub open spec fn semantic_step(seen: Observed) -> ActionView {
    if let Some(reason) = seen.interrupted_first {
        ActionView::Done(ResolutionView::interrupted(reason))
    } else if !seen.available {
        ActionView::Done(
            ResolutionView::failure(
                ToolFailureCategory::Unavailable,
                "tool_unavailable"@,
                "Tool is unavailable to this caller"@,
                false,
            ),
        )
    } else {
        match seen.validation {
            None => ActionView::Validate,
            Some(validation) => match validation_ends(validation) {
                Some(end) => ActionView::Done(end),
                None => match seen.rechecked {
                    None => ActionView::Recheck,
                    Some(Some(reason)) => ActionView::Done(ResolutionView::interrupted(reason)),
                    Some(None) => match consent_step(seen) {
                        Some(action) => action,
                        None => start_step(seen),
                    },
                },
            },
        }
    }
}

/// What comes next once everybody consented.
pub open spec fn start_step(seen: Observed) -> ActionView {
    match (seen.interrupted_last, seen.started) {
        (Some(Some(reason)), _) => ActionView::Done(ResolutionView::interrupted(reason)),
        (Some(None), Some(Err(error))) => ActionView::Done(
            ResolutionView::interrupted(Interruption::Budget(error)),
        ),
        (Some(None), Some(Ok(_))) => match seen.body_answer {
            None => ActionView::RunBody,
            Some(answer) => ActionView::Done(body_resolution(answer, seen.output_limit)),
        },
        _ => ActionView::Start,
    }
}

fn ended_by_guard(answer: &Controlled<GuardAnswer>) -> (end: Option<SemanticResolution>)
    ensures
        match end {
            Some(end) => guard_ends(*answer) == Some(end@),
            None => guard_ends(*answer) is None,
        },
{
    match answer {
        Controlled::Interrupted(reason) => Some(SemanticResolution::interrupted(*reason)),
        Controlled::Ready(GuardAnswer::Panicked) => Some(
            SemanticResolution::failure(
                ToolFailureCategory::GuardFault,
                "tool_guard_panicked",
                "Tool guard panicked",
                false,
            ),
        ),
        Controlled::Ready(GuardAnswer::Fault(error)) => Some(
            SemanticResolution::diagnosed(ToolFailureCategory::GuardFault, &error.0),
        ),
        Controlled::Ready(GuardAnswer::Denied(denial)) => Some(
            SemanticResolution::diagnosed(ToolFailureCategory::Denied, &denial.0),
        ),
        Controlled::Ready(GuardAnswer::Passed) => None,
    }
}

fn ended_by_guards(answers: &Vec<Controlled<GuardAnswer>>) -> (end: Option<SemanticResolution>)
    ensures
        match end {
            Some(end) => guards_end(answers@, 0) == Some(end@),
            None => guards_end(answers@, 0) is None,
        },
{
    let mut i: usize = 0;
    while i < answers.len()
        invariant
            i <= answers@.len(),
            guards_end(answers@, 0) == guards_end(answers@, i as int),
        decreases answers@.len() - i,
    {
        match ended_by_guard(&answers[i]) {
            Some(end) => {
                return Some(end);
            },
            None => {},
        }
        i = i + 1;
    }
    None
}

fn ended_by_authorizer(answer: &Controlled<AuthorizerAnswer>) -> (end: Option<SemanticResolution>)
    ensures
        match end {
            Some(end) => authorizer_ends(*answer) == Some(end@),
            None => authorizer_ends(*answer) is None,
        },
{
    match answer {
        Controlled::Interrupted(reason) => Some(SemanticResolution::interrupted(*reason)),
        Controlled::Ready(AuthorizerAnswer::Panicked) => Some(
            SemanticResolution::failure(
                ToolFailureCategory::ApprovalFault,
                "tool_authorizer_panicked",
                "Tool authorizer panicked",
                false,
            ),
        ),
        Controlled::Ready(AuthorizerAnswer::Fault(error)) => Some(
            SemanticResolution::diagnosed(ToolFailureCategory::ApprovalFault, &error.0),
        ),
        Controlled::Ready(AuthorizerAnswer::Decided(ToolAuthorizationDecision::Denied(denial))) => Some(
            SemanticResolution::diagnosed(ToolFailureCategory::ApprovalDenied, &denial.0),
        ),
        Controlled::Ready(AuthorizerAnswer::Decided(ToolAuthorizationDecision::Approved)) => None,
    }
}

fn ended_by_validation(validation: &Validation) -> (end: Option<SemanticResolution>)
    ensures
        match end {
            Some(end) => validation_ends(*validation) == Some(end@),
            None => validation_ends(*validation) is None,
        },
{
    match validation {
        Validation::Valid => None,
        Validation::Fault => Some(
            SemanticResolution::failure(
                ToolFailureCategory::InvalidArguments,
                "tool_arguments_validation_fault",
                "Tool argument validation failed internally",
                false,
            ),
        ),
        Validation::Invalid(words) => Some(
            SemanticResolution::failure(
                ToolFailureCategory::InvalidArguments,
                "tool_arguments_invalid",
                words.as_str(),
                false,
            ),
        ),
    }
}

/// What the tool's answer comes to.
pub fn resolve_body(answer: &Controlled<BodyAnswer>, output_limit: usize) -> (resolution: SemanticResolution)
    ensures
        resolution@ == body_resolution(*answer, output_limit),
{
    match answer {
        Controlled::Interrupted(reason) => SemanticResolution::interrupted(*reason),
        Controlled::Ready(BodyAnswer::Panicked) => SemanticResolution::failure(
            ToolFailureCategory::BodyPanic,
            "tool_body_panicked",
            "Tool body panicked",
            false,
        ),
        Controlled::Ready(BodyAnswer::Fault(error)) => SemanticResolution::diagnosed(
            ToolFailureCategory::BodyFailure,
            &error.0,
        ),
        Controlled::Ready(BodyAnswer::Output(output)) => {
            if size(output.as_str()) > output_limit {
                SemanticResolution::failure(
                    ToolFailureCategory::OutputLimit,
                    "tool_output_limit",
                    "Tool output exceeded the configured byte limit",
                    false,
                )
            } else {
                SemanticResolution::success(output.clone())
            }
        },
    }
}

fn seek_consent(seen: &Observed) -> (action: Option<SemanticAction>)
    ensures
        match action {
            Some(action) => consent_step(*seen) == Some(action@),
            None => consent_step(*seen) is None,
        },
{
    match ended_by_guards(&seen.guard_answers) {
        Some(end) => {
            return Some(SemanticAction::Done(end));
        },
        None => {},
    }
    if seen.guard_answers.len() < seen.guards {
        return Some(SemanticAction::AskGuard(seen.guard_answers.len()));
    }
    match seen.approval {
        Approval::NotRequired => None,
        Approval::Unavailable => Some(
            SemanticAction::Done(
                SemanticResolution::failure(
                    ToolFailureCategory::ApprovalUnavailable,
                    "tool_approval_unavailable",
                    "Required Tool authorizer is unavailable",
                    false,
                ),
            ),
        ),
        Approval::Required => match &seen.authorizer_answer {
            None => Some(SemanticAction::AskAuthorizer),
            Some(answer) => match ended_by_authorizer(answer) {
                Some(end) => Some(SemanticAction::Done(end)),
                None => None,
            },
        },
    }
}

fn seek_start(seen: &Observed) -> (action: SemanticAction)
    ensures
        action@ == start_step(*seen),
{
    match seen.interrupted_last {
        None => SemanticAction::Start,
        Some(Some(reason)) => SemanticAction::Done(SemanticResolution::interrupted(reason)),
        Some(None) => match &seen.started {
            None => SemanticAction::Start,
            Some(Err(error)) => SemanticAction::Done(
                SemanticResolution::interrupted(Interruption::Budget(*error)),
            ),
            Some(Ok(_)) => match &seen.body_answer {
                None => SemanticAction::RunBody,
                Some(answer) => SemanticAction::Done(resolve_body(answer, seen.output_limit)),
            },
        },
    }
}

/// What comes next for a call, from everything seen of it so far.
pub fn resolve_semantic(seen: &Observed) -> (action: SemanticAction)
    ensures
        action@ == semantic_step(*seen),
{
    match seen.interrupted_first {
        Some(reason) => {
            return SemanticAction::Done(SemanticResolution::interrupted(reason));
        },
        None => {},
    }
    if !seen.available {
        return SemanticAction::Done(
            SemanticResolution::failure(
                ToolFailureCategory::Unavailable,
                "tool_unavailable",
                "Tool is unavailable to this caller",
                false,
            ),
        );
    }
    match &seen.validation {
        None => {
            return SemanticAction::Validate;
        },
        Some(validation) => match ended_by_validation(validation) {
            Some(end) => {
                return SemanticAction::Done(end);
            },
            None => {},
        },
    }
    match seen.rechecked {
        None => {
            return SemanticAction::Recheck;
        },
        Some(Some(reason)) => {
            return SemanticAction::Done(SemanticResolution::interrupted(reason));
        },
        Some(None) => {},
    }
    match seek_consent(seen) {
        Some(action) => action,
        None => seek_start(seen),
    }
}

/// Everybody who has a say agreed to the call.
pub open spec fn is_consented(seen: Observed) -> bool {
    &&& seen.available
    &&& seen.validation == Some(Validation::Valid)
    &&& seen.guard_answers@.len() >= seen.guards
    &&& forall|i: int|
        0 <= i < seen.guard_answers@.len() ==> #[trigger] seen.guard_answers@[i]
            == Controlled::Ready(GuardAnswer::Passed)
    &&& seen.approval != Approval::Unavailable
    &&& seen.approval == Approval::Required ==> seen.authorizer_answer == Some(
        Controlled::Ready(AuthorizerAnswer::Decided(ToolAuthorizationDecision::Approved)),
    )
}

/// Seeking consent never starts anything.
proof fn consent_comes_first(seen: Observed)
    ensures
        match consent_step(seen) {
            Some(action) => action is AskGuard || action is AskAuthorizer || action is Done,
            None => true,
        },
{
}

proof fn no_guard_ends(answers: Seq<Controlled<GuardAnswer>>, k: int, i: int)
    requires
        0 <= k <= i < answers.len(),
        guards_end(answers, k) is None,
    ensures
        answers[i] == Controlled::Ready(GuardAnswer::Passed),
    decreases i - k,
{
    if k < i {
        no_guard_ends(answers, k + 1, i);
    }
}

/// A call that gets as far as its start went through everything before it.
proof fn starts_come_last(seen: Observed)
    requires
        semantic_step(seen) is Start || semantic_step(seen) is RunBody,
    ensures
        seen.available,
        seen.validation == Some(Validation::Valid),
        consent_step(seen) is None,
        semantic_step(seen) == start_step(seen),
{
    consent_comes_first(seen);
}

proof fn consent_is_unanimous(seen: Observed)
    requires
        seen.available,
        seen.validation == Some(Validation::Valid),
        consent_step(seen) is None,
    ensures
        is_consented(seen),
{
    assert(guards_end(seen.guard_answers@, 0) is None);
    assert forall|i: int| 0 <= i < seen.guard_answers@.len() implies #[trigger] seen.guard_answers@[i]
        == Controlled::Ready(GuardAnswer::Passed) by {
        no_guard_ends(seen.guard_answers@, 0, i);
    }
}

/// No tool runs, and no start is charged, unless the caller was granted it, the
/// arguments are valid, every guard let the call pass and a required approval was given.
pub proof fn tools_run_with_consent(seen: Observed)
    requires
        semantic_step(seen) is Start || semantic_step(seen) is RunBody,
    ensures
        is_consented(seen),
        semantic_step(seen) is RunBody ==> seen.started is Some && seen.started->0 is Ok
            && seen.interrupted_last is Some && seen.interrupted_last->0 is None,
{
    starts_come_last(seen);
    consent_is_unanimous(seen);
}

/// A success on record is the tool's own output, within the limit.
pub proof fn successes_are_the_tools_output(seen: Observed, end: ResolutionView)
    requires
        semantic_step(seen) == ActionView::Done(end),
        end.outcome is Succeeded,
    ensures
        is_consented(seen),
        seen.body_answer matches Some(Controlled::Ready(BodyAnswer::Output(output))) && end.outcome
            == (ToolRecordedOutcomeView::Succeeded { output: output@ }) && byte_len(output@)
            <= seen.output_limit,
{
    if guards_end(seen.guard_answers@, 0) is Some {
        guards_never_succeed(seen.guard_answers@, 0);
    }
    assert forall|i: int| 0 <= i < seen.guard_answers@.len() implies #[trigger] seen.guard_answers@[i]
        == Controlled::Ready(GuardAnswer::Passed) by {
        no_guard_ends(seen.guard_answers@, 0, i);
    }
}

proof fn guards_never_succeed(answers: Seq<Controlled<GuardAnswer>>, k: int)
    requires
        guards_end(answers, k) is Some,
    ensures
        guards_end(answers, k)->0.outcome is Failed,
    decreases answers.len() - k,
{
    if guard_ends(answers[k]) is None {
        guards_never_succeed(answers, k + 1);
    }
}

/// The account of one operation.
#[derive(Debug)]
pub struct JobBudget {
    pub reservation: Option<BudgetReservation>,
    pub started: bool,
    pub output_bytes: UsageValue,
}

impl JobBudget {
    pub fn new(reservation: BudgetReservation) -> (account: Self)
        ensures
            account == (JobBudget {
                reservation: Some(reservation),
                started: false,
                output_bytes: UsageValue::Unknown,
            }),
    {
        JobBudget { reservation: Some(reservation), started: false, output_bytes: UsageValue::Unknown }
    }

    /// The usage that a started operation settles with.
    pub open spec fn usage(&self) -> BudgetUsage {
        BudgetUsage {
            input_tokens: UsageValue::Actual(0),
            output_tokens: UsageValue::Actual(0),
            tool_output_bytes: self.output_bytes,
        }
    }

    /// Charges the start of an operation that is not settled yet.
    pub fn start(&mut self, budget: &mut TaskBudget, now: Duration) -> (result: Result<(), BudgetError>)
        requires
            old(budget).wf(),
            old(self).reservation is Some,
        ensures
            final(budget).wf(),
            ({
                let held = old(self).reservation->0;
                &&& final(budget)@ == old(budget)@.started(
                    held.run(),
                    held.reservation_id(),
                    now.length(),
                )
                &&& match result {
                    Ok(_) => old(budget)@.ticked(now.length()).start_fault(
                        held.run(),
                        held.reservation_id(),
                    ) is None,
                    Err(e) => old(budget)@.ticked(now.length()).start_fault(
                        held.run(),
                        held.reservation_id(),
                    ) == Some(e),
                }
                &&& *final(self) == (JobBudget {
                    started: old(self).started || result is Ok,
                    ..*old(self)
                })
            }),
    {
        match &mut self.reservation {
            Some(reservation) => match reservation.mark_started(budget, now) {
                Err(e) => {
                    return Err(e);
                },
                Ok(_) => {},
            },
            None => {
                return Err(BudgetError::ReservationMissing);
            },
        }
        self.started = true;
        Ok(())
    }

    pub fn observe_output(&mut self, bytes: u64)
        ensures
            *final(self) == (JobBudget { output_bytes: UsageValue::Actual(bytes), ..*old(self) }),
    {
        self.output_bytes = UsageValue::Actual(bytes);
    }

    /// Settles the account, once. What was never started gives its hold back.
    /// A reservation that cannot be resolved is abandoned.
    pub fn settle(&mut self, budget: &mut TaskBudget, now: Duration) -> (result: Result<(), BudgetError>)
        requires
            old(budget).wf(),
        ensures
            final(budget).wf(),
            final(self).reservation is None,
            final(self).started == old(self).started,
            final(self).output_bytes == old(self).output_bytes,
            match old(self).reservation {
                None => result is Ok && final(budget)@ == old(budget)@,
                Some(held) => if old(self).started {
                    &&& final(budget)@ == old(budget)@.settled_for_good(
                        held.reservation_id(),
                        old(self).usage(),
                        now.length(),
                    )
                    &&& match result {
                        Ok(_) => old(budget)@.settle_fault(
                            held.reservation_id(),
                            old(self).usage(),
                            now.length(),
                        ) is None,
                        Err(e) => old(budget)@.settle_fault(
                            held.reservation_id(),
                            old(self).usage(),
                            now.length(),
                        ) == Some(e),
                    }
                } else {
                    &&& final(budget)@ == old(budget)@.cancelled_for_good(
                        held.reservation_id(),
                        now.length(),
                    )
                    &&& match result {
                        Ok(_) => old(budget)@.cancel_fault(held.reservation_id(), now.length())
                            is None,
                        Err(e) => old(budget)@.cancel_fault(held.reservation_id(), now.length())
                            == Some(e),
                    }
                },
            },
    {
        match self.reservation.take() {
            None => Ok(()),
            Some(held) => {
                if self.started {
                    held.settle(
                        budget,
                        BudgetUsage {
                            input_tokens: UsageValue::Actual(0),
                            output_tokens: UsageValue::Actual(0),
                            tool_output_bytes: self.output_bytes,
                        },
                        now,
                    )
                } else {
                    held.cancel_before_start(budget, now)
                }
            },
        }
    }
}

/// An account that did not settle is what the caller hears and the record says.
pub fn after_settlement(semantic: SemanticResolution, settled: Result<(), BudgetError>) -> (resolution: SemanticResolution)
    ensures
        match settled {
            Ok(_) => resolution == semantic,
            Err(e) => resolution@ == ResolutionView::interrupted(Interruption::Budget(e)),
        },
{
    match settled {
        Ok(_) => semantic,
        Err(e) => SemanticResolution::interrupted(Interruption::Budget(e)),
    }
}

/// Whether an event of a recorder belongs to the bound session and turn. One that does
/// not stops the run. Says in the ledger whether the evidence is confirmed.
pub fn confirm_record(
    scope: &BudgetScope,
    budget: &mut TaskBudget,
    explicit: bool,
    kind: crate::budget::vocabulary::BudgetEventKind,
    appended: Result<SessionEvent, ToolRecordError>,
    now: Duration,
) -> (result: Result<SessionEvent, ToolRecordError>)
    requires
        old(budget).wf(),
    ensures
        final(budget).wf(),
        ({
            let b = old(budget)@;
            let foreign = match appended {
                Ok(event) => explicit && (event@.session_id != b.identity.session || !(b.run_fault(
                    scope.run(),
                ) is None && b.run->0.report.turn == Some(event@.turn_id))),
                Err(_) => false,
            };
            let stopped = if foreign {
                b.stopped_with(scope.run(), BudgetStopReason::IdentityMismatch, now.length())
            } else {
                b
            };
            &&& final(budget)@ == stopped.with_metrics(
                scope.run(),
                crate::budget::ledger::counted(
                    stopped.run->0.report.metrics,
                    kind,
                    appended is Ok && !foreign,
                ),
            )
            &&& result == match appended {
                Ok(event) => if foreign {
                    Err::<SessionEvent, ToolRecordError>(
                        ToolRecordError::IdentityMismatch { event },
                    )
                } else {
                    Ok(event)
                },
                Err(e) => Err(e),
            }
        }),
{
    let result = match appended {
        Err(e) => Err(e),
        Ok(event) => {
            let mut foreign: bool = false;
            if explicit {
                let same_turn: bool = match scope.turn_id(budget) {
                    Ok(Some(turn)) => turn.is_same(&event.turn_id),
                    _ => false,
                };
                foreign = !event.session_id.is_same(&budget.identity().session_id) || !same_turn;
            }
            if foreign {
                let _ = scope.stop_with(budget, BudgetStopReason::IdentityMismatch, now);
                Err(ToolRecordError::IdentityMismatch { event })
            } else {
                Ok(event)
            }
        },
    };
    scope.record_evidence(budget, kind, result.is_ok());
    result
}

/// The words for evidence that shows no execution.
pub open spec fn execution_words(error: InvalidToolExecution) -> Seq<char> {
    match error {
        InvalidToolExecution::CallIdMismatch => "ToolCall and ToolResult call IDs differ"@,
        InvalidToolExecution::CallEventMismatch => "committed call event does not contain the supplied ToolCall"@,
        InvalidToolExecution::ResultEventMismatch => "committed result event does not contain the supplied ToolResult"@,
        InvalidToolExecution::DifferentSession => "committed Tool events belong to different Sessions"@,
        InvalidToolExecution::DifferentTurn => "committed Tool events belong to different turns"@,
        InvalidToolExecution::ReversedSequence => "committed ToolResult does not follow its ToolCall"@,
    }
}

fn words_of(error: InvalidToolExecution) -> (words: &'static str)
    ensures
        words@ == execution_words(error),
{
    match error {
        InvalidToolExecution::CallIdMismatch => "ToolCall and ToolResult call IDs differ",
        InvalidToolExecution::CallEventMismatch => "committed call event does not contain the supplied ToolCall",
        InvalidToolExecution::ResultEventMismatch => "committed result event does not contain the supplied ToolResult",
        InvalidToolExecution::DifferentSession => "committed Tool events belong to different Sessions",
        InvalidToolExecution::DifferentTurn => "committed Tool events belong to different turns",
        InvalidToolExecution::ReversedSequence => "committed ToolResult does not follow its ToolCall",
    }
}

/// The call could not be recorded: nothing ran.
pub fn call_not_recorded(call: ToolCall, source: ToolRecordError) -> (error: ToolRuntimeError)
    ensures
        error == ToolRuntimeError::Recording(
            Box::new(
                ToolClosureFailure {
                    call,
                    result: None,
                    stage: crate::tool::failure::ToolRecordStage::Call,
                    source,
                },
            ),
        ),
{
    ToolRuntimeError::Recording(Box::new(ToolClosureFailure::call_error(call, source)))
}

/// The result to be recorded for a call.
pub fn operation_result(call: &ToolCall, outcome: ToolRecordedOutcome) -> (result: ToolResult)
    ensures
        result@ == (ToolResultView { call_id: call@.id, outcome: outcome@ }),
{
    ToolResult { call_id: call.id.duplicate(), outcome }
}

/// What the caller hears once the result was to be recorded.
pub fn conclude_operation(
    call: ToolCall,
    result: ToolResult,
    call_event: SessionEvent,
    recorded: Result<SessionEvent, ToolRecordError>,
    budget_error: Option<BudgetError>,
    cancelled: bool,
) -> (heard: Result<ToolExecution, ToolRuntimeError>)
    ensures
        match recorded {
            Err(source) => heard == Err::<ToolExecution, ToolRuntimeError>(
                ToolRuntimeError::Recording(
                    Box::new(
                        ToolClosureFailure {
                            call,
                            result: Some(result),
                            stage: crate::tool::failure::ToolRecordStage::Result,
                            source,
                        },
                    ),
                ),
            ),
            Ok(result_event) => match vocabulary::execution_fault(
                call@,
                result@,
                call_event@,
                result_event@,
            ) {
                Some(fault) => heard matches Err(ToolRuntimeError::Internal { code, message })
                    && code@ == "tool_record_evidence_invalid"@ && message@ == clipped(
                    execution_words(fault),
                    MAX_TOOL_DIAGNOSTIC_BYTES as nat,
                ),
                None => {
                    let execution = ToolExecution { call, result, call_event, result_event };
                    heard == match budget_error {
                        Some(e) => Err::<ToolExecution, ToolRuntimeError>(
                            ToolRuntimeError::Budget(e),
                        ),
                        None => if cancelled {
                            Err(ToolRuntimeError::Cancelled { execution: Box::new(execution) })
                        } else {
                            Ok(execution)
                        },
                    }
                },
            },
        },
{
    let result_event = match recorded {
        Err(source) => {
            return Err(
                ToolRuntimeError::Recording(
                    Box::new(ToolClosureFailure::result_error(call, result, source)),
                ),
            );
        },
        Ok(event) => event,
    };
    match ToolExecution::new(call, result, call_event, result_event) {
        Err(fault) => Err(
            ToolRuntimeError::Internal {
                code: "tool_record_evidence_invalid".to_owned(),
                message: bounded_text(words_of(fault), MAX_TOOL_DIAGNOSTIC_BYTES),
            },
        ),
        Ok(execution) => match budget_error {
            Some(e) => Err(ToolRuntimeError::Budget(e)),
            None => if cancelled {
                Err(ToolRuntimeError::cancelled(execution))
            } else {
                Ok(execution)
            },
        },
    }
}

/// A driver that went away without an answer.
pub fn driver_unwound(job_id: u64) -> (error: ToolRuntimeError)
    ensures
        error matches ToolRuntimeError::Internal { code, message } && code@
            == "tool_driver_unwound"@ && message@ == "Tool operation "@ + crate::json::decimal(
            job_id as nat,
        ) + " unwound before canonical closure"@,
{
    let mut message = "Tool operation ".to_owned();
    message.push_str(crate::json::decimal_text(job_id).as_str());
    message.push_str(" unwound before canonical closure");
    ToolRuntimeError::Internal { code: "tool_driver_unwound".to_owned(), message }
}

} // verus!
