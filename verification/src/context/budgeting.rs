//! Vocabulary of contexts: targets, counts, limits and reports.

use crate::budget::vocabulary::{TokenBoundEvidence, TokenBudgetMode};
use crate::generation::{GenerationRequest, GenerationRequestView, ModelProtocolError};
use crate::id::{EventId, SessionId, TurnId};
use crate::record::Record;
use vstd::prelude::*;

verus! {

/// The host's choice of model and of the revision that renders and counts for it.
/// Neither may be blank.
#[derive(Debug, PartialEq, Eq)]
pub struct ContextTarget {
    pub model: String,
    pub template_revision: String,
}

pub struct ContextTargetView {
    pub model: Seq<char>,
    pub template_revision: Seq<char>,
}

impl ContextTarget {
    pub open spec fn view(&self) -> ContextTargetView {
        ContextTargetView {
            model: self.model@,
            template_revision: self.template_revision@,
        }
    }
}

impl DeepView for ContextTarget {
    type V = ContextTargetView;

    open spec fn deep_view(&self) -> ContextTargetView {
        self@
    }
}

impl Record for ContextTarget {
    fn is_same(&self, other: &Self) -> (answer: bool) {
        self.model.is_same(&other.model)
            && self.template_revision.is_same(&other.template_revision)
    }

    fn duplicate(&self) -> (copy: Self) {
        ContextTarget {
            model: self.model.duplicate(),
            template_revision: self.template_revision.duplicate(),
        }
    }
}

/// Disjoint contributions to the input. A verified sum bounds everything the provider
/// renders, schemas included.
#[derive(Clone, Copy, Debug, PartialEq, Eq, Structural)]
pub struct ContextTokenBreakdown {
    pub system: u64,
    pub messages: u64,
    pub constraint: u64,
    /// Role delimiters and other framing.
    pub template: u64,
}

impl DeepView for ContextTokenBreakdown {
    type V = ContextTokenBreakdown;

    open spec fn deep_view(&self) -> ContextTokenBreakdown {
        *self
    }
}

impl Record for ContextTokenBreakdown {
    fn is_same(&self, other: &Self) -> (answer: bool) {
        *self == *other
    }

    fn duplicate(&self) -> (copy: Self) {
        *self
    }
}

impl ContextTokenBreakdown {
    pub open spec fn sum(self) -> nat {
        self.system as nat + self.messages as nat + self.constraint as nat + self.template as nat
    }

    /// All contributions together, if they fit.
    pub fn total(self) -> (total: Option<u64>)
        ensures
            match total {
                Some(t) => t == self.sum(),
                None => self.sum() > u64::MAX,
            },
    {
        let first: u64 = match self.system.checked_add(self.messages) {
            Some(sum) => sum,
            None => {
                return None;
            },
        };
        match first.checked_add(self.constraint) {
            Some(sum) => sum.checked_add(self.template),
            None => None,
        }
    }
}

/// What counting a request gave.
#[derive(Debug, PartialEq, Eq)]
pub struct ContextTokenCount {
    pub target: ContextTarget,
    /// Stable version of the counting method.
    pub method: String,
    pub evidence: TokenBoundEvidence,
    pub tokens: ContextTokenBreakdown,
}

pub struct ContextTokenCountView {
    pub target: ContextTargetView,
    pub method: Seq<char>,
    pub evidence: TokenBoundEvidence,
    pub tokens: ContextTokenBreakdown,
}

impl ContextTokenCount {
    pub open spec fn view(&self) -> ContextTokenCountView {
        ContextTokenCountView {
            target: self.target.deep_view(),
            method: self.method@,
            evidence: self.evidence,
            tokens: self.tokens,
        }
    }
}

impl DeepView for ContextTokenCount {
    type V = ContextTokenCountView;

    open spec fn deep_view(&self) -> ContextTokenCountView {
        self@
    }
}

impl Record for ContextTokenCount {
    fn is_same(&self, other: &Self) -> (answer: bool) {
        self.target.is_same(&other.target)
            && self.method.is_same(&other.method)
            && self.evidence == other.evidence
            && self.tokens == other.tokens
    }

    fn duplicate(&self) -> (copy: Self) {
        ContextTokenCount {
            target: self.target.duplicate(),
            method: self.method.duplicate(),
            evidence: self.evidence,
            tokens: self.tokens,
        }
    }
}

/// A counter gave up.
#[derive(Debug, PartialEq, Eq)]
pub struct ContextCountError {
    pub message: String,
}

pub struct ContextCountErrorView {
    pub message: Seq<char>,
}

impl ContextCountError {
    pub open spec fn view(&self) -> ContextCountErrorView {
        ContextCountErrorView {
            message: self.message@,
        }
    }
}

impl DeepView for ContextCountError {
    type V = ContextCountErrorView;

    open spec fn deep_view(&self) -> ContextCountErrorView {
        self@
    }
}

impl Record for ContextCountError {
    fn is_same(&self, other: &Self) -> (answer: bool) {
        self.message.is_same(&other.message)
    }

    fn duplicate(&self) -> (copy: Self) {
        ContextCountError {
            message: self.message.duplicate(),
        }
    }
}

/// Tokens that a request may take.
#[derive(Clone, Copy, Debug, PartialEq, Eq, Structural)]
pub struct ContextBudget {
    pub window_tokens: u64,
    pub output_reserve: u64,
    /// Hard mode asks the host to enforce the output bound on the actual generation.
    pub output_evidence: TokenBoundEvidence,
    pub safety_margin: u64,
    pub mode: TokenBudgetMode,
}

impl DeepView for ContextBudget {
    type V = ContextBudget;

    open spec fn deep_view(&self) -> ContextBudget {
        *self
    }
}

impl Record for ContextBudget {
    fn is_same(&self, other: &Self) -> (answer: bool) {
        *self == *other
    }

    fn duplicate(&self) -> (copy: Self) {
        *self
    }
}

/// Limits of building a context.
#[derive(Clone, Copy, Debug, PartialEq, Eq, Structural)]
pub struct ContextBuildLimits {
    /// Serialized input with its metadata; not a limit on memory.
    pub max_input_bytes: usize,
    pub max_groups: usize,
    pub max_messages: usize,
    /// Each attempt counts a complete candidate.
    pub max_count_calls: usize,
}

impl DeepView for ContextBuildLimits {
    type V = ContextBuildLimits;

    open spec fn deep_view(&self) -> ContextBuildLimits {
        *self
    }
}

impl Record for ContextBuildLimits {
    fn is_same(&self, other: &Self) -> (answer: bool) {
        *self == *other
    }

    fn duplicate(&self) -> (copy: Self) {
        *self
    }
}

impl Default for ContextBuildLimits {
    fn default() -> (limits: Self)
        ensures
            limits == (ContextBuildLimits {
                max_input_bytes: 16_777_216,
                max_groups: 4096,
                max_messages: 8192,
                max_count_calls: 128,
            }),
    {
        ContextBuildLimits {
            max_input_bytes: 16_777_216,
            max_groups: 4096,
            max_messages: 8192,
            max_count_calls: 128,
        }
    }
}

/// Whether a turn of the history is part of the context.
#[derive(Debug, PartialEq, Eq)]
pub struct ContextTurnSelection {
    pub turn_id: TurnId,
    pub source_events: Vec<EventId>,
    pub retained: bool,
    pub protected: bool,
}

pub struct ContextTurnSelectionView {
    pub turn_id: Seq<char>,
    pub source_events: Seq<Seq<char>>,
    pub retained: bool,
    pub protected: bool,
}

impl ContextTurnSelection {
    pub open spec fn view(&self) -> ContextTurnSelectionView {
        ContextTurnSelectionView {
            turn_id: self.turn_id@,
            source_events: self.source_events.deep_view(),
            retained: self.retained,
            protected: self.protected,
        }
    }
}

impl DeepView for ContextTurnSelection {
    type V = ContextTurnSelectionView;

    open spec fn deep_view(&self) -> ContextTurnSelectionView {
        self@
    }
}

impl Record for ContextTurnSelection {
    fn is_same(&self, other: &Self) -> (answer: bool) {
        self.turn_id.is_same(&other.turn_id)
            && self.source_events.is_same(&other.source_events)
            && self.retained == other.retained
            && self.protected == other.protected
    }

    fn duplicate(&self) -> (copy: Self) {
        ContextTurnSelection {
            turn_id: self.turn_id.duplicate(),
            source_events: self.source_events.duplicate(),
            retained: self.retained,
            protected: self.protected,
        }
    }
}

/// One candidate and its count.
#[derive(Debug, PartialEq, Eq)]
pub struct ContextCountAttempt {
    pub removed_turns: usize,
    pub count: ContextTokenCount,
    /// Complete input, reserved output and safety margin.
    pub total_reserved: u64,
}

pub struct ContextCountAttemptView {
    pub removed_turns: usize,
    pub count: ContextTokenCountView,
    pub total_reserved: u64,
}

impl ContextCountAttempt {
    pub open spec fn view(&self) -> ContextCountAttemptView {
        ContextCountAttemptView {
            removed_turns: self.removed_turns,
            count: self.count.deep_view(),
            total_reserved: self.total_reserved,
        }
    }
}

impl DeepView for ContextCountAttempt {
    type V = ContextCountAttemptView;

    open spec fn deep_view(&self) -> ContextCountAttemptView {
        self@
    }
}

impl Record for ContextCountAttempt {
    fn is_same(&self, other: &Self) -> (answer: bool) {
        self.removed_turns == other.removed_turns
            && self.count.is_same(&other.count)
            && self.total_reserved == other.total_reserved
    }

    fn duplicate(&self) -> (copy: Self) {
        ContextCountAttempt {
            removed_turns: self.removed_turns,
            count: self.count.duplicate(),
            total_reserved: self.total_reserved,
        }
    }
}

/// How a context came to be, for the host to keep.
#[derive(Debug, PartialEq, Eq)]
pub struct ContextBuildReport {
    pub algorithm_version: u16,
    pub projection_version: u16,
    pub session_id: SessionId,
    pub source_tail: Option<EventId>,
    pub source_event_count: usize,
    pub state_version: Option<String>,
    pub target: ContextTarget,
    pub budget: ContextBudget,
    pub limits: ContextBuildLimits,
    pub system_messages: usize,
    pub current_messages: usize,
    pub turns: Vec<ContextTurnSelection>,
    pub attempts: Vec<ContextCountAttempt>,
}

pub struct ContextBuildReportView {
    pub algorithm_version: u16,
    pub projection_version: u16,
    pub session_id: Seq<char>,
    pub source_tail: Option<Seq<char>>,
    pub source_event_count: usize,
    pub state_version: Option<Seq<char>>,
    pub target: ContextTargetView,
    pub budget: ContextBudget,
    pub limits: ContextBuildLimits,
    pub system_messages: usize,
    pub current_messages: usize,
    pub turns: Seq<ContextTurnSelectionView>,
    pub attempts: Seq<ContextCountAttemptView>,
}

impl ContextBuildReport {
    pub open spec fn view(&self) -> ContextBuildReportView {
        ContextBuildReportView {
            algorithm_version: self.algorithm_version,
            projection_version: self.projection_version,
            session_id: self.session_id@,
            source_tail: self.source_tail.deep_view(),
            source_event_count: self.source_event_count,
            state_version: self.state_version.deep_view(),
            target: self.target.deep_view(),
            budget: self.budget,
            limits: self.limits,
            system_messages: self.system_messages,
            current_messages: self.current_messages,
            turns: self.turns.deep_view(),
            attempts: self.attempts.deep_view(),
        }
    }
}

impl DeepView for ContextBuildReport {
    type V = ContextBuildReportView;

    open spec fn deep_view(&self) -> ContextBuildReportView {
        self@
    }
}

impl Record for ContextBuildReport {
    fn is_same(&self, other: &Self) -> (answer: bool) {
        self.algorithm_version == other.algorithm_version
            && self.projection_version == other.projection_version
            && self.session_id.is_same(&other.session_id)
            && self.source_tail.is_same(&other.source_tail)
            && self.source_event_count == other.source_event_count
            && self.state_version.is_same(&other.state_version)
            && self.target.is_same(&other.target)
            && self.budget == other.budget
            && self.limits == other.limits
            && self.system_messages == other.system_messages
            && self.current_messages == other.current_messages
            && self.turns.is_same(&other.turns)
            && self.attempts.is_same(&other.attempts)
    }

    fn duplicate(&self) -> (copy: Self) {
        ContextBuildReport {
            algorithm_version: self.algorithm_version,
            projection_version: self.projection_version,
            session_id: self.session_id.duplicate(),
            source_tail: self.source_tail.duplicate(),
            source_event_count: self.source_event_count,
            state_version: self.state_version.duplicate(),
            target: self.target.duplicate(),
            budget: self.budget,
            limits: self.limits,
            system_messages: self.system_messages,
            current_messages: self.current_messages,
            turns: self.turns.duplicate(),
            attempts: self.attempts.duplicate(),
        }
    }
}

/// A request within its budget.
#[derive(Debug, PartialEq, Eq)]
pub struct BuiltContext {
    pub request: GenerationRequest,
    pub report: ContextBuildReport,
}

pub struct BuiltContextView {
    pub request: GenerationRequestView,
    pub report: ContextBuildReportView,
}

impl BuiltContext {
    pub open spec fn view(&self) -> BuiltContextView {
        BuiltContextView {
            request: self.request.deep_view(),
            report: self.report.deep_view(),
        }
    }
}

impl DeepView for BuiltContext {
    type V = BuiltContextView;

    open spec fn deep_view(&self) -> BuiltContextView {
        self@
    }
}

impl Record for BuiltContext {
    fn is_same(&self, other: &Self) -> (answer: bool) {
        self.request.is_same(&other.request)
            && self.report.is_same(&other.report)
    }

    fn duplicate(&self) -> (copy: Self) {
        BuiltContext {
            request: self.request.duplicate(),
            report: self.report.duplicate(),
        }
    }
}

/// Why no context was built.
#[derive(Debug, PartialEq, Eq)]
pub enum ContextBuildError {
    Invalid(&'static str),
    Limit(&'static str),
    Shape(ModelProtocolError),
    Counter(ContextCountError),
    /// The count is unverified or bound to another target.
    UnverifiedCount,
    Overflow,
    /// What must stay does not fit.
    DoesNotFit(Box<ContextBuildReport>),
    /// No further attempt to count is allowed.
    CountLimit(Box<ContextBuildReport>),
}

pub enum ContextBuildErrorView {
    Invalid(Seq<char>),
    Limit(Seq<char>),
    Shape(ModelProtocolError),
    Counter(ContextCountErrorView),
    UnverifiedCount,
    Overflow,
    DoesNotFit(ContextBuildReportView),
    CountLimit(ContextBuildReportView),
}

impl ContextBuildError {
    pub open spec fn view(&self) -> ContextBuildErrorView {
        match self {
            ContextBuildError::Invalid(what) => ContextBuildErrorView::Invalid(what@),
            ContextBuildError::Limit(what) => ContextBuildErrorView::Limit(what@),
            ContextBuildError::Shape(e) => ContextBuildErrorView::Shape(*e),
            ContextBuildError::Counter(e) => ContextBuildErrorView::Counter(e@),
            ContextBuildError::UnverifiedCount => ContextBuildErrorView::UnverifiedCount,
            ContextBuildError::Overflow => ContextBuildErrorView::Overflow,
            ContextBuildError::DoesNotFit(report) => ContextBuildErrorView::DoesNotFit(report@),
            ContextBuildError::CountLimit(report) => ContextBuildErrorView::CountLimit(report@),
        }
    }
}

} // verus!
