//! Vocabulary of projections: a log as a conversation.

use crate::generation::{ModelMessage, ModelMessageView};
use crate::id::{EventId, SessionId, TurnId};
use crate::record::Record;
use crate::session::log::PhysicalLogError;
use vstd::prelude::*;

verus! {

/// What becomes of a successful turn without a complete reply.
#[derive(Clone, Copy, Debug, PartialEq, Eq, Structural)]
pub enum LegacyReplyPolicy {
    Reject,
    /// Leave unknown old replies out; completeness is never inferred from deltas.
    Omit,
}

impl DeepView for LegacyReplyPolicy {
    type V = LegacyReplyPolicy;

    open spec fn deep_view(&self) -> LegacyReplyPolicy {
        *self
    }
}

impl Record for LegacyReplyPolicy {
    fn is_same(&self, other: &Self) -> (answer: bool) {
        *self == *other
    }

    fn duplicate(&self) -> (copy: Self) {
        *self
    }
}

/// Limits of a projection.
#[derive(Clone, Copy, Debug, PartialEq, Eq, Structural)]
pub struct ProjectionConfig {
    pub legacy_replies: LegacyReplyPolicy,
    pub max_events: usize,
    /// Bound on the serialized input, metadata included; not a token count.
    pub max_input_bytes: usize,
    pub max_messages: usize,
}

impl DeepView for ProjectionConfig {
    type V = ProjectionConfig;

    open spec fn deep_view(&self) -> ProjectionConfig {
        *self
    }
}

impl Record for ProjectionConfig {
    fn is_same(&self, other: &Self) -> (answer: bool) {
        *self == *other
    }

    fn duplicate(&self) -> (copy: Self) {
        *self
    }
}

impl Default for ProjectionConfig {
    fn default() -> (config: Self)
        ensures
            config == (ProjectionConfig {
                legacy_replies: LegacyReplyPolicy::Reject,
                max_events: 100_000,
                max_input_bytes: 16_777_216,
                max_messages: 50_000,
            }),
    {
        ProjectionConfig {
            legacy_replies: LegacyReplyPolicy::Reject,
            max_events: 100_000,
            max_input_bytes: 16_777_216,
            max_messages: 50_000,
        }
    }
}

/// How a turn ended, as far as it did.
#[derive(Clone, Copy, Debug, PartialEq, Eq, Structural)]
pub enum ProjectedTurnState {
    Completed,
    WaitingForInput,
    Failed,
    Cancelled,
    Open,
}

impl DeepView for ProjectedTurnState {
    type V = ProjectedTurnState;

    open spec fn deep_view(&self) -> ProjectedTurnState {
        *self
    }
}

impl Record for ProjectedTurnState {
    fn is_same(&self, other: &Self) -> (answer: bool) {
        *self == *other
    }

    fn duplicate(&self) -> (copy: Self) {
        *self
    }
}

/// What a group of messages is.
#[derive(Clone, Copy, Debug, PartialEq, Eq, Structural)]
pub enum ProjectionGroupKind {
    User,
    Assistant,
    ToolExchange,
}

impl DeepView for ProjectionGroupKind {
    type V = ProjectionGroupKind;

    open spec fn deep_view(&self) -> ProjectionGroupKind {
        *self
    }
}

impl Record for ProjectionGroupKind {
    fn is_same(&self, other: &Self) -> (answer: bool) {
        *self == *other
    }

    fn duplicate(&self) -> (copy: Self) {
        *self
    }
}

/// Messages that stay together. They are user, model and tool data, never system text.
#[derive(Debug, PartialEq, Eq)]
pub struct ProjectionGroup {
    pub turn_id: TurnId,
    pub kind: ProjectionGroupKind,
    pub source_events: Vec<EventId>,
    pub messages: Vec<ModelMessage>,
}

pub struct ProjectionGroupView {
    pub turn_id: Seq<char>,
    pub kind: ProjectionGroupKind,
    pub source_events: Seq<Seq<char>>,
    pub messages: Seq<ModelMessageView>,
}

impl ProjectionGroup {
    pub open spec fn view(&self) -> ProjectionGroupView {
        ProjectionGroupView {
            turn_id: self.turn_id@,
            kind: self.kind,
            source_events: self.source_events.deep_view(),
            messages: self.messages.deep_view(),
        }
    }
}

impl DeepView for ProjectionGroup {
    type V = ProjectionGroupView;

    open spec fn deep_view(&self) -> ProjectionGroupView {
        self@
    }
}

impl Record for ProjectionGroup {
    fn is_same(&self, other: &Self) -> (answer: bool) {
        self.turn_id.is_same(&other.turn_id)
            && self.kind == other.kind
            && self.source_events.is_same(&other.source_events)
            && self.messages.is_same(&other.messages)
    }

    fn duplicate(&self) -> (copy: Self) {
        ProjectionGroup {
            turn_id: self.turn_id.duplicate(),
            kind: self.kind,
            source_events: self.source_events.duplicate(),
            messages: self.messages.duplicate(),
        }
    }
}

/// Why an event is not part of the conversation.
#[derive(Clone, Copy, Debug, PartialEq, Eq, Structural)]
pub enum OmissionReason {
    Audit,
    ModelAudit,
    StreamDelta,
    UnsuccessfulReply,
}

impl DeepView for OmissionReason {
    type V = OmissionReason;

    open spec fn deep_view(&self) -> OmissionReason {
        *self
    }
}

impl Record for OmissionReason {
    fn is_same(&self, other: &Self) -> (answer: bool) {
        *self == *other
    }

    fn duplicate(&self) -> (copy: Self) {
        *self
    }
}

/// An event left out of the conversation.
#[derive(Debug, PartialEq, Eq)]
pub struct OmittedEvent {
    pub event_id: EventId,
    pub seq: u64,
    pub reason: OmissionReason,
}

pub struct OmittedEventView {
    pub event_id: Seq<char>,
    pub seq: u64,
    pub reason: OmissionReason,
}

impl OmittedEvent {
    pub open spec fn view(&self) -> OmittedEventView {
        OmittedEventView {
            event_id: self.event_id@,
            seq: self.seq,
            reason: self.reason,
        }
    }
}

impl DeepView for OmittedEvent {
    type V = OmittedEventView;

    open spec fn deep_view(&self) -> OmittedEventView {
        self@
    }
}

impl Record for OmittedEvent {
    fn is_same(&self, other: &Self) -> (answer: bool) {
        self.event_id.is_same(&other.event_id)
            && self.seq == other.seq
            && self.reason == other.reason
    }

    fn duplicate(&self) -> (copy: Self) {
        OmittedEvent {
            event_id: self.event_id.duplicate(),
            seq: self.seq,
            reason: self.reason,
        }
    }
}

/// A turn of the conversation.
#[derive(Debug, PartialEq, Eq)]
pub struct ProjectedTurn {
    pub turn_id: TurnId,
    pub state: ProjectedTurnState,
    pub terminal_event: Option<EventId>,
    /// A successful old turn without a complete reply; only `Omit` allows it.
    pub missing_complete_reply: bool,
}

pub struct ProjectedTurnView {
    pub turn_id: Seq<char>,
    pub state: ProjectedTurnState,
    pub terminal_event: Option<Seq<char>>,
    pub missing_complete_reply: bool,
}

impl ProjectedTurn {
    pub open spec fn view(&self) -> ProjectedTurnView {
        ProjectedTurnView {
            turn_id: self.turn_id@,
            state: self.state,
            terminal_event: self.terminal_event.deep_view(),
            missing_complete_reply: self.missing_complete_reply,
        }
    }
}

impl DeepView for ProjectedTurn {
    type V = ProjectedTurnView;

    open spec fn deep_view(&self) -> ProjectedTurnView {
        self@
    }
}

impl Record for ProjectedTurn {
    fn is_same(&self, other: &Self) -> (answer: bool) {
        self.turn_id.is_same(&other.turn_id)
            && self.state == other.state
            && self.terminal_event.is_same(&other.terminal_event)
            && self.missing_complete_reply == other.missing_complete_reply
    }

    fn duplicate(&self) -> (copy: Self) {
        ProjectedTurn {
            turn_id: self.turn_id.duplicate(),
            state: self.state,
            terminal_event: self.terminal_event.duplicate(),
            missing_complete_reply: self.missing_complete_reply,
        }
    }
}

/// The conversation that a session's log holds.
#[derive(Debug, PartialEq, Eq)]
pub struct ConversationProjection {
    /// Version of the projection, not of the session's records.
    pub algorithm_version: u16,
    pub session_id: SessionId,
    pub source_tail: Option<EventId>,
    pub source_event_count: usize,
    pub config: ProjectionConfig,
    pub groups: Vec<ProjectionGroup>,
    pub turns: Vec<ProjectedTurn>,
    pub omitted: Vec<OmittedEvent>,
}

pub struct ConversationProjectionView {
    pub algorithm_version: u16,
    pub session_id: Seq<char>,
    pub source_tail: Option<Seq<char>>,
    pub source_event_count: usize,
    pub config: ProjectionConfig,
    pub groups: Seq<ProjectionGroupView>,
    pub turns: Seq<ProjectedTurnView>,
    pub omitted: Seq<OmittedEventView>,
}

impl ConversationProjection {
    pub open spec fn view(&self) -> ConversationProjectionView {
        ConversationProjectionView {
            algorithm_version: self.algorithm_version,
            session_id: self.session_id@,
            source_tail: self.source_tail.deep_view(),
            source_event_count: self.source_event_count,
            config: self.config,
            groups: self.groups.deep_view(),
            turns: self.turns.deep_view(),
            omitted: self.omitted.deep_view(),
        }
    }
}

impl DeepView for ConversationProjection {
    type V = ConversationProjectionView;

    open spec fn deep_view(&self) -> ConversationProjectionView {
        self@
    }
}

impl Record for ConversationProjection {
    fn is_same(&self, other: &Self) -> (answer: bool) {
        self.algorithm_version == other.algorithm_version
            && self.session_id.is_same(&other.session_id)
            && self.source_tail.is_same(&other.source_tail)
            && self.source_event_count == other.source_event_count
            && self.config == other.config
            && self.groups.is_same(&other.groups)
            && self.turns.is_same(&other.turns)
            && self.omitted.is_same(&other.omitted)
    }

    fn duplicate(&self) -> (copy: Self) {
        ConversationProjection {
            algorithm_version: self.algorithm_version,
            session_id: self.session_id.duplicate(),
            source_tail: self.source_tail.duplicate(),
            source_event_count: self.source_event_count,
            config: self.config,
            groups: self.groups.duplicate(),
            turns: self.turns.duplicate(),
            omitted: self.omitted.duplicate(),
        }
    }
}

/// Why a log cannot be projected.
#[derive(Debug, PartialEq, Eq)]
pub enum ProjectionError {
    Physical(PhysicalLogError),
    /// Invalid limits or an empty session identity.
    InvalidConfig,
    Limit(&'static str),
    Malformed { event_id: EventId, reason: &'static str },
    /// The turn has unconfirmed work, which a projection cannot discard.
    Unconfirmed(TurnId),
    /// The turn has no complete reply; select a policy for old logs.
    MissingReply(TurnId),
}

pub enum ProjectionErrorView {
    Physical(PhysicalLogError),
    InvalidConfig,
    Limit(Seq<char>),
    Malformed { event_id: Seq<char>, reason: Seq<char> },
    Unconfirmed(Seq<char>),
    MissingReply(Seq<char>),
}

impl ProjectionError {
    pub open spec fn view(&self) -> ProjectionErrorView {
        match self {
            ProjectionError::Physical(e) => ProjectionErrorView::Physical(*e),
            ProjectionError::InvalidConfig => ProjectionErrorView::InvalidConfig,
            ProjectionError::Limit(what) => ProjectionErrorView::Limit(what@),
            ProjectionError::Malformed { event_id, reason } => ProjectionErrorView::Malformed {
                event_id: event_id@,
                reason: reason@,
            },
            ProjectionError::Unconfirmed(turn) => ProjectionErrorView::Unconfirmed(turn@),
            ProjectionError::MissingReply(turn) => ProjectionErrorView::MissingReply(turn@),
        }
    }
}

} // verus!
