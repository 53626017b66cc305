//! Requests within a token budget.
//!
//! A context is the system texts, the retained turns of the history and the current
//! conversation, in this order and word for word. Where it does not fit, the oldest
//! turn that is not pinned is left out as a whole and the rest is counted again.

use crate::budget::vocabulary::{TokenBoundEvidence, TokenBudgetMode};
use crate::context::budgeting::{
    BuiltContext, BuiltContextView, ContextBudget, ContextBuildError, ContextBuildErrorView, ContextBuildLimits,
    ContextBuildReport, ContextBuildReportView, ContextCountAttempt, ContextCountAttemptView, ContextCountError,
    ContextCountErrorView, ContextTarget, ContextTargetView, ContextTokenBreakdown, ContextTokenCount,
    ContextTokenCountView, ContextTurnSelection, ContextTurnSelectionView,
};
use crate::context::projector::message_total;
use crate::context::vocabulary::{
    ConversationProjection, ConversationProjectionView, ProjectedTurn, ProjectedTurnState, ProjectedTurnView,
    ProjectionGroup, ProjectionGroupKind, ProjectionGroupView,
};
use crate::generation::{
    GenerationConstraint, GenerationConstraintView, GenerationRequest, GenerationRequestView, ModelMessage,
    ModelMessageView,
};
use crate::generation_shape::{check_messages, messages_fault, shape_fault};
use crate::id::{EventId, TurnId};
use crate::record::{holds, Record};
use crate::text::{blank, is_blank};
use vstd::prelude::*;

verus! {

/// A host's way to count the tokens of a request. Counts are the same whenever target
/// and request are; verified evidence is the host's word for it.
pub trait ContextTokenCounter {
    /// What counting this request for this target gives.
    spec fn counted(&self, target: ContextTargetView, request: GenerationRequestView) -> Result<
        ContextTokenCountView,
        ContextCountErrorView,
    >;

    fn count(&self, target: &ContextTarget, request: &GenerationRequest) -> (result: Result<
        ContextTokenCount,
        ContextCountError,
    >)
        ensures
            match result {
                Ok(count) => self.counted(target@, request@) == Ok::<
                    ContextTokenCountView,
                    ContextCountErrorView,
                >(count@),
                Err(e) => self.counted(target@, request@) == Err::<
                    ContextTokenCountView,
                    ContextCountErrorView,
                >(e@),
            },
    ;
}

/// A quarter of the serialized bytes, rounded up for each item, and a fixed share for
/// the framing. Only an estimate.
#[derive(Clone, Copy, Debug, PartialEq, Eq, Structural)]
pub struct ByteHeuristicCounter {
    pub template_tokens: u64,
}

/// Tokens that so many bytes are taken for.
pub open spec fn heuristic_of(bytes: u64) -> nat {
    (bytes as nat + 3) / 4
}

/// Tokens that so many bytes are taken for.
pub fn heuristic(bytes: u64) -> (tokens: u64)
    ensures
        tokens == heuristic_of(bytes),
{
    if bytes % 4 == 0 {
        bytes / 4
    } else {
        bytes / 4 + 1
    }
}

/// The serialized size of a message, and whether it is system text.
#[derive(Clone, Copy, Debug, PartialEq, Eq, Structural)]
pub struct MessageSize {
    pub is_system: bool,
    pub bytes: u64,
}

/// Tokens of the first `n` messages that are system text, or are not.
pub open spec fn heuristic_total(sizes: Seq<MessageSize>, system: bool) -> nat
    decreases sizes.len(),
{
    if sizes.len() == 0 {
        0
    } else {
        heuristic_total(sizes.drop_last(), system) + if sizes.last().is_system == system {
            heuristic_of(sizes.last().bytes)
        } else {
            0
        }
    }
}

proof fn totals_grow(sizes: Seq<MessageSize>, i: int, system: bool)
    requires
        0 <= i <= sizes.len(),
    ensures
        heuristic_total(sizes.take(i), system) <= heuristic_total(sizes, system),
    decreases sizes.len() - i,
{
    if i == sizes.len() {
        assert(sizes.take(i) =~= sizes);
    } else {
        assert(sizes.take(i + 1).drop_last() =~= sizes.take(i));
        totals_grow(sizes, i + 1, system);
    }
}

impl Default for ByteHeuristicCounter {
    fn default() -> (counter: Self)
        ensures
            counter == (ByteHeuristicCounter { template_tokens: 32 }),
    {
        ByteHeuristicCounter { template_tokens: 32 }
    }
}

impl ByteHeuristicCounter {
    /// The estimate for a request whose serialized sizes are given.
    pub fn count(&self, target: &ContextTarget, sizes: &Vec<MessageSize>, constraint_bytes: u64) -> (result:
        Result<ContextTokenCount, ContextCountError>)
        ensures
            match result {
                Ok(count) => {
                    &&& heuristic_total(sizes@, true) <= u64::MAX
                    &&& heuristic_total(sizes@, false) <= u64::MAX
                    &&& count@.target == target@
                    &&& count@.method == "serialized-utf8-ceil-div4-v1"@
                    &&& count@.evidence == TokenBoundEvidence::Estimate
                    &&& count@.tokens == (ContextTokenBreakdown {
                        system: heuristic_total(sizes@, true) as u64,
                        messages: heuristic_total(sizes@, false) as u64,
                        constraint: heuristic_of(constraint_bytes) as u64,
                        template: self.template_tokens,
                    })
                },
                Err(e) => e@.message == "token overflow"@ && (heuristic_total(sizes@, true)
                    > u64::MAX || heuristic_total(sizes@, false) > u64::MAX),
            },
    {
        let mut system: u64 = 0;
        let mut messages: u64 = 0;
        let mut i: usize = 0;
        assert(sizes@.take(0) =~= Seq::empty());
        while i < sizes.len()
            invariant
                i <= sizes@.len(),
                system == heuristic_total(sizes@.take(i as int), true),
                messages == heuristic_total(sizes@.take(i as int), false),
            decreases sizes@.len() - i,
        {
            proof {
                assert(sizes@.take(i + 1).drop_last() =~= sizes@.take(i as int));
                assert(sizes@.take(i + 1).last() == sizes@[i as int]);
                totals_grow(sizes@, i + 1, true);
                totals_grow(sizes@, i + 1, false);
            }
            let tokens: u64 = heuristic(sizes[i].bytes);
            if sizes[i].is_system {
                match system.checked_add(tokens) {
                    Some(sum) => {
                        system = sum;
                    },
                    None => {
                        return Err(ContextCountError { message: "token overflow".to_owned() });
                    },
                }
            } else {
                match messages.checked_add(tokens) {
                    Some(sum) => {
                        messages = sum;
                    },
                    None => {
                        return Err(ContextCountError { message: "token overflow".to_owned() });
                    },
                }
            }
            i = i + 1;
        }
        assert(sizes@.take(sizes@.len() as int) =~= sizes@);
        let constraint: u64 = heuristic(constraint_bytes);
        Ok(
            ContextTokenCount {
                target: target.duplicate(),
                method: "serialized-utf8-ceil-div4-v1".to_owned(),
                evidence: TokenBoundEvidence::Estimate,
                tokens: ContextTokenBreakdown {
                    system,
                    messages,
                    constraint,
                    template: self.template_tokens,
                },
            },
        )
    }
}

/// A projected history and the current conversation, which is not part of it. The
/// current messages start with the user's, hold no system text, and have all their
/// tool results.
pub struct ContextBuildInput<'a> {
    pub history: &'a ConversationProjection,
    pub system: &'a Vec<String>,
    pub current: &'a Vec<ModelMessage>,
    pub constraint: &'a GenerationConstraint,
    pub pinned_turns: &'a Vec<TurnId>,
    /// The host's name for the state the context belongs to.
    pub state_version: &'a Option<String>,
    pub target: &'a ContextTarget,
    pub budget: ContextBudget,
    pub limits: ContextBuildLimits,
    /// Serialized size of all of the above.
    pub input_bytes: usize,
}

pub struct InputView {
    pub history: ConversationProjectionView,
    pub system: Seq<Seq<char>>,
    pub current: Seq<ModelMessageView>,
    pub constraint: GenerationConstraintView,
    pub pinned: Seq<Seq<char>>,
    pub state_version: Option<Seq<char>>,
    pub target: ContextTargetView,
    pub budget: ContextBudget,
    pub limits: ContextBuildLimits,
    pub input_bytes: usize,
}

impl<'a> ContextBuildInput<'a> {
    pub open spec fn view(&self) -> InputView {
        InputView {
            history: self.history@,
            system: self.system.deep_view(),
            current: self.current.deep_view(),
            constraint: self.constraint@,
            pinned: self.pinned_turns.deep_view(),
            state_version: self.state_version.deep_view(),
            target: self.target@,
            budget: self.budget,
            limits: self.limits,
            input_bytes: self.input_bytes,
        }
    }
}

/// Where the first turn with this identity stands.
pub open spec fn turn_index(turns: Seq<ProjectedTurnView>, id: Seq<char>, k: int) -> Option<int>
    decreases turns.len() - k,
{
    if k < 0 || k >= turns.len() {
        None
    } else if turns[k].turn_id == id {
        Some(k)
    } else {
        turn_index(turns, id, k + 1)
    }
}

/// The `k`th turn is blank, repeats an earlier one or is still open.
pub open spec fn is_bad_turn(turns: Seq<ProjectedTurnView>, k: int) -> bool {
    ||| is_blank(turns[k].turn_id)
    ||| exists|j: int| 0 <= j < k && (#[trigger] turns[j]).turn_id == turns[k].turn_id
    ||| turns[k].state == ProjectedTurnState::Open
}

pub open spec fn has_bad_turn(turns: Seq<ProjectedTurnView>) -> bool {
    exists|k: int| 0 <= k < turns.len() && #[trigger] is_bad_turn(turns, k)
}

/// A pin that repeats an earlier one or names no turn.
pub open spec fn is_bad_pin(pins: Seq<Seq<char>>, turns: Seq<ProjectedTurnView>, k: int) -> bool {
    ||| exists|j: int| 0 <= j < k && #[trigger] pins[j] == pins[k]
    ||| turn_index(turns, pins[k], 0) is None
}

pub open spec fn has_bad_pin(pins: Seq<Seq<char>>, turns: Seq<ProjectedTurnView>) -> bool {
    exists|k: int| 0 <= k < pins.len() && #[trigger] is_bad_pin(pins, turns, k)
}

/// The messages are what the group says it is.
pub open spec fn group_fits(group: ProjectionGroupView) -> bool {
    let m = group.messages;
    match group.kind {
        ProjectionGroupKind::User => m.len() == 1 && m[0] is User,
        ProjectionGroupKind::Assistant => {
            &&& m.len() == 1
            &&& m[0] matches ModelMessageView::Assistant { content, tool_calls }
            &&& content is Some
            &&& tool_calls.len() == 0
        },
        ProjectionGroupKind::ToolExchange => {
            &&& m.len() == 2
            &&& m[0] matches ModelMessageView::Assistant { content, tool_calls }
            &&& m[1] matches ModelMessageView::Tool { call_id, content: answer }
            &&& tool_calls.len() == 1
            &&& tool_calls[0].id == call_id
        },
    }
}

/// What is wrong with the groups from the `i`th on, none of which may belong to a turn
/// before the `last`.
pub open spec fn groups_fault(
    groups: Seq<ProjectionGroupView>,
    turns: Seq<ProjectedTurnView>,
    i: int,
    last: int,
) -> Option<Seq<char>>
    decreases groups.len() - i,
{
    if i >= groups.len() {
        None
    } else {
        match turn_index(turns, groups[i].turn_id, 0) {
            None => Some("unknown group turn"@),
            Some(index) => if index < last || groups[i].source_events.len() == 0 {
                Some("unordered or unsourced group"@)
            } else if !group_fits(groups[i]) {
                Some("invalid projection group shape"@)
            } else {
                groups_fault(groups, turns, i + 1, index)
            },
        }
    }
}

/// Why the input cannot be built from, if so.
pub open spec fn input_fault(input: InputView) -> Option<ContextBuildErrorView> {
    let limits = input.limits;
    let messages = input.system.len() + input.current.len() + message_total(input.history.groups);
    if limits.max_input_bytes == 0 || limits.max_groups == 0 || limits.max_messages == 0
        || limits.max_count_calls == 0 || input.budget.window_tokens == 0
        || input.budget.output_reserve == 0 || is_blank(input.target.model) || is_blank(
        input.target.template_revision,
    ) {
        Some(ContextBuildErrorView::Invalid("zero limit or blank target"@))
    } else if input.budget.mode == TokenBudgetMode::Hard && input.budget.output_evidence
        != TokenBoundEvidence::VerifiedUpperBound {
        Some(ContextBuildErrorView::UnverifiedCount)
    } else if input.history.groups.len() > limits.max_groups || input.history.turns.len()
        > limits.max_groups {
        Some(ContextBuildErrorView::Limit("groups"@))
    } else if input.input_bytes > limits.max_input_bytes {
        Some(ContextBuildErrorView::Limit("input bytes"@))
    } else if messages > usize::MAX {
        Some(ContextBuildErrorView::Overflow)
    } else if messages > limits.max_messages {
        Some(ContextBuildErrorView::Limit("messages"@))
    } else if input.history.algorithm_version != 1 {
        Some(ContextBuildErrorView::Invalid("unsupported projection version"@))
    } else if input.current.len() == 0 || !(input.current[0] is User) || has_system(input.current) {
        Some(
            ContextBuildErrorView::Invalid(
                "current context must start with user and contain no system"@,
            ),
        )
    } else if messages_fault(input.current, 0, Seq::empty()) is Some {
        Some(ContextBuildErrorView::Shape(messages_fault(input.current, 0, Seq::empty())->0))
    } else if has_bad_turn(input.history.turns) {
        Some(ContextBuildErrorView::Invalid("duplicate, blank or open historical turn"@))
    } else if has_bad_pin(input.pinned, input.history.turns) {
        Some(ContextBuildErrorView::Invalid("duplicate or unknown pinned turn"@))
    } else {
        match groups_fault(input.history.groups, input.history.turns, 0, 0) {
            Some(what) => Some(ContextBuildErrorView::Invalid(what)),
            None => None,
        }
    }
}

pub open spec fn has_system(messages: Seq<ModelMessageView>) -> bool {
    exists|i: int| 0 <= i < messages.len() && (#[trigger] messages[i]) is System
}

proof fn totals_of_groups_grow(groups: Seq<ProjectionGroupView>, i: int)
    requires
        0 <= i <= groups.len(),
    ensures
        message_total(groups.take(i)) <= message_total(groups),
    decreases groups.len() - i,
{
    if i == groups.len() {
        assert(groups.take(i) =~= groups);
    } else {
        assert(groups.take(i + 1).drop_last() =~= groups.take(i));
        totals_of_groups_grow(groups, i + 1);
    }
}

/// How many messages there are, if that is a number.
fn count_messages(first: usize, second: usize, groups: &Vec<ProjectionGroup>) -> (count: Option<usize>)
    ensures
        match count {
            Some(n) => n == first + second + message_total(groups.deep_view()),
            None => first + second + message_total(groups.deep_view()) > usize::MAX,
        },
{
    let ghost views = groups.deep_view();
    let mut count: usize = match first.checked_add(second) {
        Some(sum) => sum,
        None => {
            return None;
        },
    };
    let mut i: usize = 0;
    assert(views.take(0) =~= Seq::empty());
    while i < groups.len()
        invariant
            i <= groups@.len(),
            views == groups.deep_view(),
            count == first + second + message_total(views.take(i as int)),
        decreases groups@.len() - i,
    {
        proof {
            assert(views[i as int] == groups@[i as int]@);
            assert(views.take(i + 1).drop_last() =~= views.take(i as int));
            assert(views.take(i + 1).last() == views[i as int]);
            totals_of_groups_grow(views, i + 1);
        }
        match count.checked_add(groups[i].messages.len()) {
            Some(sum) => {
                count = sum;
            },
            None => {
                return None;
            },
        }
        i = i + 1;
    }
    assert(views.take(views.len() as int) =~= views);
    Some(count)
}

fn holds_system(messages: &Vec<ModelMessage>) -> (answer: bool)
    ensures
        answer == has_system(messages.deep_view()),
{
    let ghost views = messages.deep_view();
    let mut i: usize = 0;
    while i < messages.len()
        invariant
            i <= messages@.len(),
            views == messages.deep_view(),
            forall|k: int| 0 <= k < i ==> !((#[trigger] views[k]) is System),
        decreases messages@.len() - i,
    {
        assert(views[i as int] == messages@[i as int]@);
        match &messages[i] {
            ModelMessage::System { .. } => {
                return true;
            },
            _ => {},
        }
        i = i + 1;
    }
    false
}

fn find_turn(turns: &Vec<ProjectedTurn>, id: &TurnId) -> (index: Option<usize>)
    ensures
        match index {
            Some(k) => turn_index(turns.deep_view(), id@, 0) == Some(k as int) && k < turns@.len(),
            None => turn_index(turns.deep_view(), id@, 0) is None,
        },
{
    let ghost views = turns.deep_view();
    let mut k: usize = 0;
    while k < turns.len()
        invariant
            k <= turns@.len(),
            views == turns.deep_view(),
            turn_index(views, id@, 0) == turn_index(views, id@, k as int),
        decreases turns@.len() - k,
    {
        assert(views[k as int] == turns@[k as int]@);
        if turns[k].turn_id.is_same(id) {
            return Some(k);
        }
        k = k + 1;
    }
    None
}

fn find_bad_turn(turns: &Vec<ProjectedTurn>) -> (answer: bool)
    ensures
        answer == has_bad_turn(turns.deep_view()),
{
    let ghost views = turns.deep_view();
    let mut k: usize = 0;
    while k < turns.len()
        invariant
            k <= turns@.len(),
            views == turns.deep_view(),
            forall|m: int| 0 <= m < k ==> !(#[trigger] is_bad_turn(views, m)),
        decreases turns@.len() - k,
    {
        assert(views[k as int] == turns@[k as int]@);
        if blank(turns[k].turn_id.as_str()) || turns[k].state == ProjectedTurnState::Open {
            assert(is_bad_turn(views, k as int));
            return true;
        }
        let mut j: usize = 0;
        while j < k
            invariant
                j <= k < turns@.len(),
                views == turns.deep_view(),
                forall|m: int| 0 <= m < j ==> (#[trigger] views[m]).turn_id != views[k as int].turn_id,
            decreases k - j,
        {
            assert(views[k as int] == turns@[k as int]@);
            assert(views[j as int] == turns@[j as int]@);
            if turns[j].turn_id.is_same(&turns[k].turn_id) {
                assert(is_bad_turn(views, k as int));
                return true;
            }
            j = j + 1;
        }
        k = k + 1;
    }
    false
}

fn find_bad_pin(pins: &Vec<TurnId>, turns: &Vec<ProjectedTurn>) -> (answer: bool)
    ensures
        answer == has_bad_pin(pins.deep_view(), turns.deep_view()),
{
    let ghost views = pins.deep_view();
    let ghost known = turns.deep_view();
    let mut k: usize = 0;
    while k < pins.len()
        invariant
            k <= pins@.len(),
            views == pins.deep_view(),
            known == turns.deep_view(),
            forall|m: int| 0 <= m < k ==> !(#[trigger] is_bad_pin(views, known, m)),
        decreases pins@.len() - k,
    {
        assert(views[k as int] == pins@[k as int]@);
        if find_turn(turns, &pins[k]).is_none() {
            assert(is_bad_pin(views, known, k as int));
            return true;
        }
        let mut j: usize = 0;
        while j < k
            invariant
                j <= k < pins@.len(),
                views == pins.deep_view(),
                known == turns.deep_view(),
                forall|m: int| 0 <= m < j ==> (#[trigger] views[m]) != views[k as int],
            decreases k - j,
        {
            assert(views[k as int] == pins@[k as int]@);
            assert(views[j as int] == pins@[j as int]@);
            if pins[j].is_same(&pins[k]) {
                assert(is_bad_pin(views, known, k as int));
                return true;
            }
            j = j + 1;
        }
        k = k + 1;
    }
    false
}

fn fits_kind(group: &ProjectionGroup) -> (answer: bool)
    ensures
        answer == group_fits(group@),
{
    let n: usize = group.messages.len();
    match group.kind {
        ProjectionGroupKind::User => {
            if n != 1 {
                return false;
            }
            assert(group@.messages[0] == group.messages@[0]@);
            match &group.messages[0] {
                ModelMessage::User { .. } => true,
                _ => false,
            }
        },
        ProjectionGroupKind::Assistant => {
            if n != 1 {
                return false;
            }
            assert(group@.messages[0] == group.messages@[0]@);
            match &group.messages[0] {
                ModelMessage::Assistant { content, tool_calls } => content.is_some()
                    && tool_calls.len() == 0,
                _ => false,
            }
        },
        ProjectionGroupKind::ToolExchange => {
            if n != 2 {
                return false;
            }
            assert(group@.messages[0] == group.messages@[0]@);
            assert(group@.messages[1] == group.messages@[1]@);
            match (&group.messages[0], &group.messages[1]) {
                (
                    ModelMessage::Assistant { content: _, tool_calls },
                    ModelMessage::Tool { call_id, content: _ },
                ) => {
                    if tool_calls.len() != 1 {
                        return false;
                    }
                    assert(tool_calls.deep_view()[0] == tool_calls@[0]@);
                    tool_calls[0].id.is_same(call_id)
                },
                _ => false,
            }
        },
    }
}

fn check_groups(groups: &Vec<ProjectionGroup>, turns: &Vec<ProjectedTurn>) -> (fault: Option<
    &'static str,
>)
    ensures
        match fault {
            Some(what) => groups_fault(groups.deep_view(), turns.deep_view(), 0, 0) == Some(what@),
            None => groups_fault(groups.deep_view(), turns.deep_view(), 0, 0) is None,
        },
{
    let ghost views = groups.deep_view();
    let ghost known = turns.deep_view();
    let mut last: usize = 0;
    let mut i: usize = 0;
    while i < groups.len()
        invariant
            i <= groups@.len(),
            views == groups.deep_view(),
            known == turns.deep_view(),
            groups_fault(views, known, 0, 0) == groups_fault(views, known, i as int, last as int),
        decreases groups@.len() - i,
    {
        assert(views[i as int] == groups@[i as int]@);
        let index: usize = match find_turn(turns, &groups[i].turn_id) {
            Some(index) => index,
            None => {
                return Some("unknown group turn");
            },
        };
        if index < last || groups[i].source_events.len() == 0 {
            return Some("unordered or unsourced group");
        }
        if !fits_kind(&groups[i]) {
            return Some("invalid projection group shape");
        }
        last = index;
        i = i + 1;
    }
    None
}

/// Checks everything about the input but the count of its tokens.
pub fn validate_input(input: &ContextBuildInput<'_>) -> (result: Result<(), ContextBuildError>)
    ensures
        match result {
            Ok(_) => input_fault(input@) is None,
            Err(e) => input_fault(input@) == Some(e@),
        },
{
    let limits = input.limits;
    if limits.max_input_bytes == 0 || limits.max_groups == 0 || limits.max_messages == 0
        || limits.max_count_calls == 0 || input.budget.window_tokens == 0
        || input.budget.output_reserve == 0 || blank(input.target.model.as_str()) || blank(
        input.target.template_revision.as_str(),
    ) {
        return Err(ContextBuildError::Invalid("zero limit or blank target"));
    }
    if input.budget.mode == TokenBudgetMode::Hard && input.budget.output_evidence
        != TokenBoundEvidence::VerifiedUpperBound {
        return Err(ContextBuildError::UnverifiedCount);
    }
    if input.history.groups.len() > limits.max_groups || input.history.turns.len()
        > limits.max_groups {
        return Err(ContextBuildError::Limit("groups"));
    }
    if input.input_bytes > limits.max_input_bytes {
        return Err(ContextBuildError::Limit("input bytes"));
    }
    match count_messages(input.system.len(), input.current.len(), &input.history.groups) {
        None => {
            return Err(ContextBuildError::Overflow);
        },
        Some(count) => {
            if count > limits.max_messages {
                return Err(ContextBuildError::Limit("messages"));
            }
        },
    }
    if input.history.algorithm_version != 1 {
        return Err(ContextBuildError::Invalid("unsupported projection version"));
    }
    let starts: bool = if input.current.len() == 0 {
        false
    } else {
        assert(input@.current[0] == input.current@[0]@);
        match &input.current[0] {
            ModelMessage::User { .. } => true,
            _ => false,
        }
    };
    if !starts || holds_system(input.current) {
        return Err(
            ContextBuildError::Invalid("current context must start with user and contain no system"),
        );
    }
    match check_messages(input.current) {
        Err(e) => {
            return Err(ContextBuildError::Shape(e));
        },
        Ok(_) => {},
    }
    if find_bad_turn(&input.history.turns) {
        return Err(ContextBuildError::Invalid("duplicate, blank or open historical turn"));
    }
    if find_bad_pin(input.pinned_turns, &input.history.turns) {
        return Err(ContextBuildError::Invalid("duplicate or unknown pinned turn"));
    }
    match check_groups(&input.history.groups, &input.history.turns) {
        Some(what) => Err(ContextBuildError::Invalid(what)),
        None => Ok(()),
    }
}

/// The events that a turn's groups rest on.
pub open spec fn sources_of(groups: Seq<ProjectionGroupView>, turn: Seq<char>) -> Seq<Seq<char>>
    decreases groups.len(),
{
    if groups.len() == 0 {
        Seq::empty()
    } else {
        let before = sources_of(groups.drop_last(), turn);
        if groups.last().turn_id == turn {
            before + groups.last().source_events
        } else {
            before
        }
    }
}

/// Every turn of the history, all retained; the pinned ones stay.
pub open spec fn all_retained(input: InputView) -> Seq<ContextTurnSelectionView> {
    input.history.turns.map_values(
        |turn: ProjectedTurnView|
            ContextTurnSelectionView {
                turn_id: turn.turn_id,
                source_events: sources_of(input.history.groups, turn.turn_id),
                retained: true,
                protected: input.pinned.contains(turn.turn_id),
            },
    )
}

/// A retained turn has this identity.
pub open spec fn retains(turns: Seq<ContextTurnSelectionView>, id: Seq<char>) -> bool {
    exists|k: int|
        0 <= k < turns.len() && (#[trigger] turns[k]).retained && turns[k].turn_id == id
}

/// The messages of the groups whose turns are retained.
pub open spec fn retained_messages(
    groups: Seq<ProjectionGroupView>,
    turns: Seq<ContextTurnSelectionView>,
) -> Seq<ModelMessageView>
    decreases groups.len(),
{
    if groups.len() == 0 {
        Seq::empty()
    } else {
        let before = retained_messages(groups.drop_last(), turns);
        if retains(turns, groups.last().turn_id) {
            before + groups.last().messages
        } else {
            before
        }
    }
}

pub open spec fn system_messages(texts: Seq<Seq<char>>) -> Seq<ModelMessageView> {
    texts.map_values(|text: Seq<char>| ModelMessageView::System { content: text })
}

/// The request: system texts, retained history, current conversation.
pub open spec fn assembled(input: InputView, turns: Seq<ContextTurnSelectionView>) -> GenerationRequestView {
    GenerationRequestView {
        messages: system_messages(input.system) + retained_messages(input.history.groups, turns)
            + input.current,
        constraint: input.constraint,
    }
}

/// The report at the start, before anything was counted.
pub open spec fn first_report(input: InputView) -> ContextBuildReportView {
    ContextBuildReportView {
        algorithm_version: 1,
        projection_version: input.history.algorithm_version,
        session_id: input.history.session_id,
        source_tail: input.history.source_tail,
        source_event_count: input.history.source_event_count,
        state_version: input.state_version,
        target: input.target,
        budget: input.budget,
        limits: input.limits,
        system_messages: input.system.len() as usize,
        current_messages: input.current.len() as usize,
        turns: all_retained(input),
        attempts: Seq::empty(),
    }
}

/// What a count comes to: everything that has to be reserved, or why it does not serve.
pub open spec fn judged(
    count: ContextTokenCountView,
    target: ContextTargetView,
    budget: ContextBudget,
) -> Result<u64, ContextBuildErrorView> {
    let total = count.tokens.sum() + budget.output_reserve + budget.safety_margin;
    if count.target != target || is_blank(count.method) || (budget.mode == TokenBudgetMode::Hard
        && count.evidence != TokenBoundEvidence::VerifiedUpperBound) {
        Err(ContextBuildErrorView::UnverifiedCount)
    } else if count.tokens.sum() > u64::MAX {
        Err(ContextBuildErrorView::Overflow)
    } else if count.tokens.sum() == 0 {
        Err(ContextBuildErrorView::Invalid("zero input count"@))
    } else if total > u64::MAX {
        Err(ContextBuildErrorView::Overflow)
    } else {
        Ok(total as u64)
    }
}

/// What a count comes to. The reserve is within range.
pub fn judge_count(count: &ContextTokenCount, target: &ContextTarget, budget: &ContextBudget) -> (result: Result<
    u64,
    ContextBuildError,
>)
    requires
        budget.output_reserve + budget.safety_margin <= u64::MAX,
    ensures
        match result {
            Ok(total) => judged(count@, target@, *budget) == Ok::<u64, ContextBuildErrorView>(
                total,
            ),
            Err(e) => judged(count@, target@, *budget) == Err::<u64, ContextBuildErrorView>(e@),
        },
{
    if !count.target.is_same(target) || blank(count.method.as_str()) || (budget.mode
        == TokenBudgetMode::Hard && count.evidence != TokenBoundEvidence::VerifiedUpperBound) {
        return Err(ContextBuildError::UnverifiedCount);
    }
    let input_tokens: u64 = match count.tokens.total() {
        Some(total) => total,
        None => {
            return Err(ContextBuildError::Overflow);
        },
    };
    if input_tokens == 0 {
        return Err(ContextBuildError::Invalid("zero input count"));
    }
    match input_tokens.checked_add(budget.output_reserve + budget.safety_margin) {
        Some(total) => Ok(total),
        None => Err(ContextBuildError::Overflow),
    }
}

/// The oldest turn that may still be left out.
pub open spec fn first_removable(turns: Seq<ContextTurnSelectionView>, k: int) -> Option<int>
    decreases turns.len() - k,
{
    if k < 0 || k >= turns.len() {
        None
    } else if turns[k].retained && !turns[k].protected {
        Some(k)
    } else {
        first_removable(turns, k + 1)
    }
}

pub open spec fn without_turn(turns: Seq<ContextTurnSelectionView>, k: int) -> Seq<ContextTurnSelectionView> {
    turns.update(k, ContextTurnSelectionView { retained: false, ..turns[k] })
}

/// Counting and leaving out, from a report on.
pub open spec fn built_from<C: ContextTokenCounter>(
    counter: C,
    input: InputView,
    report: ContextBuildReportView,
) -> Result<BuiltContextView, ContextBuildErrorView>
    decreases input.limits.max_count_calls - report.attempts.len(),
    when report.attempts.len() < input.limits.max_count_calls
{
    let request = assembled(input, report.turns);
    match shape_fault(request) {
        Some(fault) => Err(ContextBuildErrorView::Shape(fault)),
        None => match counter.counted(input.target, request) {
            Err(e) => Err(ContextBuildErrorView::Counter(e)),
            Ok(count) => match judged(count, input.target, input.budget) {
                Err(e) => Err(e),
                Ok(total) => {
                    let counted = ContextBuildReportView {
                        attempts: report.attempts.push(
                            ContextCountAttemptView {
                                removed_turns: report.attempts.len() as usize,
                                count,
                                total_reserved: total,
                            },
                        ),
                        ..report
                    };
                    if total <= input.budget.window_tokens {
                        Ok(BuiltContextView { request, report: counted })
                    } else {
                        match first_removable(report.turns, 0) {
                            None => Err(ContextBuildErrorView::DoesNotFit(counted)),
                            Some(k) => if counted.attempts.len() == input.limits.max_count_calls {
                                Err(ContextBuildErrorView::CountLimit(counted))
                            } else {
                                built_from(
                                    counter,
                                    input,
                                    ContextBuildReportView {
                                        turns: without_turn(report.turns, k),
                                        ..counted
                                    },
                                )
                            },
                        }
                    }
                },
            },
        },
    }
}

/// What building a context gives.
pub open spec fn built<C: ContextTokenCounter>(counter: C, input: InputView) -> Result<
    BuiltContextView,
    ContextBuildErrorView,
> {
    match input_fault(input) {
        Some(fault) => Err(fault),
        None => if input.budget.output_reserve + input.budget.safety_margin > u64::MAX {
            Err(ContextBuildErrorView::Overflow)
        } else {
            built_from(counter, input, first_report(input))
        },
    }
}

fn list_sources(groups: &Vec<ProjectionGroup>, turn: &TurnId) -> (sources: Vec<EventId>)
    ensures
        sources.deep_view() == sources_of(groups.deep_view(), turn@),
{
    let ghost views = groups.deep_view();
    let mut sources: Vec<EventId> = Vec::new();
    let mut i: usize = 0;
    assert(views.take(0) =~= Seq::empty());
    assert(sources.deep_view() =~= Seq::empty());
    while i < groups.len()
        invariant
            i <= groups@.len(),
            views == groups.deep_view(),
            sources.deep_view() == sources_of(views.take(i as int), turn@),
        decreases groups@.len() - i,
    {
        proof {
            assert(views[i as int] == groups@[i as int]@);
            assert(views.take(i + 1).drop_last() =~= views.take(i as int));
            assert(views.take(i + 1).last() == views[i as int]);
        }
        if groups[i].turn_id.is_same(turn) {
            let mut more = groups[i].source_events.duplicate();
            let ghost before = sources.deep_view();
            let ghost added = more.deep_view();
            sources.append(&mut more);
            assert(sources.deep_view() =~= before + added);
        }
        i = i + 1;
    }
    assert(views.take(views.len() as int) =~= views);
    sources
}

fn select_all(input: &ContextBuildInput<'_>) -> (turns: Vec<ContextTurnSelection>)
    ensures
        turns.deep_view() == all_retained(input@),
{
    let ghost wanted = all_retained(input@);
    let mut turns: Vec<ContextTurnSelection> = Vec::new();
    let mut i: usize = 0;
    while i < input.history.turns.len()
        invariant
            i <= input.history.turns@.len(),
            wanted == all_retained(input@),
            turns@.len() == i,
            forall|k: int| 0 <= k < i ==> (#[trigger] turns@[k])@ == wanted[k],
        decreases input.history.turns@.len() - i,
    {
        assert(input@.history.turns[i as int] == input.history.turns@[i as int]@);
        let id = &input.history.turns[i].turn_id;
        turns.push(
            ContextTurnSelection {
                turn_id: id.duplicate(),
                source_events: list_sources(&input.history.groups, id),
                retained: true,
                protected: holds(input.pinned_turns, id),
            },
        );
        i = i + 1;
    }
    assert(turns.deep_view() =~= wanted);
    turns
}

fn is_retained(turns: &Vec<ContextTurnSelection>, id: &TurnId) -> (answer: bool)
    ensures
        answer == retains(turns.deep_view(), id@),
{
    let ghost views = turns.deep_view();
    let mut k: usize = 0;
    while k < turns.len()
        invariant
            k <= turns@.len(),
            views == turns.deep_view(),
            forall|m: int| 0 <= m < k ==> !((#[trigger] views[m]).retained && views[m].turn_id == id@),
        decreases turns@.len() - k,
    {
        assert(views[k as int] == turns@[k as int]@);
        if turns[k].retained && turns[k].turn_id.is_same(id) {
            return true;
        }
        k = k + 1;
    }
    false
}

/// The request of a selection.
fn assemble(input: &ContextBuildInput<'_>, turns: &Vec<ContextTurnSelection>) -> (request: GenerationRequest)
    ensures
        request@ == assembled(input@, turns.deep_view()),
{
    let ghost wanted = assembled(input@, turns.deep_view());
    let ghost texts = input@.system;
    let ghost head = system_messages(texts);
    let mut messages: Vec<ModelMessage> = Vec::new();
    let mut i: usize = 0;
    while i < input.system.len()
        invariant
            i <= input.system@.len(),
            texts == input.system.deep_view(),
            head == system_messages(texts),
            messages@.len() == i,
            forall|k: int| 0 <= k < i ==> (#[trigger] messages@[k])@ == head[k],
        decreases input.system@.len() - i,
    {
        assert(texts[i as int] == input.system@[i as int]@);
        messages.push(ModelMessage::System { content: input.system[i].clone() });
        i = i + 1;
    }
    assert(messages.deep_view() =~= head);
    let ghost groups = input@.history.groups;
    let ghost chosen = turns.deep_view();
    let mut i: usize = 0;
    assert(groups.take(0) =~= Seq::empty());
    assert(head + Seq::<ModelMessageView>::empty() =~= head);
    while i < input.history.groups.len()
        invariant
            i <= input.history.groups@.len(),
            groups == input.history.groups.deep_view(),
            chosen == turns.deep_view(),
            messages.deep_view() == head + retained_messages(groups.take(i as int), chosen),
        decreases input.history.groups@.len() - i,
    {
        proof {
            assert(groups[i as int] == input.history.groups@[i as int]@);
            assert(groups.take(i + 1).drop_last() =~= groups.take(i as int));
            assert(groups.take(i + 1).last() == groups[i as int]);
        }
        if is_retained(turns, &input.history.groups[i].turn_id) {
            let mut more = input.history.groups[i].messages.duplicate();
            let ghost before = messages.deep_view();
            let ghost added = more.deep_view();
            messages.append(&mut more);
            assert(messages.deep_view() =~= before + added);
            assert(messages.deep_view() =~= head + retained_messages(groups.take(i + 1), chosen));
        }
        i = i + 1;
    }
    assert(groups.take(groups.len() as int) =~= groups);
    let mut current = input.current.duplicate();
    let ghost before = messages.deep_view();
    let ghost added = current.deep_view();
    messages.append(&mut current);
    assert(messages.deep_view() =~= before + added);
    GenerationRequest { messages, constraint: input.constraint.duplicate() }
}

fn find_removable(turns: &Vec<ContextTurnSelection>) -> (index: Option<usize>)
    ensures
        match index {
            Some(k) => k < turns@.len() && first_removable(turns.deep_view(), 0) == Some(k as int),
            None => first_removable(turns.deep_view(), 0) is None,
        },
{
    let ghost views = turns.deep_view();
    let mut k: usize = 0;
    while k < turns.len()
        invariant
            k <= turns@.len(),
            views == turns.deep_view(),
            first_removable(views, 0) == first_removable(views, k as int),
        decreases turns@.len() - k,
    {
        assert(views[k as int] == turns@[k as int]@);
        if turns[k].retained && !turns[k].protected {
            return Some(k);
        }
        k = k + 1;
    }
    None
}

/// Leaves out the oldest turns that are not pinned. Never edits text, schemas or roles.
#[derive(Clone, Copy, Debug, PartialEq, Eq, Structural)]
pub struct CanonicalContextBuilder;

impl CanonicalContextBuilder {
    pub fn build<C: ContextTokenCounter>(&self, input: &ContextBuildInput<'_>, counter: &C) -> (result: Result<
        BuiltContext,
        ContextBuildError,
    >)
        ensures
            match result {
                Ok(context) => built(*counter, input@) == Ok::<
                    BuiltContextView,
                    ContextBuildErrorView,
                >(context@),
                Err(e) => built(*counter, input@) == Err::<BuiltContextView, ContextBuildErrorView>(
                    e@,
                ),
            },
    {
        match validate_input(input) {
            Err(e) => {
                return Err(e);
            },
            Ok(_) => {},
        }
        if input.budget.output_reserve.checked_add(input.budget.safety_margin).is_none() {
            return Err(ContextBuildError::Overflow);
        }
        let mut report = ContextBuildReport {
            algorithm_version: 1,
            projection_version: input.history.algorithm_version,
            session_id: input.history.session_id.duplicate(),
            source_tail: input.history.source_tail.duplicate(),
            source_event_count: input.history.source_event_count,
            state_version: input.state_version.duplicate(),
            target: input.target.duplicate(),
            budget: input.budget,
            limits: input.limits,
            system_messages: input.system.len(),
            current_messages: input.current.len(),
            turns: select_all(input),
            attempts: Vec::new(),
        };
        proof {
            assert(report@.attempts =~= Seq::empty());
            assert(report@ == first_report(input@));
        }
        loop
            invariant
                input_fault(input@) is None,
                input.budget.output_reserve + input.budget.safety_margin <= u64::MAX,
                report.attempts@.len() < input.limits.max_count_calls,
                built(*counter, input@) == built_from(*counter, input@, report@),
            decreases input.limits.max_count_calls - report.attempts@.len(),
        {
            let request = assemble(input, &report.turns);
            match request.validate_shape() {
                Err(e) => {
                    return Err(ContextBuildError::Shape(e));
                },
                Ok(_) => {},
            }
            let count = match counter.count(input.target, &request) {
                Ok(count) => count,
                Err(e) => {
                    return Err(ContextBuildError::Counter(e));
                },
            };
            let total: u64 = match judge_count(&count, input.target, &input.budget) {
                Ok(total) => total,
                Err(e) => {
                    return Err(e);
                },
            };
            let attempt = ContextCountAttempt {
                removed_turns: report.attempts.len(),
                count,
                total_reserved: total,
            };
            let ghost before = report@;
            report.attempts.push(attempt);
            assert(report@.attempts =~= before.attempts.push(attempt@));
            if total <= input.budget.window_tokens {
                return Ok(BuiltContext { request, report });
            }
            let index: usize = match find_removable(&report.turns) {
                Some(index) => index,
                None => {
                    return Err(ContextBuildError::DoesNotFit(Box::new(report)));
                },
            };
            if report.attempts.len() == input.limits.max_count_calls {
                return Err(ContextBuildError::CountLimit(Box::new(report)));
            }
            let ghost counted = report@;
            let turn = &report.turns[index];
            let left = ContextTurnSelection {
                turn_id: turn.turn_id.duplicate(),
                source_events: turn.source_events.duplicate(),
                retained: false,
                protected: turn.protected,
            };
            assert(counted.turns[index as int] == report.turns@[index as int]@);
            report.turns.set(index, left);
            assert(report@.turns =~= without_turn(counted.turns, index as int));
        }
    }
}

/// The selection is what leaving out the oldest unpinned turns, one after the other,
/// can give.
pub open spec fn drops_oldest(turns: Seq<ContextTurnSelectionView>) -> bool {
    &&& forall|k: int| 0 <= k < turns.len() && (#[trigger] turns[k]).protected ==> turns[k].retained
    &&& forall|j: int, k: int|
        0 <= j < k < turns.len() && !(#[trigger] turns[k]).retained && !(
        #[trigger] turns[j]).protected ==> !turns[j].retained
}

proof fn removable_is_first(turns: Seq<ContextTurnSelectionView>, k: int)
    requires
        0 <= k,
    ensures
        match first_removable(turns, k) {
            Some(i) => k <= i < turns.len() && turns[i].retained && !turns[i].protected && forall|
                j: int,
            |
                k <= j < i && !(#[trigger] turns[j]).protected ==> !turns[j].retained,
            None => true,
        },
    decreases turns.len() - k,
{
    if k < turns.len() {
        removable_is_first(turns, k + 1);
    }
}

proof fn selections_stay_ordered<C: ContextTokenCounter>(
    counter: C,
    input: InputView,
    report: ContextBuildReportView,
)
    requires
        report.attempts.len() < input.limits.max_count_calls,
        drops_oldest(report.turns),
    ensures
        built_from(counter, input, report) matches Ok(context) ==> {
            &&& drops_oldest(context.report.turns)
            &&& context.request == assembled(input, context.report.turns)
            &&& shape_fault(context.request) is None
            &&& context.report.attempts.len() > 0
            &&& context.report.attempts.last().total_reserved <= input.budget.window_tokens
            &&& context.report.attempts.last().total_reserved
                == context.report.attempts.last().count.tokens.sum() + input.budget.output_reserve
                + input.budget.safety_margin
            &&& counter.counted(input.target, context.request) == Ok::<
                ContextTokenCountView,
                ContextCountErrorView,
            >(context.report.attempts.last().count)
            &&& context.report.attempts.len() <= input.limits.max_count_calls
            &&& context.report.turns.len() == report.turns.len()
            &&& forall|k: int|
                0 <= k < report.turns.len() ==> (#[trigger] context.report.turns[k]).turn_id
                    == report.turns[k].turn_id && context.report.turns[k].protected
                    == report.turns[k].protected
        },
    decreases input.limits.max_count_calls - report.attempts.len(),
{
    let request = assembled(input, report.turns);
    if let Ok(count) = counter.counted(input.target, request) {
        if let Ok(total) = judged(count, input.target, input.budget) {
            removable_is_first(report.turns, 0);
            let counted = ContextBuildReportView {
                attempts: report.attempts.push(
                    ContextCountAttemptView {
                        removed_turns: report.attempts.len() as usize,
                        count,
                        total_reserved: total,
                    },
                ),
                ..report
            };
            if total > input.budget.window_tokens && shape_fault(request) is None {
                if let Some(k) = first_removable(report.turns, 0) {
                    if counted.attempts.len() < input.limits.max_count_calls {
                        let turns = without_turn(report.turns, k);
                        assert(drops_oldest(turns));
                        selections_stay_ordered(
                            counter,
                            input,
                            ContextBuildReportView { turns, ..counted },
                        );
                    }
                }
            }
        }
    }
}

/// A context that was built fits its window by the count of exactly the request it
/// holds, keeps every pinned turn, and leaves out a turn only where every older turn
/// that is not pinned is left out too.
pub proof fn built_contexts_fit<C: ContextTokenCounter>(counter: C, input: InputView)
    ensures
        built(counter, input) matches Ok(context) ==> {
            let last = context.report.attempts.last();
            &&& counter.counted(input.target, context.request) == Ok::<
                ContextTokenCountView,
                ContextCountErrorView,
            >(last.count)
            &&& last.count.tokens.sum() + input.budget.output_reserve + input.budget.safety_margin
                <= input.budget.window_tokens
            &&& context.request == assembled(input, context.report.turns)
            &&& shape_fault(context.request) is None
            &&& drops_oldest(context.report.turns)
            &&& context.report.turns.len() == input.history.turns.len()
            &&& forall|k: int|
                0 <= k < input.history.turns.len() && input.pinned.contains(
                    (#[trigger] input.history.turns[k]).turn_id,
                ) ==> context.report.turns[k].retained
        },
{
    if input_fault(input) is None {
        let report = first_report(input);
        assert(drops_oldest(report.turns));
        selections_stay_ordered(counter, input, report);
        if let Ok(context) = built(counter, input) {
            assert forall|k: int|
                0 <= k < input.history.turns.len() && input.pinned.contains(
                    (#[trigger] input.history.turns[k]).turn_id,
                ) implies context.report.turns[k].retained by {
                assert(report.turns[k].protected);
                assert(context.report.turns[k].protected);
            }
        }
    }
}

} // verus!
