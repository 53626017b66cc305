//! Snapshots of a task between its turns. A snapshot is data: it lets nobody run
//! anything and restores no ledger.

use crate::budget::checkpoint::{BudgetEventCursor, CursorView};
use crate::budget::execution;
use crate::budget::execution::verify_checkpoint_history;
use crate::budget::sealed::{BudgetCheckpoint, CheckpointView};
use crate::budget::vocabulary::{BudgetAmounts, BudgetIdentity, BudgetResource, IdentityView, TaskRunStop};
use crate::id::StepId;
use crate::json::{same_value, Json};
use crate::record::Record;
use crate::session::event::{DoneStatus, SessionEvent, SessionEventKind, SessionEventKindView, SessionEventView};
use crate::task::history;
use crate::task::history::{
    assess_task_history, is_naming, unnamed, valid_text, TaskHistoryBoundary, TaskStateError,
    MAX_TASK_STEPS,
};
use crate::text::{is_bounded_text, same_text, text_within};
use crate::text_order::{comes_before, is_ascending, text_before, text_before_is_transitive};
use vstd::prelude::*;

verus! {

pub const MAX_TASK_SNAPSHOT_BYTES: usize = 524_288;

pub const MAX_TOOL_REVISIONS: usize = 1024;

pub const MAX_PAYLOADS: usize = 128;

pub const MAX_QUESTION_BYTES: usize = 65_536;

/// How deep payloads may be nested, and how many values they may hold in all.
pub const MAX_PAYLOAD_DEPTH: usize = 64;

pub const MAX_PAYLOAD_VALUES: usize = 65_536;

#[derive(Clone, Copy, Debug, PartialEq, Eq, Structural)]
pub enum TaskSnapshotVersion {
    V1,
}

impl TaskSnapshotVersion {
    /// The version that a number stands for.
    pub fn try_from_number(value: u16) -> (version: Result<TaskSnapshotVersion, &'static str>)
        ensures
            version == if value == 1 {
                Ok::<TaskSnapshotVersion, &'static str>(TaskSnapshotVersion::V1)
            } else {
                Err("unsupported task snapshot version")
            },
    {
        if value == 1 {
            Ok(TaskSnapshotVersion::V1)
        } else {
            Err("unsupported task snapshot version")
        }
    }

    pub fn number(self) -> (value: u16)
        ensures
            value == 1,
    {
        1
    }
}

/// The revision of one tool's contract.
#[derive(Debug, PartialEq, Eq)]
pub struct ToolRevision {
    pub name: String,
    pub revision: String,
}

pub struct ToolRevisionView {
    pub name: Seq<char>,
    pub revision: Seq<char>,
}

impl DeepView for ToolRevision {
    type V = ToolRevisionView;

    open spec fn deep_view(&self) -> ToolRevisionView {
        ToolRevisionView { name: self.name@, revision: self.revision@ }
    }
}

impl Record for ToolRevision {
    fn is_same(&self, other: &Self) -> (answer: bool) {
        self.name.is_same(&other.name) && self.revision.is_same(&other.revision)
    }

    fn duplicate(&self) -> (copy: Self) {
        ToolRevision { name: self.name.duplicate(), revision: self.revision.duplicate() }
    }
}

/// The schema version of the payload of one name.
#[derive(Debug, PartialEq, Eq)]
pub struct PayloadSchema {
    pub name: String,
    pub version: u32,
}

pub struct PayloadSchemaView {
    pub name: Seq<char>,
    pub version: u32,
}

impl DeepView for PayloadSchema {
    type V = PayloadSchemaView;

    open spec fn deep_view(&self) -> PayloadSchemaView {
        PayloadSchemaView { name: self.name@, version: self.version }
    }
}

impl Record for PayloadSchema {
    fn is_same(&self, other: &Self) -> (answer: bool) {
        self.name.is_same(&other.name) && self.version == other.version
    }

    fn duplicate(&self) -> (copy: Self) {
        PayloadSchema { name: self.name.duplicate(), version: self.version }
    }
}

/// The application's own state under one name.
#[derive(Debug, PartialEq, Eq)]
pub struct Payload {
    pub name: String,
    pub value: Json,
}

pub struct PayloadView {
    pub name: Seq<char>,
    pub value: Seq<char>,
}

impl DeepView for Payload {
    type V = PayloadView;

    open spec fn deep_view(&self) -> PayloadView {
        PayloadView { name: self.name@, value: self.value@ }
    }
}

impl Record for Payload {
    fn is_same(&self, other: &Self) -> (answer: bool) {
        self.name.is_same(&other.name) && self.value.is_same(&other.value)
    }

    fn duplicate(&self) -> (copy: Self) {
        Payload { name: self.name.duplicate(), value: self.value.duplicate() }
    }
}

/// What the host expects of the contracts around a task. Lists stand in the order of
/// their names.
#[derive(Debug, PartialEq, Eq)]
pub struct TaskCompatibility {
    pub agent_revision: String,
    pub policy_revision: String,
    pub tool_revisions: Vec<ToolRevision>,
    pub payload_schemas: Vec<PayloadSchema>,
}

pub struct CompatibilityView {
    pub agent_revision: Seq<char>,
    pub policy_revision: Seq<char>,
    pub tool_revisions: Seq<ToolRevisionView>,
    pub payload_schemas: Seq<PayloadSchemaView>,
}

impl TaskCompatibility {
    pub open spec fn view(&self) -> CompatibilityView {
        CompatibilityView {
            agent_revision: self.agent_revision@,
            policy_revision: self.policy_revision@,
            tool_revisions: self.tool_revisions.deep_view(),
            payload_schemas: self.payload_schemas.deep_view(),
        }
    }
}

impl DeepView for TaskCompatibility {
    type V = CompatibilityView;

    open spec fn deep_view(&self) -> CompatibilityView {
        self@
    }
}

impl Record for TaskCompatibility {
    fn is_same(&self, other: &Self) -> (answer: bool) {
        self.agent_revision.is_same(&other.agent_revision) && self.policy_revision.is_same(
            &other.policy_revision,
        ) && self.tool_revisions.is_same(&other.tool_revisions) && self.payload_schemas.is_same(
            &other.payload_schemas,
        )
    }

    fn duplicate(&self) -> (copy: Self) {
        TaskCompatibility {
            agent_revision: self.agent_revision.duplicate(),
            policy_revision: self.policy_revision.duplicate(),
            tool_revisions: self.tool_revisions.duplicate(),
            payload_schemas: self.payload_schemas.duplicate(),
        }
    }
}

/// Where a task is between its turns.
#[allow(inconsistent_fields)]
#[derive(Debug, PartialEq, Eq)]
pub enum TaskPhase {
    Created,
    /// A completed turn, which proves no success outside.
    Completed,
    WaitingForInput { question: String },
    Stopped { reason: TaskRunStop },
}

#[allow(inconsistent_fields)]
pub enum PhaseView {
    Created,
    Completed,
    WaitingForInput { question: Seq<char> },
    Stopped { reason: TaskRunStop },
}

impl TaskPhase {
    pub open spec fn view(&self) -> PhaseView {
        match self {
            TaskPhase::Created => PhaseView::Created,
            TaskPhase::Completed => PhaseView::Completed,
            TaskPhase::WaitingForInput { question } => PhaseView::WaitingForInput {
                question: question@,
            },
            TaskPhase::Stopped { reason } => PhaseView::Stopped { reason: *reason },
        }
    }
}

impl DeepView for TaskPhase {
    type V = PhaseView;

    open spec fn deep_view(&self) -> PhaseView {
        self@
    }
}

impl Record for TaskPhase {
    fn is_same(&self, other: &Self) -> (answer: bool) {
        match (self, other) {
            (TaskPhase::Created, TaskPhase::Created) => true,
            (TaskPhase::Completed, TaskPhase::Completed) => true,
            (
                TaskPhase::WaitingForInput { question },
                TaskPhase::WaitingForInput { question: other_question },
            ) => question.is_same(other_question),
            (TaskPhase::Stopped { reason }, TaskPhase::Stopped { reason: other_reason }) => *reason
                == *other_reason,
            _ => false,
        }
    }

    fn duplicate(&self) -> (copy: Self) {
        match self {
            TaskPhase::Created => TaskPhase::Created,
            TaskPhase::Completed => TaskPhase::Completed,
            TaskPhase::WaitingForInput { question } => TaskPhase::WaitingForInput {
                question: question.duplicate(),
            },
            TaskPhase::Stopped { reason } => TaskPhase::Stopped { reason: *reason },
        }
    }
}

/// Which image of the budget a snapshot belongs to. It stands for no ledger.
#[derive(Clone, Copy, Debug, PartialEq, Eq, Structural)]
pub struct TaskBudgetReference {
    pub revision: u64,
    pub charged: BudgetAmounts,
}

/// The snapshot of a task. Payloads stand in the order of their names.
#[derive(Debug, PartialEq, Eq)]
pub struct TaskSnapshot {
    pub version: TaskSnapshotVersion,
    pub revision: u64,
    pub identity: BudgetIdentity,
    pub compatibility: TaskCompatibility,
    pub cursor: Option<BudgetEventCursor>,
    pub budget: TaskBudgetReference,
    pub phase: TaskPhase,
    /// Settled steps in the order in which they were first seen.
    pub settled_steps: Vec<StepId>,
    pub payloads: Vec<Payload>,
}

pub struct SnapshotView {
    pub version: TaskSnapshotVersion,
    pub revision: u64,
    pub identity: IdentityView,
    pub compatibility: CompatibilityView,
    pub cursor: Option<CursorView>,
    pub budget: TaskBudgetReference,
    pub phase: PhaseView,
    pub settled_steps: Seq<Seq<char>>,
    pub payloads: Seq<PayloadView>,
}

/// The same names with the same values.
pub open spec fn same_payloads(left: Seq<PayloadView>, right: Seq<PayloadView>) -> bool {
    &&& left.len() == right.len()
    &&& forall|i: int|
        0 <= i < left.len() ==> (#[trigger] left[i]).name == right[i].name && same_value(
            left[i].value,
            right[i].value,
        )
}

impl SnapshotView {
    /// The same snapshot: its payloads are compared as values, all else as it stands.
    pub open spec fn same_as(self, other: SnapshotView) -> bool {
        &&& same_payloads(self.payloads, other.payloads)
        &&& self == (SnapshotView { payloads: self.payloads, ..other })
    }
}

impl TaskSnapshot {
    /// Whether two snapshots are the same.
    pub fn is_same_state(&self, other: &TaskSnapshot) -> (answer: bool)
        ensures
            answer == self@.same_as(other@),
    {
        let alike: bool = self.version == other.version && self.revision == other.revision
            && self.identity.is_same(&other.identity) && self.compatibility.is_same(
            &other.compatibility,
        ) && self.cursor.is_same(&other.cursor) && self.budget == other.budget
            && self.phase.is_same(&other.phase) && self.settled_steps.is_same(&other.settled_steps);
        if !alike || self.payloads.len() != other.payloads.len() {
            return false;
        }
        let ghost left = self@.payloads;
        let ghost right = other@.payloads;
        let mut i: usize = 0;
        while i < self.payloads.len()
            invariant
                i <= self.payloads@.len(),
                self.payloads@.len() == other.payloads@.len(),
                left == self.payloads.deep_view(),
                right == other.payloads.deep_view(),
                left == self@.payloads,
                right == other@.payloads,
                forall|k: int|
                    0 <= k < i ==> (#[trigger] left[k]).name == right[k].name && same_value(
                        left[k].value,
                        right[k].value,
                    ),
            decreases self.payloads@.len() - i,
        {
            assert(left[i as int] == self.payloads@[i as int].deep_view());
            assert(right[i as int] == other.payloads@[i as int].deep_view());
            if !self.payloads[i].name.is_same(&other.payloads[i].name)
                || !self.payloads[i].value.is_same_value(&other.payloads[i].value) {
                return false;
            }
            i = i + 1;
        }
        true
    }
}

impl DeepView for TaskSnapshot {
    type V = SnapshotView;

    open spec fn deep_view(&self) -> SnapshotView {
        self@
    }
}

impl Record for TaskSnapshot {
    fn is_same(&self, other: &Self) -> (answer: bool) {
        self.version == other.version && self.revision == other.revision && self.identity.is_same(
            &other.identity,
        ) && self.compatibility.is_same(&other.compatibility) && self.cursor.is_same(&other.cursor)
            && self.budget == other.budget && self.phase.is_same(&other.phase)
            && self.settled_steps.is_same(&other.settled_steps) && self.payloads.is_same(
            &other.payloads,
        )
    }

    fn duplicate(&self) -> (copy: Self) {
        TaskSnapshot {
            version: self.version,
            revision: self.revision,
            identity: self.identity.duplicate(),
            compatibility: self.compatibility.duplicate(),
            cursor: self.cursor.duplicate(),
            budget: self.budget,
            phase: self.phase.duplicate(),
            settled_steps: self.settled_steps.duplicate(),
            payloads: self.payloads.duplicate(),
        }
    }
}

// ---- payload shapes ----

/// How a payload is built: a single value, or a list or object of others.
#[derive(Debug, PartialEq, Eq)]
pub enum PayloadShape {
    Leaf,
    Branch(Vec<PayloadShape>),
}

/// How many values there are in all.
pub open spec fn value_count(shapes: Seq<PayloadShape>) -> nat
    decreases shapes,
{
    if shapes.len() == 0 {
        0
    } else {
        value_count(shapes.drop_last()) + 1 + match shapes[shapes.len() - 1] {
            PayloadShape::Leaf => 0,
            PayloadShape::Branch(children) => value_count(children@),
        }
    }
}

/// No value is nested deeper than allowed.
pub open spec fn is_shallow(shapes: Seq<PayloadShape>, depth: nat) -> bool
    decreases shapes,
{
    if shapes.len() == 0 {
        true
    } else {
        &&& depth <= MAX_PAYLOAD_DEPTH
        &&& is_shallow(shapes.drop_last(), depth)
        &&& match shapes[shapes.len() - 1] {
            PayloadShape::Leaf => true,
            PayloadShape::Branch(children) => is_shallow(children@, depth + 1),
        }
    }
}

/// The payloads are neither too deep nor too many values.
pub open spec fn fits_shape(shapes: Seq<PayloadShape>) -> bool {
    is_shallow(shapes, 0) && value_count(shapes) <= MAX_PAYLOAD_VALUES
}

proof fn counts_grow(shapes: Seq<PayloadShape>, n: int)
    requires
        0 <= n <= shapes.len(),
    ensures
        value_count(shapes.take(n)) <= value_count(shapes),
        n <= value_count(shapes),
    decreases shapes.len() - n,
{
    if n < shapes.len() {
        counts_grow(shapes, n + 1);
        assert(shapes.take(n + 1).drop_last() =~= shapes.take(n));
    } else {
        assert(shapes.take(n) =~= shapes);
        counts_reach(shapes);
    }
}

proof fn counts_reach(shapes: Seq<PayloadShape>)
    ensures
        shapes.len() <= value_count(shapes),
    decreases shapes.len(),
{
    if shapes.len() > 0 {
        counts_reach(shapes.drop_last());
    }
}

proof fn shallow_start(shapes: Seq<PayloadShape>, depth: nat, n: int)
    requires
        0 <= n <= shapes.len(),
        is_shallow(shapes, depth),
    ensures
        is_shallow(shapes.take(n), depth),
    decreases shapes.len() - n,
{
    if n < shapes.len() {
        shallow_start(shapes, depth, n + 1);
        assert(shapes.take(n + 1).drop_last() =~= shapes.take(n));
    } else {
        assert(shapes.take(n) =~= shapes);
    }
}

/// Takes the values off what is left, or finds that they are too deep or too many.
fn take_values(shapes: &Vec<PayloadShape>, depth: usize, left: usize) -> (rest: Option<usize>)
    requires
        depth <= MAX_PAYLOAD_DEPTH + 1,
    ensures
        match rest {
            Some(rest) => is_shallow(shapes@, depth as nat) && value_count(shapes@) + rest == left,
            None => !is_shallow(shapes@, depth as nat) || value_count(shapes@) > left,
        },
    decreases MAX_PAYLOAD_DEPTH + 1 - depth,
{
    let ghost all = shapes@;
    let mut left_now: usize = left;
    let mut i: usize = 0;
    assert(all.take(0) =~= Seq::empty());
    while i < shapes.len()
        invariant
            i <= all.len(),
            all == shapes@,
            depth <= MAX_PAYLOAD_DEPTH + 1,
            is_shallow(all.take(i as int), depth as nat),
            value_count(all.take(i as int)) + left_now == left,
        decreases all.len() - i,
    {
        proof {
            assert(all.take(i + 1).drop_last() =~= all.take(i as int));
            assert(all.take(i + 1)[i as int] == all[i as int]);
            counts_grow(all, i + 1);
            if is_shallow(all, depth as nat) {
                shallow_start(all, depth as nat, i + 1);
            }
        }
        if depth > MAX_PAYLOAD_DEPTH || left_now == 0 {
            return None;
        }
        left_now = left_now - 1;
        match &shapes[i] {
            PayloadShape::Leaf => {},
            PayloadShape::Branch(children) => {
                match take_values(children, depth + 1, left_now) {
                    Some(rest) => {
                        left_now = rest;
                    },
                    None => {
                        return None;
                    },
                }
            },
        }
        i = i + 1;
    }
    assert(all.take(all.len() as int) =~= all);
    Some(left_now)
}

/// What the host measured of a snapshot: the bytes of its written form, and the shapes
/// of its payloads.
#[derive(Debug, PartialEq, Eq)]
pub struct SnapshotSize {
    pub bytes: usize,
    pub shapes: Vec<PayloadShape>,
}

impl SnapshotSize {
    pub open spec fn is_allowed(&self) -> bool {
        fits_shape(self.shapes@) && self.bytes <= MAX_TASK_SNAPSHOT_BYTES
    }

    /// Whether a snapshot of that size may be kept.
    pub fn allowed(&self) -> (answer: bool)
        ensures
            answer == self.is_allowed(),
    {
        take_values(&self.shapes, 0, MAX_PAYLOAD_VALUES).is_some() && self.bytes
            <= MAX_TASK_SNAPSHOT_BYTES
    }
}

// ---- what a snapshot must be ----

/// The first name or revision of a tool that names nothing.
pub open spec fn revisions_named(revisions: Seq<ToolRevisionView>) -> bool {
    forall|i: int|
        0 <= i < revisions.len() ==> is_naming((#[trigger] revisions[i]).name) && is_naming(
            revisions[i].revision,
        )
}

pub open spec fn revision_names(revisions: Seq<ToolRevisionView>) -> Seq<Seq<char>> {
    revisions.map_values(|r: ToolRevisionView| r.name)
}

pub open spec fn payload_names(payloads: Seq<PayloadView>) -> Seq<Seq<char>> {
    payloads.map_values(|p: PayloadView| p.name)
}

pub open spec fn schema_names(schemas: Seq<PayloadSchemaView>) -> Seq<Seq<char>> {
    schemas.map_values(|s: PayloadSchemaView| s.name)
}

/// The first fault among payload schemas from the `k`th on.
pub open spec fn schema_fault(schemas: Seq<PayloadSchemaView>, k: int) -> Option<TaskStateError>
    decreases schemas.len() - k,
{
    if k < 0 || k >= schemas.len() {
        None
    } else if !is_naming(schemas[k].name) {
        Some(unnamed())
    } else if schemas[k].version == 0 {
        Some(TaskStateError::Invalid("zero schema version"))
    } else {
        schema_fault(schemas, k + 1)
    }
}

/// The first fault among settled steps from the `k`th on.
pub open spec fn steps_fault(steps: Seq<Seq<char>>, k: int) -> Option<TaskStateError>
    decreases steps.len() - k,
{
    if k < 0 || k >= steps.len() {
        None
    } else if !is_naming(steps[k]) {
        Some(unnamed())
    } else if steps.take(k).contains(steps[k]) {
        Some(TaskStateError::Invalid("duplicate step"))
    } else {
        steps_fault(steps, k + 1)
    }
}

/// Tools, schemas and payloads each stand in the order of their names, and no name
/// occurs twice.
pub open spec fn names_ascend(v: SnapshotView) -> bool {
    &&& is_ascending(revision_names(v.compatibility.tool_revisions))
    &&& is_ascending(schema_names(v.compatibility.payload_schemas))
    &&& is_ascending(payload_names(v.payloads))
}

/// What is wrong with the phase of a snapshot, if anything.
pub open spec fn phase_fault(v: SnapshotView) -> Option<TaskStateError> {
    if (v.phase is Created) != (v.cursor is None) {
        Some(TaskStateError::Invalid("phase boundary"))
    } else if v.phase is Created && (v.budget.charged != BudgetAmounts::none()
        || v.settled_steps.len() > 0) {
        Some(TaskStateError::Invalid("nonempty created state"))
    } else if v.phase == (PhaseView::Stopped { reason: TaskRunStop::Completed }) || v.phase == (
    PhaseView::Stopped { reason: TaskRunStop::WaitingForInput }) {
        Some(TaskStateError::Invalid("inconsistent stopped phase"))
    } else {
        match v.phase {
            PhaseView::WaitingForInput { question } => if !is_bounded_text(
                question,
                MAX_QUESTION_BYTES as nat,
            ) {
                Some(TaskStateError::Invalid("question"))
            } else {
                None
            },
            _ => None,
        }
    }
}

impl SnapshotView {
    /// What is wrong with the snapshot apart from its size, if anything.
    pub open spec fn fault(self) -> Option<TaskStateError> {
        if self.revision == 0 || self.budget.revision == 0 {
            Some(TaskStateError::Invalid("zero revision"))
        } else if !names_ascend(self) {
            Some(TaskStateError::Invalid("names out of order"))
        } else if !is_naming(self.identity.task) || !is_naming(self.identity.session) || !is_naming(
            self.identity.agent,
        ) || !is_naming(self.compatibility.agent_revision) || !is_naming(
            self.compatibility.policy_revision,
        ) {
            Some(unnamed())
        } else if self.compatibility.tool_revisions.len() > MAX_TOOL_REVISIONS
            || self.payloads.len() > MAX_PAYLOADS || self.settled_steps.len() > MAX_TASK_STEPS {
            Some(TaskStateError::Limit)
        } else if !revisions_named(self.compatibility.tool_revisions) {
            Some(unnamed())
        } else if payload_names(self.payloads) != schema_names(self.compatibility.payload_schemas) {
            Some(TaskStateError::Incompatible)
        } else if let Some(fault) = schema_fault(self.compatibility.payload_schemas, 0) {
            Some(fault)
        } else if self.cursor is Some && self.cursor->0.session != self.identity.session {
            Some(TaskStateError::IdentityMismatch)
        } else if self.cursor is Some && (!is_naming(self.cursor->0.event) || !is_naming(
            self.cursor->0.turn,
        )) {
            Some(unnamed())
        } else if let Some(fault) = phase_fault(self) {
            Some(fault)
        } else {
            steps_fault(self.settled_steps, 0)
        }
    }
}

/// A list that ascends up to `i`, and whose next name comes after, ascends further.
proof fn ascends_further(names: Seq<Seq<char>>, i: int)
    requires
        0 < i < names.len(),
        is_ascending(names.take(i)),
        text_before(names[i - 1], names[i]),
    ensures
        is_ascending(names.take(i + 1)),
{
    let front = names.take(i);
    let more = names.take(i + 1);
    assert forall|a: int, b: int| 0 <= a < b < more.len() implies text_before(
        #[trigger] more[a],
        #[trigger] more[b],
    ) by {
        assert(more[a] == front[a]);
        if b < i {
            assert(more[b] == front[b]);
        } else if a < i - 1 {
            assert(text_before(front[a], front[i - 1]));
            text_before_is_transitive(names[a], names[i - 1], names[i]);
        }
    }
}

fn check_revisions(revisions: &Vec<ToolRevision>) -> (answer: bool)
    ensures
        answer == revisions_named(revisions.deep_view()),
{
    let ghost views = revisions.deep_view();
    let mut i: usize = 0;
    while i < revisions.len()
        invariant
            i <= revisions@.len(),
            views == revisions.deep_view(),
            forall|k: int|
                0 <= k < i ==> is_naming((#[trigger] views[k]).name) && is_naming(
                    views[k].revision,
                ),
        decreases revisions@.len() - i,
    {
        assert(views[i as int] == revisions@[i as int].deep_view());
        if valid_text(revisions[i].name.as_str()).is_err() || valid_text(
            revisions[i].revision.as_str(),
        ).is_err() {
            return false;
        }
        i = i + 1;
    }
    true
}

fn same_names(payloads: &Vec<Payload>, schemas: &Vec<PayloadSchema>) -> (answer: bool)
    ensures
        answer == (payload_names(payloads.deep_view()) == schema_names(schemas.deep_view())),
{
    let ghost left = payload_names(payloads.deep_view());
    let ghost right = schema_names(schemas.deep_view());
    if payloads.len() != schemas.len() {
        assert(left.len() != right.len());
        return false;
    }
    let mut i: usize = 0;
    while i < payloads.len()
        invariant
            i <= payloads@.len(),
            payloads@.len() == schemas@.len(),
            left == payload_names(payloads.deep_view()),
            right == schema_names(schemas.deep_view()),
            left.len() == right.len(),
            left.len() == payloads@.len(),
            forall|k: int| 0 <= k < i ==> left[k] == right[k],
        decreases payloads@.len() - i,
    {
        assert(left[i as int] == payloads@[i as int].name@);
        assert(right[i as int] == schemas@[i as int].name@);
        if !same_text(payloads[i].name.as_str(), schemas[i].name.as_str()) {
            assert(left[i as int] != right[i as int]);
            return false;
        }
        i = i + 1;
    }
    assert(left =~= right);
    true
}

fn check_schemas(schemas: &Vec<PayloadSchema>) -> (fault: Option<TaskStateError>)
    ensures
        fault == schema_fault(schemas.deep_view(), 0),
{
    let ghost views = schemas.deep_view();
    let mut i: usize = 0;
    while i < schemas.len()
        invariant
            i <= schemas@.len(),
            views == schemas.deep_view(),
            schema_fault(views, 0) == schema_fault(views, i as int),
        decreases schemas@.len() - i,
    {
        assert(views[i as int] == schemas@[i as int].deep_view());
        match valid_text(schemas[i].name.as_str()) {
            Err(e) => {
                return Some(e);
            },
            Ok(_) => {},
        }
        if schemas[i].version == 0 {
            return Some(TaskStateError::Invalid("zero schema version"));
        }
        i = i + 1;
    }
    None
}

fn check_steps(steps: &Vec<StepId>) -> (fault: Option<TaskStateError>)
    ensures
        fault == steps_fault(steps.deep_view(), 0),
{
    let ghost views = steps.deep_view();
    let mut i: usize = 0;
    while i < steps.len()
        invariant
            i <= steps@.len(),
            views == steps.deep_view(),
            steps_fault(views, 0) == steps_fault(views, i as int),
        decreases steps@.len() - i,
    {
        assert(views[i as int] == steps@[i as int]@);
        match valid_text(steps[i].as_str()) {
            Err(e) => {
                return Some(e);
            },
            Ok(_) => {},
        }
        if seen_before(steps, i) {
            return Some(TaskStateError::Invalid("duplicate step"));
        }
        i = i + 1;
    }
    None
}

fn seen_before(steps: &Vec<StepId>, n: usize) -> (answer: bool)
    requires
        n < steps@.len(),
    ensures
        answer == steps.deep_view().take(n as int).contains(steps.deep_view()[n as int]),
{
    let ghost views = steps.deep_view();
    let ghost front = views.take(n as int);
    let mut i: usize = 0;
    while i < n
        invariant
            i <= n < steps@.len(),
            views == steps.deep_view(),
            front == views.take(n as int),
            forall|k: int| 0 <= k < i ==> #[trigger] front[k] != views[n as int],
        decreases n - i,
    {
        assert(views[i as int] == steps@[i as int]@);
        assert(views[n as int] == steps@[n as int]@);
        assert(front[i as int] == views[i as int]);
        if steps[i].is_same(&steps[n]) {
            assert(front.contains(views[n as int]));
            return true;
        }
        i = i + 1;
    }
    false
}

/// Whether a budget image shows unfinished work.
pub fn requires_recovery(budget: &BudgetCheckpoint) -> (answer: bool)
    ensures
        answer == !budget@.is_quiescent(),
{
    !budget.is_quiescent()
}

/// The last complete reply of the last turn, among the first `n` events.
pub open spec fn last_reply(events: Seq<SessionEventView>, turn: Seq<char>, n: int) -> Option<Seq<char>>
    decreases n,
{
    if n <= 0 || events[n - 1].turn_id != turn {
        None
    } else {
        match events[n - 1].kind {
            SessionEventKindView::AssistantMessage { text } => Some(text),
            _ => last_reply(events, turn, n - 1),
        }
    }
}

/// The phase that a closed history leaves a task in.
pub open spec fn phase_of(events: Seq<SessionEventView>) -> Result<PhaseView, TaskStateError> {
    if events.len() == 0 {
        Ok(PhaseView::Created)
    } else {
        let last = events.last();
        match last.kind {
            SessionEventKindView::Done { status: DoneStatus::Completed, .. } => Ok(
                PhaseView::Completed,
            ),
            SessionEventKindView::Done { status: DoneStatus::WaitingForInput, .. } => match last_reply(
                events,
                last.turn_id,
                events.len() as int,
            ) {
                Some(question) => Ok(PhaseView::WaitingForInput { question }),
                None => Err(TaskStateError::Invalid("waiting turn has no complete question")),
            },
            _ => {
                let i = if events.len() >= 2 {
                    events.len() - 2
                } else {
                    0
                };
                match events[i].kind {
                    SessionEventKindView::TaskRunReport { report } => Ok(
                        PhaseView::Stopped { reason: report.stop },
                    ),
                    _ => Err(TaskStateError::EvidenceMismatch),
                }
            },
        }
    }
}

fn find_reply(history: &Vec<SessionEvent>) -> (reply: Option<String>)
    requires
        history@.len() > 0,
    ensures
        reply.deep_view() == last_reply(
            history.deep_view(),
            history.deep_view().last().turn_id,
            history@.len() as int,
        ),
{
    let ghost views = history.deep_view();
    let last = &history[history.len() - 1];
    assert(views.last() == history@[history@.len() - 1]@);
    let mut i: usize = history.len();
    while i > 0
        invariant
            i <= history@.len(),
            views == history.deep_view(),
            last@ == views.last(),
            last_reply(views, last@.turn_id, history@.len() as int) == last_reply(
                views,
                last@.turn_id,
                i as int,
            ),
        decreases i,
    {
        assert(views[i - 1] == history@[i - 1]@);
        let event = &history[i - 1];
        if !event.turn_id.is_same(&last.turn_id) {
            return None;
        }
        match &event.kind {
            SessionEventKind::AssistantMessage { text } => {
                return Some(text.clone());
            },
            _ => {},
        }
        i = i - 1;
    }
    None
}

/// The phase that a closed history leaves a task in.
pub fn phase(history: &Vec<SessionEvent>) -> (result: Result<TaskPhase, TaskStateError>)
    ensures
        match result {
            Ok(phase) => phase_of(history.deep_view()) == Ok::<PhaseView, TaskStateError>(phase@),
            Err(e) => phase_of(history.deep_view()) == Err::<PhaseView, TaskStateError>(e),
        },
{
    let ghost views = history.deep_view();
    if history.len() == 0 {
        return Ok(TaskPhase::Created);
    }
    assert(views.last() == history@[history@.len() - 1]@);
    match &history[history.len() - 1].kind {
        SessionEventKind::Done { status: DoneStatus::Completed, .. } => Ok(TaskPhase::Completed),
        SessionEventKind::Done { status: DoneStatus::WaitingForInput, .. } => match find_reply(
            history,
        ) {
            Some(question) => Ok(TaskPhase::WaitingForInput { question }),
            None => Err(TaskStateError::Invalid("waiting turn has no complete question")),
        },
        _ => {
            let i: usize = if history.len() >= 2 {
                history.len() - 2
            } else {
                0
            };
            assert(views[i as int] == history@[i as int]@);
            match &history[i].kind {
                SessionEventKind::TaskRunReport { report } => Ok(
                    TaskPhase::Stopped { reason: report.stop },
                ),
                _ => Err(TaskStateError::EvidenceMismatch),
            }
        },
    }
}

/// Why nothing can be captured from a budget image and a history, if so.
pub open spec fn capture_fault(expected_revision: u64, budget: CheckpointView, events: Seq<SessionEventView>) -> Option<
    TaskStateError,
> {
    let identity = budget.image.report.identity;
    if let Some(fault) = history::assessment_fault(identity, events) {
        Some(fault)
    } else if history::unresolved_of(events, identity.task).len() > 0 || history::boundary_of(
        events,
    ) is Open {
        Some(TaskStateError::NeedsReview)
    } else if let Some(fault) = execution::history_fault(budget, events) {
        Some(TaskStateError::Budget(fault))
    } else if !budget.is_quiescent() {
        Some(TaskStateError::NeedsReview)
    } else if let Err(fault) = phase_of(events) {
        Some(fault)
    } else if expected_revision == u64::MAX {
        Some(TaskStateError::RevisionExhausted)
    } else {
        None
    }
}

/// The snapshot that a budget image and a history give.
pub open spec fn captured(
    expected_revision: u64,
    compatibility: CompatibilityView,
    payloads: Seq<PayloadView>,
    budget: CheckpointView,
    events: Seq<SessionEventView>,
) -> SnapshotView {
    SnapshotView {
        version: TaskSnapshotVersion::V1,
        revision: (expected_revision + 1) as u64,
        identity: budget.image.report.identity,
        compatibility,
        cursor: budget.image.anchor,
        budget: TaskBudgetReference {
            revision: budget.image.revision,
            charged: budget.image.report.charged,
        },
        phase: phase_of(events)->Ok_0,
        settled_steps: history::settled_steps_of(events, budget.image.report.identity.task),
        payloads,
    }
}

/// Why a snapshot is not what the host expects and the evidence gives, if it is not. The
/// sizes are those of the snapshot and of the one that the evidence gives.
pub open spec fn evidence_fault(
    v: SnapshotView,
    size: SnapshotSize,
    rebuilt_size: SnapshotSize,
    identity: IdentityView,
    revision: u64,
    compatibility: CompatibilityView,
    budget: CheckpointView,
    events: Seq<SessionEventView>,
) -> Option<TaskStateError> {
    let before = (v.revision - 1) as u64;
    let rebuilt = captured(before, compatibility, v.payloads, budget, events);
    if let Some(e) = v.fault() {
        Some(e)
    } else if !size.is_allowed() {
        Some(TaskStateError::Limit)
    } else if v.identity != identity || budget.image.report.identity != identity {
        Some(TaskStateError::IdentityMismatch)
    } else if v.revision != revision {
        Some(TaskStateError::RevisionMismatch { expected: revision, actual: v.revision })
    } else if v.compatibility != compatibility {
        Some(TaskStateError::Incompatible)
    } else if let Some(e) = capture_fault(before, budget, events) {
        Some(e)
    } else if let Some(e) = rebuilt.fault() {
        Some(e)
    } else if !rebuilt_size.is_allowed() {
        Some(TaskStateError::Limit)
    } else if rebuilt != v {
        Some(TaskStateError::EvidenceMismatch)
    } else {
        None
    }
}

/// Why the new snapshot cannot follow the old one, if it cannot.
pub open spec fn succession_fault(old: SnapshotView, new: SnapshotView) -> Option<TaskStateError> {
    if let Some(fault) = old.fault() {
        Some(fault)
    } else if old.identity != new.identity {
        Some(TaskStateError::IdentityMismatch)
    } else if old.compatibility != new.compatibility {
        Some(TaskStateError::Incompatible)
    } else if !is_monotone(old, new) {
        Some(TaskStateError::EvidenceMismatch)
    } else {
        None
    }
}

/// Nothing spent or settled is taken back, the history goes forward, and where it stands
/// still nothing else changes.
pub open spec fn is_monotone(old: SnapshotView, new: SnapshotView) -> bool {
    &&& old.budget.revision <= new.budget.revision
    &&& forall|r: BudgetResource|
        #![trigger new.budget.charged.at(r)]
        old.budget.charged.at(r) <= new.budget.charged.at(r)
    &&& old.settled_steps.is_prefix_of(new.settled_steps)
    &&& match (old.cursor, new.cursor) {
        (Some(a), Some(b)) => a.seq < b.seq || a == b,
        (Some(_), None) => false,
        _ => true,
    }
    &&& new.budget.revision == old.budget.revision ==> new.cursor == old.cursor
        && new.budget.charged == old.budget.charged
    &&& new.cursor == old.cursor ==> new.phase == old.phase && new.settled_steps
        == old.settled_steps && new.budget.charged == old.budget.charged
}

fn charges_grow(old: &BudgetAmounts, new: &BudgetAmounts) -> (answer: bool)
    ensures
        answer == forall|r: BudgetResource| #![trigger new.at(r)] old.at(r) <= new.at(r),
{
    let answer: bool = old.steps <= new.steps && old.model_requests <= new.model_requests
        && old.tool_calls <= new.tool_calls && old.corrections <= new.corrections
        && old.input_tokens <= new.input_tokens && old.output_tokens <= new.output_tokens
        && old.tool_output_bytes <= new.tool_output_bytes;
    proof {
        if forall|r: BudgetResource| #![trigger new.at(r)] old.at(r) <= new.at(r) {
            assert(new.at(BudgetResource::Steps) >= old.at(BudgetResource::Steps));
            assert(new.at(BudgetResource::ModelRequests) >= old.at(BudgetResource::ModelRequests));
            assert(new.at(BudgetResource::ToolCalls) >= old.at(BudgetResource::ToolCalls));
            assert(new.at(BudgetResource::Corrections) >= old.at(BudgetResource::Corrections));
            assert(new.at(BudgetResource::InputTokens) >= old.at(BudgetResource::InputTokens));
            assert(new.at(BudgetResource::OutputTokens) >= old.at(BudgetResource::OutputTokens));
            assert(new.at(BudgetResource::ToolOutputBytes) >= old.at(
                BudgetResource::ToolOutputBytes,
            ));
        }
    }
    answer
}

fn steps_start_with(steps: &Vec<StepId>, start: &Vec<StepId>) -> (answer: bool)
    ensures
        answer == start.deep_view().is_prefix_of(steps.deep_view()),
{
    let ghost all = steps.deep_view();
    let ghost front = start.deep_view();
    if start.len() > steps.len() {
        return false;
    }
    let mut i: usize = 0;
    while i < start.len()
        invariant
            i <= start@.len() <= steps@.len(),
            all == steps.deep_view(),
            front == start.deep_view(),
            forall|k: int| 0 <= k < i ==> front[k] == all[k],
        decreases start@.len() - i,
    {
        assert(all[i as int] == steps@[i as int]@);
        assert(front[i as int] == start@[i as int]@);
        if !steps[i].is_same(&start[i]) {
            assert(front[i as int] != all.subrange(0, front.len() as int)[i as int]);
            return false;
        }
        i = i + 1;
    }
    assert(front =~= all.subrange(0, front.len() as int));
    true
}

impl TaskSnapshot {
    pub open spec fn view(&self) -> SnapshotView {
        SnapshotView {
            version: self.version,
            revision: self.revision,
            identity: self.identity@,
            compatibility: self.compatibility@,
            cursor: self.cursor.deep_view(),
            budget: self.budget,
            phase: self.phase@,
            settled_steps: self.settled_steps.deep_view(),
            payloads: self.payloads.deep_view(),
        }
    }

    /// Captures an empty or closed boundary from confirmed history and the budget image
    /// that goes with it. `size` is what the host measured of the draft of the same
    /// arguments.
    pub fn capture(
        expected_revision: u64,
        compatibility: TaskCompatibility,
        payloads: Vec<Payload>,
        budget: &BudgetCheckpoint,
        history: &Vec<SessionEvent>,
        size: &SnapshotSize,
    ) -> (result: Result<Self, TaskStateError>)
        ensures
            ({
                let fault = capture_fault(expected_revision, budget@, history.deep_view());
                let snapshot = captured(
                    expected_revision,
                    compatibility@,
                    payloads.deep_view(),
                    budget@,
                    history.deep_view(),
                );
                match result {
                    Err(e) => if fault is Some {
                        fault == Some(e)
                    } else if snapshot.fault() is Some {
                        snapshot.fault() == Some(e)
                    } else {
                        !size.is_allowed() && e == TaskStateError::Limit
                    },
                    Ok(found) => fault is None && snapshot.fault() is None && size.is_allowed()
                        && found@ == snapshot,
                }
            }),
    {
        match Self::draft(expected_revision, compatibility, payloads, budget, history) {
            Err(e) => Err(e),
            Ok(snapshot) => if size.allowed() {
                Ok(snapshot)
            } else {
                Err(TaskStateError::Limit)
            },
        }
    }

    /// The snapshot that is captured where its size allows it, for the host to measure.
    pub fn draft(
        expected_revision: u64,
        compatibility: TaskCompatibility,
        payloads: Vec<Payload>,
        budget: &BudgetCheckpoint,
        history: &Vec<SessionEvent>,
    ) -> (result: Result<Self, TaskStateError>)
        ensures
            ({
                let fault = capture_fault(expected_revision, budget@, history.deep_view());
                let snapshot = captured(
                    expected_revision,
                    compatibility@,
                    payloads.deep_view(),
                    budget@,
                    history.deep_view(),
                );
                match result {
                    Err(e) => fault == Some(e) || (fault is None && snapshot.fault() == Some(e)),
                    Ok(found) => fault is None && snapshot.fault() is None && found@ == snapshot,
                }
            }),
    {
        let assessment = match assess_task_history(budget.identity(), history) {
            Err(e) => {
                return Err(e);
            },
            Ok(assessment) => assessment,
        };
        let open: bool = match &assessment.boundary {
            TaskHistoryBoundary::Open { .. } => true,
            _ => false,
        };
        assert(assessment.unresolved.deep_view().len() == assessment.unresolved@.len());
        if assessment.unresolved.len() > 0 || open {
            return Err(TaskStateError::NeedsReview);
        }
        match verify_checkpoint_history(budget, history) {
            Err(e) => {
                return Err(TaskStateError::Budget(e));
            },
            Ok(_) => {},
        }
        if requires_recovery(budget) {
            return Err(TaskStateError::NeedsReview);
        }
        let phase = match phase(history) {
            Err(e) => {
                return Err(e);
            },
            Ok(phase) => phase,
        };
        if expected_revision == u64::MAX {
            return Err(TaskStateError::RevisionExhausted);
        }
        let cursor: Option<BudgetEventCursor> = match budget.anchor() {
            Some(cursor) => Some(cursor.duplicate()),
            None => None,
        };
        let snapshot = TaskSnapshot {
            version: TaskSnapshotVersion::V1,
            revision: expected_revision + 1,
            identity: budget.identity().duplicate(),
            compatibility,
            cursor,
            budget: TaskBudgetReference {
                revision: budget.revision(),
                charged: budget.report().charged,
            },
            phase,
            settled_steps: assessment.settled_steps,
            payloads,
        };
        match snapshot.check_structure() {
            Some(e) => Err(e),
            None => Ok(snapshot),
        }
    }

    pub fn revision(&self) -> (revision: u64)
        ensures
            revision == self@.revision,
    {
        self.revision
    }

    pub fn identity(&self) -> (identity: &BudgetIdentity)
        ensures
            identity@ == self@.identity,
    {
        &self.identity
    }

    pub fn compatibility(&self) -> (compatibility: &TaskCompatibility)
        ensures
            compatibility@ == self@.compatibility,
    {
        &self.compatibility
    }

    pub fn cursor(&self) -> (cursor: Option<&BudgetEventCursor>)
        ensures
            match cursor {
                Some(cursor) => self@.cursor == Some(cursor@),
                None => self@.cursor is None,
            },
    {
        self.cursor.as_ref()
    }

    pub fn budget(&self) -> (budget: &TaskBudgetReference)
        ensures
            *budget == self@.budget,
    {
        &self.budget
    }

    pub fn phase(&self) -> (phase: &TaskPhase)
        ensures
            phase@ == self@.phase,
    {
        &self.phase
    }

    pub fn settled_steps(&self) -> (steps: &Vec<StepId>)
        ensures
            steps.deep_view() == self@.settled_steps,
    {
        &self.settled_steps
    }

    pub fn payloads(&self) -> (payloads: &Vec<Payload>)
        ensures
            payloads.deep_view() == self@.payloads,
    {
        &self.payloads
    }

    fn check_phase(&self) -> (fault: Option<TaskStateError>)
        ensures
            fault == phase_fault(self@),
    {
        let created: bool = match &self.phase {
            TaskPhase::Created => true,
            _ => false,
        };
        if created != self.cursor.is_none() {
            return Some(TaskStateError::Invalid("phase boundary"));
        }
        assert(self@.settled_steps.len() == self.settled_steps@.len());
        if created && (self.budget.charged != BudgetAmounts::zero() || self.settled_steps.len()
            > 0) {
            return Some(TaskStateError::Invalid("nonempty created state"));
        }
        match &self.phase {
            TaskPhase::Stopped { reason } => {
                if *reason == TaskRunStop::Completed || *reason == TaskRunStop::WaitingForInput {
                    return Some(TaskStateError::Invalid("inconsistent stopped phase"));
                }
                None
            },
            TaskPhase::WaitingForInput { question } => {
                if !text_within(question.as_str(), MAX_QUESTION_BYTES) {
                    return Some(TaskStateError::Invalid("question"));
                }
                None
            },
            _ => None,
        }
    }

    fn in_order(&self) -> (answer: bool)
        ensures
            answer == names_ascend(self@),
    {
        let ghost tools = revision_names(self@.compatibility.tool_revisions);
        let ghost schemas = schema_names(self@.compatibility.payload_schemas);
        let ghost names = payload_names(self@.payloads);
        let mut i: usize = 1;
        while i < self.compatibility.tool_revisions.len()
            invariant
                1 <= i,
                tools == revision_names(self@.compatibility.tool_revisions),
                tools.len() == self.compatibility.tool_revisions@.len(),
                i <= tools.len() ==> is_ascending(tools.take(i as int)),
                i <= tools.len() || tools.len() == 0,
            decreases tools.len() - i,
        {
            proof {
                assert(tools[i - 1] == self.compatibility.tool_revisions@[i - 1].name@);
                assert(tools[i as int] == self.compatibility.tool_revisions@[i as int].name@);
            }
            if !comes_before(
                self.compatibility.tool_revisions[i - 1].name.as_str(),
                self.compatibility.tool_revisions[i].name.as_str(),
            ) {
                return false;
            }
            proof {
                ascends_further(tools, i as int);
            }
            i = i + 1;
        }
        assert(tools.len() > 0 ==> tools.take(tools.len() as int) =~= tools);
        let mut i: usize = 1;
        while i < self.compatibility.payload_schemas.len()
            invariant
                1 <= i,
                schemas == schema_names(self@.compatibility.payload_schemas),
                schemas.len() == self.compatibility.payload_schemas@.len(),
                i <= schemas.len() ==> is_ascending(schemas.take(i as int)),
                i <= schemas.len() || schemas.len() == 0,
            decreases schemas.len() - i,
        {
            proof {
                assert(schemas[i - 1] == self.compatibility.payload_schemas@[i - 1].name@);
                assert(schemas[i as int] == self.compatibility.payload_schemas@[i as int].name@);
            }
            if !comes_before(
                self.compatibility.payload_schemas[i - 1].name.as_str(),
                self.compatibility.payload_schemas[i].name.as_str(),
            ) {
                return false;
            }
            proof {
                ascends_further(schemas, i as int);
            }
            i = i + 1;
        }
        assert(schemas.len() > 0 ==> schemas.take(schemas.len() as int) =~= schemas);
        let mut i: usize = 1;
        while i < self.payloads.len()
            invariant
                1 <= i,
                names == payload_names(self@.payloads),
                names.len() == self.payloads@.len(),
                i <= names.len() ==> is_ascending(names.take(i as int)),
                i <= names.len() || names.len() == 0,
            decreases names.len() - i,
        {
            proof {
                assert(names[i - 1] == self.payloads@[i - 1].name@);
                assert(names[i as int] == self.payloads@[i as int].name@);
            }
            if !comes_before(
                self.payloads[i - 1].name.as_str(),
                self.payloads[i].name.as_str(),
            ) {
                return false;
            }
            proof {
                ascends_further(names, i as int);
            }
            i = i + 1;
        }
        assert(names.len() > 0 ==> names.take(names.len() as int) =~= names);
        true
    }

    fn check_structure(&self) -> (fault: Option<TaskStateError>)
        ensures
            fault == self@.fault(),
    {
        if self.revision == 0 || self.budget.revision == 0 {
            return Some(TaskStateError::Invalid("zero revision"));
        }
        if !self.in_order() {
            return Some(TaskStateError::Invalid("names out of order"));
        }
        if valid_text(self.identity.task_id.as_str()).is_err() || valid_text(
            self.identity.session_id.as_str(),
        ).is_err() || valid_text(self.identity.agent_key.as_str()).is_err() || valid_text(
            self.compatibility.agent_revision.as_str(),
        ).is_err() || valid_text(self.compatibility.policy_revision.as_str()).is_err() {
            return Some(TaskStateError::Invalid("empty or oversized identity/revision"));
        }
        assert(self@.compatibility.tool_revisions.len()
            == self.compatibility.tool_revisions@.len());
        assert(self@.payloads.len() == self.payloads@.len());
        assert(self@.settled_steps.len() == self.settled_steps@.len());
        if self.compatibility.tool_revisions.len() > MAX_TOOL_REVISIONS || self.payloads.len()
            > MAX_PAYLOADS || self.settled_steps.len() > MAX_TASK_STEPS {
            return Some(TaskStateError::Limit);
        }
        if !check_revisions(&self.compatibility.tool_revisions) {
            return Some(TaskStateError::Invalid("empty or oversized identity/revision"));
        }
        if !same_names(&self.payloads, &self.compatibility.payload_schemas) {
            return Some(TaskStateError::Incompatible);
        }
        match check_schemas(&self.compatibility.payload_schemas) {
            Some(e) => {
                return Some(e);
            },
            None => {},
        }
        match &self.cursor {
            Some(cursor) => {
                if !cursor.session_id.is_same(&self.identity.session_id) {
                    return Some(TaskStateError::IdentityMismatch);
                }
                if valid_text(cursor.event_id.as_str()).is_err() || valid_text(
                    cursor.turn_id.as_str(),
                ).is_err() {
                    return Some(TaskStateError::Invalid("empty or oversized identity/revision"));
                }
            },
            None => {},
        }
        match self.check_phase() {
            Some(e) => {
                return Some(e);
            },
            None => {},
        }
        check_steps(&self.settled_steps)
    }

    /// A snapshot that takes so many bytes of JSON, as the host decoded it and measured
    /// it again.
    pub fn from_json(bytes: usize, decoded: Option<Self>, size: &SnapshotSize) -> (result: Result<
        Self,
        TaskStateError,
    >)
        ensures
            match result {
                Ok(snapshot) => bytes <= MAX_TASK_SNAPSHOT_BYTES && decoded == Some(snapshot)
                    && snapshot@.fault() is None && size.is_allowed(),
                Err(e) => if bytes > MAX_TASK_SNAPSHOT_BYTES {
                    e == TaskStateError::Limit
                } else {
                    match decoded {
                        None => e == TaskStateError::Encoding,
                        Some(snapshot) => match snapshot@.fault() {
                            Some(fault) => e == fault,
                            None => !size.is_allowed() && e == TaskStateError::Limit,
                        },
                    }
                },
            },
    {
        if bytes > MAX_TASK_SNAPSHOT_BYTES {
            return Err(TaskStateError::Limit);
        }
        match decoded {
            None => Err(TaskStateError::Encoding),
            Some(snapshot) => match snapshot.validate(size) {
                Err(e) => Err(e),
                Ok(_) => Ok(snapshot),
            },
        }
    }

    /// Checks the form of a snapshot, and its size as the host measured it. It confirms
    /// no history and no business state.
    pub fn validate(&self, size: &SnapshotSize) -> (result: Result<(), TaskStateError>)
        ensures
            result == match self@.fault() {
                Some(e) => Err::<(), TaskStateError>(e),
                None => if size.is_allowed() {
                    Ok(())
                } else {
                    Err(TaskStateError::Limit)
                },
            },
    {
        match self.check_structure() {
            Some(e) => {
                return Err(e);
            },
            None => {},
        }
        if !size.allowed() {
            return Err(TaskStateError::Limit);
        }
        Ok(())
    }

    /// Holds a snapshot against what the host expects and against confirmed evidence.
    /// `rebuilt_size` is what the host measured of the draft that the evidence gives.
    pub fn verify_evidence(
        &self,
        size: &SnapshotSize,
        rebuilt_size: &SnapshotSize,
        identity: &BudgetIdentity,
        revision: u64,
        compatibility: &TaskCompatibility,
        budget: &BudgetCheckpoint,
        history: &Vec<SessionEvent>,
    ) -> (result: Result<(), TaskStateError>)
        ensures
            match result {
                Ok(_) => evidence_fault(
                    self@,
                    *size,
                    *rebuilt_size,
                    identity@,
                    revision,
                    compatibility@,
                    budget@,
                    history.deep_view(),
                ) is None,
                Err(e) => evidence_fault(
                    self@,
                    *size,
                    *rebuilt_size,
                    identity@,
                    revision,
                    compatibility@,
                    budget@,
                    history.deep_view(),
                ) == Some(e),
            },
    {
        match self.validate(size) {
            Err(e) => {
                return Err(e);
            },
            Ok(_) => {},
        }
        if !self.identity.is_same(identity) || !budget.identity().is_same(identity) {
            return Err(TaskStateError::IdentityMismatch);
        }
        if self.revision != revision {
            return Err(
                TaskStateError::RevisionMismatch { expected: revision, actual: self.revision },
            );
        }
        if !self.compatibility.is_same(compatibility) {
            return Err(TaskStateError::Incompatible);
        }
        match Self::capture(
            self.revision - 1,
            compatibility.duplicate(),
            self.payloads.duplicate(),
            budget,
            history,
            rebuilt_size,
        ) {
            Err(e) => Err(e),
            Ok(rebuilt) => if rebuilt.is_same(self) {
                Ok(())
            } else {
                Err(TaskStateError::EvidenceMismatch)
            },
        }
    }

    /// Whether the snapshot may replace the one that a store holds, which comes with what
    /// the host measured of it.
    pub fn validate_successor(
        &self,
        size: &SnapshotSize,
        previous: Option<(&TaskSnapshot, &SnapshotSize)>,
    ) -> (result: Result<(), TaskStateError>)
        ensures
            ({
                let before: u64 = match previous {
                    Some((p, _)) => p@.revision,
                    None => 0,
                };
                if let Some(e) = self@.fault() {
                    result == Err::<(), TaskStateError>(e)
                } else if !size.is_allowed() {
                    result == Err::<(), TaskStateError>(TaskStateError::Limit)
                } else if before == u64::MAX {
                    result == Err::<(), TaskStateError>(TaskStateError::RevisionExhausted)
                } else if self@.revision != before + 1 {
                    result == Err::<(), TaskStateError>(
                        TaskStateError::RevisionMismatch {
                            expected: (before + 1) as u64,
                            actual: self@.revision,
                        },
                    )
                } else {
                    match previous {
                        None => result is Ok,
                        Some((p, held)) => if p@.fault() is None && !held.is_allowed() {
                            result == Err::<(), TaskStateError>(TaskStateError::Limit)
                        } else {
                            match succession_fault(p@, self@) {
                                Some(e) => result == Err::<(), TaskStateError>(e),
                                None => result is Ok,
                            }
                        },
                    }
                }
            }),
    {
        match self.validate(size) {
            Err(e) => {
                return Err(e);
            },
            Ok(_) => {},
        }
        let before: u64 = match previous {
            Some((p, _)) => p.revision,
            None => 0,
        };
        if before == u64::MAX {
            return Err(TaskStateError::RevisionExhausted);
        }
        let expected: u64 = before + 1;
        if self.revision != expected {
            return Err(TaskStateError::RevisionMismatch { expected, actual: self.revision });
        }
        match previous {
            None => Ok(()),
            Some((old, held)) => {
                match old.validate(held) {
                    Err(e) => {
                        return Err(e);
                    },
                    Ok(_) => {},
                }
                self.check_succession(old)
            },
        }
    }

    /// Whether the snapshot goes on from one that was itself found valid.
    pub(crate) fn check_succession(&self, old: &TaskSnapshot) -> (result: Result<(), TaskStateError>)
        ensures
            match succession_fault(old@, self@) {
                Some(e) => result == Err::<(), TaskStateError>(e),
                None => result is Ok,
            },
    {
        match old.check_structure() {
            Some(e) => {
                return Err(e);
            },
            None => {},
        }
        if !old.identity.is_same(&self.identity) {
            return Err(TaskStateError::IdentityMismatch);
        }
        if !old.compatibility.is_same(&self.compatibility) {
            return Err(TaskStateError::Incompatible);
        }
        if self.budget.revision < old.budget.revision || !charges_grow(
            &old.budget.charged,
            &self.budget.charged,
        ) || !steps_start_with(&self.settled_steps, &old.settled_steps) {
            return Err(TaskStateError::EvidenceMismatch);
        }
        let same_cursor: bool = old.cursor.is_same(&self.cursor);
        let forward: bool = match (&old.cursor, &self.cursor) {
            (Some(a), Some(b)) => a.seq < b.seq || same_cursor,
            (Some(_), None) => false,
            _ => true,
        };
        if !forward {
            return Err(TaskStateError::EvidenceMismatch);
        }
        if self.budget.revision == old.budget.revision && (!same_cursor || self.budget.charged
            != old.budget.charged) {
            return Err(TaskStateError::EvidenceMismatch);
        }
        if same_cursor && (!old.phase.is_same(&self.phase) || !old.settled_steps.is_same(
            &self.settled_steps,
        ) || old.budget.charged != self.budget.charged) {
            return Err(TaskStateError::EvidenceMismatch);
        }
        Ok(())
    }
}

/// What was captured is what the same evidence confirms.
pub proof fn captured_snapshots_are_confirmed(
    expected_revision: u64,
    compatibility: CompatibilityView,
    payloads: Seq<PayloadView>,
    budget: CheckpointView,
    events: Seq<SessionEventView>,
    size: SnapshotSize,
)
    requires
        capture_fault(expected_revision, budget, events) is None,
        captured(expected_revision, compatibility, payloads, budget, events).fault() is None,
        size.is_allowed(),
    ensures
        evidence_fault(
            captured(expected_revision, compatibility, payloads, budget, events),
            size,
            size,
            budget.image.report.identity,
            (expected_revision + 1) as u64,
            compatibility,
            budget,
            events,
        ) is None,
{
}

/// Succession is transitive in what it protects: charges, settled steps and the place in
/// the history never go back over any number of steps.
pub proof fn snapshots_never_go_back(a: SnapshotView, b: SnapshotView, c: SnapshotView)
    requires
        succession_fault(a, b) is None,
        succession_fault(b, c) is None,
    ensures
        a.identity == c.identity,
        a.compatibility == c.compatibility,
        a.budget.revision <= c.budget.revision,
        forall|r: BudgetResource|
            #![trigger c.budget.charged.at(r)]
            a.budget.charged.at(r) <= c.budget.charged.at(r),
        a.settled_steps.is_prefix_of(c.settled_steps),
        a.cursor is Some ==> c.cursor is Some && a.cursor->0.seq <= c.cursor->0.seq,
{
    assert forall|r: BudgetResource|
        #![trigger c.budget.charged.at(r)]
        a.budget.charged.at(r) <= c.budget.charged.at(r) by {
        assert(a.budget.charged.at(r) <= b.budget.charged.at(r));
    }
    assert(a.settled_steps =~= c.settled_steps.subrange(0, a.settled_steps.len() as int)) by {
        assert forall|i: int| 0 <= i < a.settled_steps.len() implies a.settled_steps[i]
            == c.settled_steps[i] by {
            assert(a.settled_steps[i] == b.settled_steps.subrange(
                0,
                a.settled_steps.len() as int,
            )[i]);
            assert(b.settled_steps[i] == c.settled_steps.subrange(
                0,
                b.settled_steps.len() as int,
            )[i]);
        }
    }
}

} // verus!
