//! Budget vocabulary. Reports are observations, not durable snapshots or authority.

use crate::id::{SessionId, TaskId, TurnId};
use crate::record::Record;
use crate::text;
use crate::time::Duration;
use vstd::prelude::*;

verus! {

/// Independently limited resources; counters and variable usage are never interchangeable.
#[derive(Clone, Copy, Debug, PartialEq, Eq, Structural)]
pub enum BudgetResource {
    Steps,
    ModelRequests,
    ToolCalls,
    Corrections,
    InputTokens,
    OutputTokens,
    ToolOutputBytes,
}

impl BudgetResource {
    /// The resources in the order in which they are examined.
    pub open spec fn nth(i: int) -> BudgetResource {
        if i <= 0 {
            BudgetResource::Steps
        } else if i == 1 {
            BudgetResource::ModelRequests
        } else if i == 2 {
            BudgetResource::ToolCalls
        } else if i == 3 {
            BudgetResource::Corrections
        } else if i == 4 {
            BudgetResource::InputTokens
        } else if i == 5 {
            BudgetResource::OutputTokens
        } else {
            BudgetResource::ToolOutputBytes
        }
    }

    /// Counted once per admission and never given back.
    pub open spec fn counts_attempts(self) -> bool {
        match self {
            BudgetResource::Steps
            | BudgetResource::ModelRequests
            | BudgetResource::ToolCalls
            | BudgetResource::Corrections => true,
            _ => false,
        }
    }

    /// Every resource, in the order in which they are examined.
    #[allow(non_snake_case)]
    pub fn ALL() -> (all: [BudgetResource; 7])
        ensures
            forall|i: int| 0 <= i < 7 ==> #[trigger] all@[i] == BudgetResource::nth(i),
    {
        [
            BudgetResource::Steps,
            BudgetResource::ModelRequests,
            BudgetResource::ToolCalls,
            BudgetResource::Corrections,
            BudgetResource::InputTokens,
            BudgetResource::OutputTokens,
            BudgetResource::ToolOutputBytes,
        ]
    }

    pub fn is_attempt(self) -> (answer: bool)
        ensures
            answer == self.counts_attempts(),
    {
        match self {
            BudgetResource::Steps
            | BudgetResource::ModelRequests
            | BudgetResource::ToolCalls
            | BudgetResource::Corrections => true,
            _ => false,
        }
    }

    /// Every resource has a place in the order.
    pub proof fn place(self) -> (i: int)
        ensures
            0 <= i < 7,
            BudgetResource::nth(i) == self,
    {
        match self {
            BudgetResource::Steps => 0,
            BudgetResource::ModelRequests => 1,
            BudgetResource::ToolCalls => 2,
            BudgetResource::Corrections => 3,
            BudgetResource::InputTokens => 4,
            BudgetResource::OutputTokens => 5,
            BudgetResource::ToolOutputBytes => 6,
        }
    }
}

#[derive(Clone, Copy, Debug, PartialEq, Eq, Structural)]
pub struct BudgetAmounts {
    pub steps: u64,
    pub model_requests: u64,
    pub tool_calls: u64,
    pub corrections: u64,
    pub input_tokens: u64,
    pub output_tokens: u64,
    pub tool_output_bytes: u64,
}

impl BudgetAmounts {
    pub open spec fn at(self, resource: BudgetResource) -> u64 {
        match resource {
            BudgetResource::Steps => self.steps,
            BudgetResource::ModelRequests => self.model_requests,
            BudgetResource::ToolCalls => self.tool_calls,
            BudgetResource::Corrections => self.corrections,
            BudgetResource::InputTokens => self.input_tokens,
            BudgetResource::OutputTokens => self.output_tokens,
            BudgetResource::ToolOutputBytes => self.tool_output_bytes,
        }
    }

    pub open spec fn with(self, resource: BudgetResource, value: u64) -> BudgetAmounts {
        match resource {
            BudgetResource::Steps => BudgetAmounts { steps: value, ..self },
            BudgetResource::ModelRequests => BudgetAmounts { model_requests: value, ..self },
            BudgetResource::ToolCalls => BudgetAmounts { tool_calls: value, ..self },
            BudgetResource::Corrections => BudgetAmounts { corrections: value, ..self },
            BudgetResource::InputTokens => BudgetAmounts { input_tokens: value, ..self },
            BudgetResource::OutputTokens => BudgetAmounts { output_tokens: value, ..self },
            BudgetResource::ToolOutputBytes => BudgetAmounts { tool_output_bytes: value, ..self },
        }
    }

    pub open spec fn none() -> BudgetAmounts {
        BudgetAmounts {
            steps: 0,
            model_requests: 0,
            tool_calls: 0,
            corrections: 0,
            input_tokens: 0,
            output_tokens: 0,
            tool_output_bytes: 0,
        }
    }

    pub fn zero() -> (amounts: BudgetAmounts)
        ensures
            amounts == BudgetAmounts::none(),
    {
        BudgetAmounts {
            steps: 0,
            model_requests: 0,
            tool_calls: 0,
            corrections: 0,
            input_tokens: 0,
            output_tokens: 0,
            tool_output_bytes: 0,
        }
    }

    pub fn get(&self, resource: BudgetResource) -> (value: u64)
        ensures
            value == self.at(resource),
    {
        match resource {
            BudgetResource::Steps => self.steps,
            BudgetResource::ModelRequests => self.model_requests,
            BudgetResource::ToolCalls => self.tool_calls,
            BudgetResource::Corrections => self.corrections,
            BudgetResource::InputTokens => self.input_tokens,
            BudgetResource::OutputTokens => self.output_tokens,
            BudgetResource::ToolOutputBytes => self.tool_output_bytes,
        }
    }

    pub fn set(&mut self, resource: BudgetResource, value: u64)
        ensures
            *final(self) == old(self).with(resource, value),
    {
        match resource {
            BudgetResource::Steps => {
                self.steps = value;
            },
            BudgetResource::ModelRequests => {
                self.model_requests = value;
            },
            BudgetResource::ToolCalls => {
                self.tool_calls = value;
            },
            BudgetResource::Corrections => {
                self.corrections = value;
            },
            BudgetResource::InputTokens => {
                self.input_tokens = value;
            },
            BudgetResource::OutputTokens => {
                self.output_tokens = value;
            },
            BudgetResource::ToolOutputBytes => {
                self.tool_output_bytes = value;
            },
        }
    }

    /// A write is read back under its own resource and nowhere else.
    pub proof fn set_then_get(
        self,
        written: BudgetResource,
        value: u64,
        read: BudgetResource,
    )
        ensures
            self.with(written, value).at(read) == if read == written {
                value
            } else {
                self.at(read)
            },
    {
    }

    /// Amounts are equal where they agree on every resource.
    pub proof fn equal_by_resource(self, other: BudgetAmounts)
        requires
            forall|r: BudgetResource| self.at(r) == #[trigger] other.at(r),
        ensures
            self == other,
    {
        assert(self.at(BudgetResource::Steps) == other.at(BudgetResource::Steps));
        assert(self.at(BudgetResource::ModelRequests) == other.at(BudgetResource::ModelRequests));
        assert(self.at(BudgetResource::ToolCalls) == other.at(BudgetResource::ToolCalls));
        assert(self.at(BudgetResource::Corrections) == other.at(BudgetResource::Corrections));
        assert(self.at(BudgetResource::InputTokens) == other.at(BudgetResource::InputTokens));
        assert(self.at(BudgetResource::OutputTokens) == other.at(BudgetResource::OutputTokens));
        assert(self.at(BudgetResource::ToolOutputBytes) == other.at(
            BudgetResource::ToolOutputBytes,
        ));
    }
}

impl Default for BudgetAmounts {
    fn default() -> (amounts: Self)
        ensures
            amounts == BudgetAmounts::none(),
    {
        BudgetAmounts::zero()
    }
}

/// All limits are finite and explicit. Zero prohibits that resource.
#[derive(Clone, Copy, Debug, PartialEq, Eq, Structural)]
pub struct BudgetLimits {
    pub resources: BudgetAmounts,
    pub active_time: Duration,
}

/// Limits with the time as nanoseconds.
pub struct LimitsView {
    pub resources: BudgetAmounts,
    pub active: nat,
}

pub open spec fn min64(a: u64, b: u64) -> u64 {
    if b < a {
        b
    } else {
        a
    }
}

pub open spec fn min_nat(a: nat, b: nat) -> nat {
    if b < a {
        b
    } else {
        a
    }
}

impl LimitsView {
    /// The tighter of two limits on each resource and on time.
    pub open spec fn meet(self, other: LimitsView) -> LimitsView {
        LimitsView {
            resources: BudgetAmounts {
                steps: min64(self.resources.steps, other.resources.steps),
                model_requests: min64(self.resources.model_requests, other.resources.model_requests),
                tool_calls: min64(self.resources.tool_calls, other.resources.tool_calls),
                corrections: min64(self.resources.corrections, other.resources.corrections),
                input_tokens: min64(self.resources.input_tokens, other.resources.input_tokens),
                output_tokens: min64(self.resources.output_tokens, other.resources.output_tokens),
                tool_output_bytes: min64(
                    self.resources.tool_output_bytes,
                    other.resources.tool_output_bytes,
                ),
            },
            active: min_nat(self.active, other.active),
        }
    }

    /// No limit of `self` is above that of `other`.
    pub open spec fn within(self, other: LimitsView) -> bool {
        self.active <= other.active && forall|r: BudgetResource|
            self.resources.at(r) <= #[trigger] other.resources.at(r)
    }

    /// Tightening is the greatest lower bound: it lies within both, and whatever
    /// lies within both lies within it.
    pub proof fn meet_is_greatest_lower_bound(self, other: LimitsView, below: LimitsView)
        ensures
            self.meet(other).within(self),
            self.meet(other).within(other),
            below.within(self) && below.within(other) ==> below.within(self.meet(other)),
    {
        if below.within(self) && below.within(other) {
            assert forall|r: BudgetResource| below.resources.at(r) <= #[trigger] self.meet(
                other,
            ).resources.at(r) by {
                assert(below.resources.at(r) <= self.resources.at(r));
                assert(below.resources.at(r) <= other.resources.at(r));
            }
        }
    }

    /// The order and the grouping of several limits do not matter, and tightening
    /// by the same limits again changes nothing.
    pub proof fn meet_laws(self, second: LimitsView, third: LimitsView)
        ensures
            self.meet(second) == second.meet(self),
            self.meet(second).meet(third) == self.meet(second.meet(third)),
            self.meet(self) == self,
            self.meet(second).meet(second) == self.meet(second),
    {
    }
}

impl BudgetLimits {
    pub open spec fn view(&self) -> LimitsView {
        LimitsView { resources: self.resources, active: self.active_time.length() }
    }

    pub fn tightened_by(self, other: Self) -> (tighter: Self)
        ensures
            tighter@ == self@.meet(other@),
            tighter.active_time == self.active_time || tighter.active_time == other.active_time,
    {
        let mut resources = self.resources;
        let all = BudgetResource::ALL();
        let mut i: usize = 0;
        while i < 7
            invariant
                i <= 7,
                forall|j: int| 0 <= j < 7 ==> #[trigger] all@[j] == BudgetResource::nth(j),
                forall|j: int|
                    0 <= j < 7 ==> resources.at(#[trigger] BudgetResource::nth(j)) == if j < i {
                        min64(
                            self.resources.at(BudgetResource::nth(j)),
                            other.resources.at(BudgetResource::nth(j)),
                        )
                    } else {
                        self.resources.at(BudgetResource::nth(j))
                    },
            decreases 7 - i,
        {
            let resource = all[i];
            assert(all@[i as int] == BudgetResource::nth(i as int));
            let mine: u64 = resources.get(resource);
            let theirs: u64 = other.resources.get(resource);
            let tight: u64 = if theirs < mine {
                theirs
            } else {
                mine
            };
            resources.set(resource, tight);
            i = i + 1;
        }
        assert(resources == self@.meet(other@).resources) by {
            assert(BudgetResource::nth(0) == BudgetResource::Steps);
            assert(BudgetResource::nth(1) == BudgetResource::ModelRequests);
            assert(BudgetResource::nth(2) == BudgetResource::ToolCalls);
            assert(BudgetResource::nth(3) == BudgetResource::Corrections);
            assert(BudgetResource::nth(4) == BudgetResource::InputTokens);
            assert(BudgetResource::nth(5) == BudgetResource::OutputTokens);
            assert(BudgetResource::nth(6) == BudgetResource::ToolOutputBytes);
        }
        BudgetLimits { resources, active_time: self.active_time.min(other.active_time) }
    }
}

/// Finite compatibility limits used by canonical runtimes for an unbound turn.
impl Default for BudgetLimits {
    fn default() -> (limits: Self)
        ensures
            limits.resources == (BudgetAmounts {
                steps: 128,
                model_requests: 128,
                tool_calls: 128,
                corrections: 32,
                input_tokens: 4_000_000,
                output_tokens: 1_000_000,
                tool_output_bytes: 16_777_216,
            }),
            limits.active_time.length() == 600_000_000_000,
    {
        BudgetLimits {
            resources: BudgetAmounts {
                steps: 128,
                model_requests: 128,
                tool_calls: 128,
                corrections: 32,
                input_tokens: 4_000_000,
                output_tokens: 1_000_000,
                tool_output_bytes: 16 * 1024 * 1024,
            },
            active_time: Duration::from_secs(600),
        }
    }
}

/// The task, its session and the agent that works on it.
#[derive(Debug, PartialEq, Eq)]
pub struct BudgetIdentity {
    pub task_id: TaskId,
    pub session_id: SessionId,
    pub agent_key: String,
}

pub struct IdentityView {
    pub task: Seq<char>,
    pub session: Seq<char>,
    pub agent: Seq<char>,
}

impl IdentityView {
    /// Each part says something.
    pub open spec fn is_named(self) -> bool {
        !text::is_blank(self.task) && !text::is_blank(self.session) && !text::is_blank(self.agent)
    }
}

impl BudgetIdentity {
    pub open spec fn view(&self) -> IdentityView {
        IdentityView {
            task: self.task_id@,
            session: self.session_id@,
            agent: self.agent_key@,
        }
    }

    /// Whether each part says something.
    pub(crate) fn named(&self) -> (answer: bool)
        ensures
            answer == self@.is_named(),
    {
        !text::blank(self.task_id.as_str()) && !text::blank(self.session_id.as_str()) && !text::blank(
            self.agent_key.as_str(),
        )
    }
}

impl Clone for BudgetIdentity {
    fn clone(&self) -> (copy: Self)
        ensures
            copy == *self,
    {
        BudgetIdentity {
            task_id: self.task_id.clone(),
            session_id: self.session_id.clone(),
            agent_key: self.agent_key.clone(),
        }
    }
}

#[derive(Clone, Copy, Debug, PartialEq, Eq, Structural)]
pub enum TokenBudgetMode {
    Hard,
    Soft,
}

/// A trusted admission layer supplies evidence; this enum does not verify a tokenizer.
#[derive(Clone, Copy, Debug, PartialEq, Eq, Structural)]
pub enum TokenBoundEvidence {
    VerifiedUpperBound,
    Estimate,
}

#[derive(Clone, Copy, Debug, PartialEq, Eq, Structural)]
pub struct BudgetRequest {
    pub amounts: BudgetAmounts,
    pub input_tokens: TokenBoundEvidence,
    pub output_tokens: TokenBoundEvidence,
}

impl BudgetRequest {
    pub fn new(amounts: BudgetAmounts) -> (request: Self)
        ensures
            request == (BudgetRequest {
                amounts,
                input_tokens: TokenBoundEvidence::Estimate,
                output_tokens: TokenBoundEvidence::Estimate,
            }),
    {
        BudgetRequest {
            amounts,
            input_tokens: TokenBoundEvidence::Estimate,
            output_tokens: TokenBoundEvidence::Estimate,
        }
    }

    pub fn with_token_evidence(
        self,
        input: TokenBoundEvidence,
        output: TokenBoundEvidence,
    ) -> (request: Self)
        ensures
            request == (BudgetRequest {
                amounts: self.amounts,
                input_tokens: input,
                output_tokens: output,
            }),
    {
        BudgetRequest { amounts: self.amounts, input_tokens: input, output_tokens: output }
    }
}

#[derive(Clone, Copy, Debug, PartialEq, Eq, Structural)]
pub enum UsageValue {
    Actual(u64),
    Estimated(u64),
    Unknown,
}

#[derive(Clone, Copy, Debug, PartialEq, Eq, Structural)]
pub struct BudgetUsage {
    pub input_tokens: UsageValue,
    pub output_tokens: UsageValue,
    pub tool_output_bytes: UsageValue,
}

impl BudgetUsage {
    pub fn actual(input_tokens: u64, output_tokens: u64, tool_output_bytes: u64) -> (usage: Self)
        ensures
            usage == (BudgetUsage {
                input_tokens: UsageValue::Actual(input_tokens),
                output_tokens: UsageValue::Actual(output_tokens),
                tool_output_bytes: UsageValue::Actual(tool_output_bytes),
            }),
    {
        BudgetUsage {
            input_tokens: UsageValue::Actual(input_tokens),
            output_tokens: UsageValue::Actual(output_tokens),
            tool_output_bytes: UsageValue::Actual(tool_output_bytes),
        }
    }
}

/// Evidence totals, separate from the conservative charged amount. Unknown is a count.
#[derive(Clone, Copy, Debug, PartialEq, Eq, Structural)]
pub struct UsageTotals {
    pub actual: u64,
    pub estimated: u64,
    pub unknown: u64,
}

#[derive(Clone, Copy, Debug, PartialEq, Eq, Structural)]
pub struct BudgetUsageReport {
    pub input_tokens: UsageTotals,
    pub output_tokens: UsageTotals,
    pub tool_output_bytes: UsageTotals,
}

impl UsageTotals {
    pub open spec fn none() -> UsageTotals {
        UsageTotals { actual: 0, estimated: 0, unknown: 0 }
    }
}

impl BudgetUsageReport {
    pub open spec fn none() -> BudgetUsageReport {
        BudgetUsageReport {
            input_tokens: UsageTotals::none(),
            output_tokens: UsageTotals::none(),
            tool_output_bytes: UsageTotals::none(),
        }
    }

    pub open spec fn at(self, resource: BudgetResource) -> UsageTotals {
        match resource {
            BudgetResource::InputTokens => self.input_tokens,
            BudgetResource::OutputTokens => self.output_tokens,
            BudgetResource::ToolOutputBytes => self.tool_output_bytes,
            _ => UsageTotals::none(),
        }
    }
}

impl Default for UsageTotals {
    fn default() -> (totals: Self)
        ensures
            totals == UsageTotals::none(),
    {
        UsageTotals { actual: 0, estimated: 0, unknown: 0 }
    }
}

impl Default for BudgetUsageReport {
    fn default() -> (report: Self)
        ensures
            report == BudgetUsageReport::none(),
    {
        BudgetUsageReport {
            input_tokens: UsageTotals { actual: 0, estimated: 0, unknown: 0 },
            output_tokens: UsageTotals { actual: 0, estimated: 0, unknown: 0 },
            tool_output_bytes: UsageTotals { actual: 0, estimated: 0, unknown: 0 },
        }
    }
}

#[derive(Clone, Copy, Debug, PartialEq, Eq, Structural)]
pub enum BudgetStopReason {
    /// A restored interrupted run requires host reconciliation; never auto-replay it.
    RecoveryRequired,
    ResourceLimit(BudgetResource),
    ActiveTime,
    UsageExceededReservation(BudgetResource),
    AbandonedReservation,
    RunAbandoned,
    ClockMovedBackwards,
    AccountingOverflow,
    IdentityMismatch,
    InvalidRequest,
}

#[derive(Clone, Copy, Debug, PartialEq, Eq, Structural)]
pub enum BudgetEventKind {
    ModelRequest,
    ModelResult,
    ToolCall,
    ToolResult,
}

#[derive(Clone, Copy, Debug, PartialEq, Eq, Structural)]
pub struct BudgetEventCounts {
    pub model_requests: u64,
    pub model_results: u64,
    pub tool_calls: u64,
    pub tool_results: u64,
}

/// Duration sums for capability work; parallel durations are not task active time.
#[derive(Clone, Copy, Debug, PartialEq, Eq, Structural)]
pub struct BudgetExecutionMetrics {
    pub session_wait: Duration,
    pub model_queue: Duration,
    pub model_execution: Duration,
    pub tool_execution: Duration,
    pub confirmed: BudgetEventCounts,
    pub unconfirmed: BudgetEventCounts,
}

/// Metrics with the times as nanoseconds.
pub struct MetricsView {
    pub session_wait: nat,
    pub model_queue: nat,
    pub model_execution: nat,
    pub tool_execution: nat,
    pub confirmed: BudgetEventCounts,
    pub unconfirmed: BudgetEventCounts,
}

impl BudgetEventCounts {
    pub open spec fn none() -> BudgetEventCounts {
        BudgetEventCounts { model_requests: 0, model_results: 0, tool_calls: 0, tool_results: 0 }
    }
}

impl Default for BudgetEventCounts {
    fn default() -> (counts: Self)
        ensures
            counts == BudgetEventCounts::none(),
    {
        BudgetEventCounts { model_requests: 0, model_results: 0, tool_calls: 0, tool_results: 0 }
    }
}

impl MetricsView {
    pub open spec fn none() -> MetricsView {
        MetricsView {
            session_wait: 0,
            model_queue: 0,
            model_execution: 0,
            tool_execution: 0,
            confirmed: BudgetEventCounts::none(),
            unconfirmed: BudgetEventCounts::none(),
        }
    }
}

impl BudgetExecutionMetrics {
    pub open spec fn view(&self) -> MetricsView {
        MetricsView {
            session_wait: self.session_wait.length(),
            model_queue: self.model_queue.length(),
            model_execution: self.model_execution.length(),
            tool_execution: self.tool_execution.length(),
            confirmed: self.confirmed,
            unconfirmed: self.unconfirmed,
        }
    }
}

impl Default for BudgetExecutionMetrics {
    fn default() -> (metrics: Self)
        ensures
            metrics@ == MetricsView::none(),
    {
        BudgetExecutionMetrics {
            session_wait: Duration::zero(),
            model_queue: Duration::zero(),
            model_execution: Duration::zero(),
            tool_execution: Duration::zero(),
            confirmed: BudgetEventCounts::default(),
            unconfirmed: BudgetEventCounts::default(),
        }
    }
}

/// What one run has consumed so far.
#[derive(Debug, PartialEq, Eq)]
pub struct BudgetRunReport {
    pub turn_id: Option<TurnId>,
    pub metrics: BudgetExecutionMetrics,
    pub limits: BudgetLimits,
    pub charged: BudgetAmounts,
    pub reserved: BudgetAmounts,
    pub active_time: Duration,
    pub cleanup_time: Duration,
    pub open: bool,
    pub stop: Option<BudgetStopReason>,
}

pub struct RunReportView {
    pub turn: Option<Seq<char>>,
    pub metrics: MetricsView,
    pub limits: LimitsView,
    pub charged: BudgetAmounts,
    pub reserved: BudgetAmounts,
    pub active: nat,
    pub cleanup: nat,
    pub open: bool,
    pub stop: Option<BudgetStopReason>,
}

pub open spec fn turn_view(turn: Option<TurnId>) -> Option<Seq<char>> {
    match turn {
        Some(id) => Some(id@),
        None => None,
    }
}

impl BudgetRunReport {
    pub open spec fn view(&self) -> RunReportView {
        RunReportView {
            turn: turn_view(self.turn_id),
            metrics: self.metrics@,
            limits: self.limits@,
            charged: self.charged,
            reserved: self.reserved,
            active: self.active_time.length(),
            cleanup: self.cleanup_time.length(),
            open: self.open,
            stop: self.stop,
        }
    }
}

pub(crate) fn clone_turn(turn: &Option<TurnId>) -> (copy: Option<TurnId>)
    ensures
        copy == *turn,
{
    match turn {
        Some(id) => Some(id.clone()),
        None => None,
    }
}

impl Clone for BudgetRunReport {
    fn clone(&self) -> (copy: Self)
        ensures
            copy == *self,
    {
        BudgetRunReport {
            turn_id: clone_turn(&self.turn_id),
            metrics: self.metrics,
            limits: self.limits,
            charged: self.charged,
            reserved: self.reserved,
            active_time: self.active_time,
            cleanup_time: self.cleanup_time,
            open: self.open,
            stop: self.stop,
        }
    }
}

/// One reservation that has not been settled.
#[derive(Clone, Copy, Debug, PartialEq, Eq, Structural)]
pub struct BudgetPendingReport {
    pub id: u64,
    pub request: BudgetRequest,
    pub started: bool,
    pub abandoned: bool,
    /// Raw evidence retained if arithmetic prevents settlement.
    pub failed_usage: Option<BudgetUsage>,
}

/// In-memory observation only: it cannot create a live ledger.
#[derive(Debug, PartialEq, Eq)]
pub struct BudgetReport {
    pub identity: BudgetIdentity,
    pub limits: BudgetLimits,
    pub token_mode: TokenBudgetMode,
    pub charged: BudgetAmounts,
    pub reserved: BudgetAmounts,
    pub active_time: Duration,
    pub cleanup_time: Duration,
    pub stop: Option<BudgetStopReason>,
    pub usage: BudgetUsageReport,
    pub run: Option<BudgetRunReport>,
    pub pending: Vec<BudgetPendingReport>,
}

pub struct ReportView {
    pub identity: IdentityView,
    pub limits: LimitsView,
    pub token_mode: TokenBudgetMode,
    pub charged: BudgetAmounts,
    pub reserved: BudgetAmounts,
    pub active: nat,
    pub cleanup: nat,
    pub stop: Option<BudgetStopReason>,
    pub usage: BudgetUsageReport,
    pub run: Option<RunReportView>,
    pub pending: Seq<BudgetPendingReport>,
}

pub open spec fn run_view(run: Option<BudgetRunReport>) -> Option<RunReportView> {
    match run {
        Some(run) => Some(run@),
        None => None,
    }
}

impl BudgetReport {
    pub open spec fn view(&self) -> ReportView {
        ReportView {
            identity: self.identity@,
            limits: self.limits@,
            token_mode: self.token_mode,
            charged: self.charged,
            reserved: self.reserved,
            active: self.active_time.length(),
            cleanup: self.cleanup_time.length(),
            stop: self.stop,
            usage: self.usage,
            run: run_view(self.run),
            pending: self.pending@,
        }
    }
}

pub(crate) fn clone_pending(pending: &Vec<BudgetPendingReport>) -> (copy: Vec<BudgetPendingReport>)
    ensures
        copy@ == pending@,
{
    let mut copy: Vec<BudgetPendingReport> = Vec::new();
    let mut i: usize = 0;
    while i < pending.len()
        invariant
            i <= pending@.len(),
            copy@ == pending@.take(i as int),
        decreases pending@.len() - i,
    {
        copy.push(pending[i]);
        assert(pending@.take(i as int + 1) =~= pending@.take(i as int).push(pending@[i as int]));
        i = i + 1;
    }
    assert(pending@.take(pending@.len() as int) =~= pending@);
    copy
}

impl Clone for BudgetReport {
    fn clone(&self) -> (copy: Self)
        ensures
            copy@ == self@,
    {
        BudgetReport {
            identity: self.identity.clone(),
            limits: self.limits,
            token_mode: self.token_mode,
            charged: self.charged,
            reserved: self.reserved,
            active_time: self.active_time,
            cleanup_time: self.cleanup_time,
            stop: self.stop,
            usage: self.usage,
            run: match &self.run {
                Some(run) => Some(run.clone()),
                None => None,
            },
            pending: clone_pending(&self.pending),
        }
    }
}

impl DeepView for BudgetLimits {
    type V = LimitsView;

    open spec fn deep_view(&self) -> LimitsView {
        self@
    }
}

impl Record for BudgetLimits {
    fn is_same(&self, other: &Self) -> (answer: bool) {
        self.resources == other.resources && self.active_time.same_length(&other.active_time)
    }

    fn duplicate(&self) -> (copy: Self) {
        *self
    }
}

impl DeepView for BudgetIdentity {
    type V = IdentityView;

    open spec fn deep_view(&self) -> IdentityView {
        self@
    }
}

impl Record for BudgetIdentity {
    fn is_same(&self, other: &Self) -> (answer: bool) {
        self.task_id.is_same(&other.task_id) && self.session_id.is_same(&other.session_id)
            && self.agent_key.is_same(&other.agent_key)
    }

    fn duplicate(&self) -> (copy: Self) {
        self.clone()
    }
}

impl DeepView for BudgetExecutionMetrics {
    type V = MetricsView;

    open spec fn deep_view(&self) -> MetricsView {
        self@
    }
}

impl Record for BudgetExecutionMetrics {
    fn is_same(&self, other: &Self) -> (answer: bool) {
        self.session_wait.same_length(&other.session_wait) && self.model_queue.same_length(
            &other.model_queue,
        ) && self.model_execution.same_length(&other.model_execution)
            && self.tool_execution.same_length(&other.tool_execution) && self.confirmed
            == other.confirmed && self.unconfirmed == other.unconfirmed
    }

    fn duplicate(&self) -> (copy: Self) {
        *self
    }
}

pub(crate) fn same_stop(left: &Option<BudgetStopReason>, right: &Option<BudgetStopReason>) -> (answer: bool)
    ensures
        answer == (*left == *right),
{
    match (left, right) {
        (Some(a), Some(b)) => *a == *b,
        (None, None) => true,
        _ => false,
    }
}

impl DeepView for BudgetRunReport {
    type V = RunReportView;

    open spec fn deep_view(&self) -> RunReportView {
        self@
    }
}

impl Record for BudgetRunReport {
    fn is_same(&self, other: &Self) -> (answer: bool) {
        self.turn_id.is_same(&other.turn_id) && self.metrics.is_same(&other.metrics)
            && self.limits.is_same(&other.limits) && self.charged == other.charged && self.reserved
            == other.reserved && self.active_time.same_length(&other.active_time)
            && self.cleanup_time.same_length(&other.cleanup_time) && self.open == other.open
            && same_stop(&self.stop, &other.stop)
    }

    fn duplicate(&self) -> (copy: Self) {
        self.clone()
    }
}

fn same_pending(left: &Vec<BudgetPendingReport>, right: &Vec<BudgetPendingReport>) -> (answer: bool)
    ensures
        answer == (left@ == right@),
{
    if left.len() != right.len() {
        return false;
    }
    let mut i: usize = 0;
    while i < left.len()
        invariant
            i <= left@.len(),
            left@.len() == right@.len(),
            forall|j: int| 0 <= j < i ==> left@[j] == right@[j],
        decreases left@.len() - i,
    {
        if left[i].id != right[i].id || left[i].request != right[i].request || left[i].started
            != right[i].started || left[i].abandoned != right[i].abandoned || !same_usage(
            &left[i].failed_usage,
            &right[i].failed_usage,
        ) {
            assert(left@[i as int] != right@[i as int]);
            return false;
        }
        i = i + 1;
    }
    assert(left@ =~= right@);
    true
}

fn same_usage(left: &Option<BudgetUsage>, right: &Option<BudgetUsage>) -> (answer: bool)
    ensures
        answer == (*left == *right),
{
    match (left, right) {
        (Some(a), Some(b)) => *a == *b,
        (None, None) => true,
        _ => false,
    }
}

impl DeepView for BudgetReport {
    type V = ReportView;

    open spec fn deep_view(&self) -> ReportView {
        self@
    }
}

impl Record for BudgetReport {
    fn is_same(&self, other: &Self) -> (answer: bool) {
        self.identity.is_same(&other.identity) && self.limits.is_same(&other.limits)
            && self.token_mode == other.token_mode && self.charged == other.charged
            && self.reserved == other.reserved && self.active_time.same_length(&other.active_time)
            && self.cleanup_time.same_length(&other.cleanup_time) && same_stop(
            &self.stop,
            &other.stop,
        ) && self.usage == other.usage && self.run.is_same(&other.run) && same_pending(
            &self.pending,
            &other.pending,
        )
    }

    fn duplicate(&self) -> (copy: Self) {
        self.clone()
    }
}

#[derive(Clone, Copy, Debug, PartialEq, Eq, Structural)]
pub enum TaskRunReportVersion {
    V1,
}

impl TaskRunReportVersion {
    /// The version that a recorded number stands for.
    pub fn try_from_number(value: u16) -> (version: Option<TaskRunReportVersion>)
        ensures
            version == if value == 1 {
                Some(TaskRunReportVersion::V1)
            } else {
                None
            },
    {
        if value == 1 {
            Some(TaskRunReportVersion::V1)
        } else {
            None
        }
    }

    pub fn number(self) -> (value: u16)
        ensures
            value == 1,
    {
        1
    }
}

#[derive(Clone, Copy, Debug, PartialEq, Eq, Structural)]
pub enum TaskRunStop {
    Completed,
    WaitingForInput,
    CallerCancelled,
    RuntimeStopping,
    Budget(BudgetStopReason),
    Failed,
}

/// Observation after capability drain, before this report and the terminal are written.
/// This record is not a durable authority or a recovery snapshot.
#[derive(Debug, PartialEq, Eq)]
pub struct TaskRunReport {
    pub version: TaskRunReportVersion,
    pub budget: BudgetReport,
    pub stop: TaskRunStop,
    pub capabilities_drained: bool,
}

pub struct TaskRunReportView {
    pub version: TaskRunReportVersion,
    pub budget: ReportView,
    pub stop: TaskRunStop,
    pub capabilities_drained: bool,
}

impl TaskRunReport {
    pub open spec fn view(&self) -> TaskRunReportView {
        TaskRunReportView {
            version: self.version,
            budget: self.budget@,
            stop: self.stop,
            capabilities_drained: self.capabilities_drained,
        }
    }
}

impl DeepView for TaskRunReport {
    type V = TaskRunReportView;

    open spec fn deep_view(&self) -> TaskRunReportView {
        self@
    }
}

impl Record for TaskRunReport {
    fn is_same(&self, other: &Self) -> (answer: bool) {
        self.version == other.version && self.budget.is_same(&other.budget) && self.stop
            == other.stop && self.capabilities_drained == other.capabilities_drained
    }

    fn duplicate(&self) -> (copy: Self) {
        TaskRunReport {
            version: self.version,
            budget: self.budget.duplicate(),
            stop: self.stop,
            capabilities_drained: self.capabilities_drained,
        }
    }
}

} // verus!
