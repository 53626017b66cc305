//! Which model calls wait, which hold a slot, and which are only being closed.
//!
//! A call that was let in is owned until its result is recorded. It holds a slot while
//! it is prepared or carried out, and gives the slot back, once, before its result is
//! recorded. Calls wait in the order in which they came.

use crate::budget::model::time_end;
use crate::id::ModelCallId;
use crate::llm::failure::{
    aggregates, is_closure_error, is_closure_failure, ModelFinishMode, ModelGatewayError, ModelOverloadKind, ModelRecordStage,
    ModelRuntimeError, ModelTurnFailure,
};
use crate::llm::results::ModelJobStopReason;
use crate::json::{decimal, decimal_text};
use crate::lifecycle::{
    acknowledge, count_failure, counted_up, counts_one_more, unheard, unheard_count, LifecycleState, Unacknowledged,
};
use crate::record::Record;
use crate::time::Duration;
use vstd::prelude::*;

verus! {

/// Limits shared by all calls of all turns.
#[derive(Clone, Copy, Debug, PartialEq, Eq, Structural)]
pub struct ModelSchedulerConfig {
    /// Slots for calls that are prepared or carried out. Positive.
    pub max_concurrency: usize,
    /// Calls waiting for a slot. Zero means that none may wait.
    pub max_queued: usize,
    /// All calls that were let in, those being closed too. At least `max_concurrency`.
    pub max_inflight: usize,
    /// Serialized bytes of a request and its options.
    pub max_request_bytes: usize,
}

impl ModelSchedulerConfig {
    pub open spec fn is_workable(self) -> bool {
        0 < self.max_concurrency <= self.max_inflight && self.max_request_bytes > 0
    }

    pub fn new() -> (config: Self)
        ensures
            config == (ModelSchedulerConfig {
                max_concurrency: 4,
                max_queued: 32,
                max_inflight: 64,
                max_request_bytes: 8_388_608,
            }),
    {
        ModelSchedulerConfig {
            max_concurrency: 4,
            max_queued: 32,
            max_inflight: 64,
            max_request_bytes: 8_388_608,
        }
    }

    /// Whether a runtime can be made with these limits.
    pub fn validate(&self) -> (answer: bool)
        ensures
            answer == self.is_workable(),
    {
        self.max_concurrency > 0 && self.max_inflight >= self.max_concurrency
            && self.max_request_bytes > 0
    }
}

impl Default for ModelSchedulerConfig {
    fn default() -> (config: Self)
        ensures
            config == (ModelSchedulerConfig {
                max_concurrency: 4,
                max_queued: 32,
                max_inflight: 64,
                max_request_bytes: 8_388_608,
            }),
    {
        Self::new()
    }
}

#[derive(Clone, Copy, Debug, PartialEq, Eq, Structural)]
pub enum ModelJobPhase {
    Queued,
    /// A slot is held, and the provider is not asked yet.
    Preparing,
    Executing,
    /// No slot is held; records are still being closed.
    Cleaning,
}

/// A call that was let in. Times are the host's clock.
#[derive(Debug, PartialEq, Eq)]
pub struct ScheduledJob {
    pub id: u64,
    pub call_id: ModelCallId,
    pub phase: ModelJobPhase,
    pub admitted_at: Duration,
    pub slot_at: Option<Duration>,
    pub started_at: Option<Duration>,
    pub closed_at: Option<Duration>,
    pub deadline: Duration,
    pub timeout: Duration,
    pub recording: Option<ModelRecordStage>,
    pub request_recorded: bool,
    pub result_recorded: bool,
    pub stop_reason: Option<ModelJobStopReason>,
    /// The turn or the runtime asked it to stop.
    pub cancelled: bool,
}

pub struct JobView {
    pub id: u64,
    pub call_id: Seq<char>,
    pub phase: ModelJobPhase,
    pub admitted_at: Duration,
    pub slot_at: Option<Duration>,
    pub started_at: Option<Duration>,
    pub closed_at: Option<Duration>,
    pub deadline: Duration,
    pub timeout: Duration,
    pub recording: Option<ModelRecordStage>,
    pub request_recorded: bool,
    pub result_recorded: bool,
    pub stop_reason: Option<ModelJobStopReason>,
    pub cancelled: bool,
}

impl DeepView for ScheduledJob {
    type V = JobView;

    open spec fn deep_view(&self) -> JobView {
        JobView {
            id: self.id,
            call_id: self.call_id@,
            phase: self.phase,
            admitted_at: self.admitted_at,
            slot_at: self.slot_at,
            started_at: self.started_at,
            closed_at: self.closed_at,
            deadline: self.deadline,
            timeout: self.timeout,
            recording: self.recording,
            request_recorded: self.request_recorded,
            result_recorded: self.result_recorded,
            stop_reason: self.stop_reason,
            cancelled: self.cancelled,
        }
    }
}

impl JobView {
    pub open spec fn fresh(
        id: u64,
        call_id: Seq<char>,
        now: Duration,
        deadline: Duration,
        timeout: Duration,
        dispatched: bool,
    ) -> JobView {
        JobView {
            id,
            call_id,
            phase: if dispatched {
                ModelJobPhase::Preparing
            } else {
                ModelJobPhase::Queued
            },
            admitted_at: now,
            slot_at: if dispatched {
                Some(now)
            } else {
                None
            },
            started_at: None,
            closed_at: None,
            deadline,
            timeout,
            recording: None,
            request_recorded: false,
            result_recorded: false,
            stop_reason: None,
            cancelled: false,
        }
    }

    pub open spec fn holds_slot(self) -> bool {
        self.phase == ModelJobPhase::Preparing || self.phase == ModelJobPhase::Executing
    }

    /// Closed at `now`. The first reason stays.
    pub open spec fn closing(self, reason: Option<ModelJobStopReason>, now: Duration) -> JobView {
        JobView {
            phase: ModelJobPhase::Cleaning,
            closed_at: Some(now),
            stop_reason: if self.stop_reason is Some {
                self.stop_reason
            } else {
                reason
            },
            ..self
        }
    }

    /// What becomes of the first call that waits, when a slot is free: one that was
    /// cancelled or is too late never gets it.
    pub open spec fn called_up(self, now: Duration) -> JobView {
        if self.cancelled {
            JobView {
                phase: ModelJobPhase::Cleaning,
                stop_reason: Some(ModelJobStopReason::Cancelled),
                closed_at: Some(now),
                ..self
            }
        } else if self.deadline.length() <= now.length() {
            JobView {
                phase: ModelJobPhase::Cleaning,
                stop_reason: Some(ModelJobStopReason::QueueTimeout),
                closed_at: Some(now),
                ..self
            }
        } else {
            JobView { phase: ModelJobPhase::Preparing, slot_at: Some(now), ..self }
        }
    }
}

pub struct SchedulerView {
    pub config: ModelSchedulerConfig,
    pub lifecycle: LifecycleState,
    pub next_job_id: u64,
    pub jobs: Seq<JobView>,
    /// The calls that wait, first come first.
    pub queue: Seq<u64>,
    pub occupied: nat,
}

/// Where a job stands.
pub open spec fn job_at(jobs: Seq<JobView>, id: u64, k: int) -> Option<int>
    decreases jobs.len() - k,
{
    if k < 0 || k >= jobs.len() {
        None
    } else if jobs[k].id == id {
        Some(k)
    } else {
        job_at(jobs, id, k + 1)
    }
}

/// How many jobs hold a slot.
pub open spec fn slots(jobs: Seq<JobView>) -> nat
    decreases jobs.len(),
{
    if jobs.len() == 0 {
        0
    } else {
        slots(jobs.drop_last()) + if jobs.last().holds_slot() {
            1nat
        } else {
            0
        }
    }
}

impl SchedulerView {
    /// Slots and queue are what the phases of the jobs say, and no limit is passed.
    pub open spec fn wf(self) -> bool {
        &&& self.config.is_workable()
        &&& self.jobs.len() <= self.config.max_inflight
        &&& self.queue.len() <= self.config.max_queued
        &&& self.occupied <= self.config.max_concurrency
        &&& self.occupied == slots(self.jobs)
        &&& forall|i: int|
            0 <= i < self.jobs.len() ==> (#[trigger] self.jobs[i]).id < self.next_job_id
        &&& forall|i: int, j: int|
            0 <= i < j < self.jobs.len() ==> (#[trigger] self.jobs[i]).id < (
            #[trigger] self.jobs[j]).id
        &&& self.queue.no_duplicates()
        &&& forall|q: int|
            0 <= q < self.queue.len() ==> exists|i: int|
                0 <= i < self.jobs.len() && (#[trigger] self.jobs[i]).id == #[trigger] self.queue[q]
                    && self.jobs[i].phase == ModelJobPhase::Queued
        &&& forall|i: int|
            0 <= i < self.jobs.len() && (#[trigger] self.jobs[i]).phase == ModelJobPhase::Queued
                ==> self.queue.contains(self.jobs[i].id)
    }

    pub open spec fn with_job(self, i: int, job: JobView) -> SchedulerView {
        SchedulerView { jobs: self.jobs.update(i, job), ..self }
    }

    /// The first call that waits is called up.
    pub open spec fn called_up(self, now: Duration) -> SchedulerView {
        let i = job_at(self.jobs, self.queue[0], 0)->0;
        let job = self.jobs[i].called_up(now);
        SchedulerView {
            queue: self.queue.skip(1),
            occupied: if job.holds_slot() {
                self.occupied + 1
            } else {
                self.occupied
            },
            ..self.with_job(i, job)
        }
    }

    pub open spec fn can_call_up(self) -> bool {
        self.lifecycle == LifecycleState::Running && self.occupied < self.config.max_concurrency
            && self.queue.len() > 0
    }

    /// Every free slot is given to a call that waits.
    pub open spec fn dispatched(self, now: Duration) -> SchedulerView
        decreases self.queue.len(),
    {
        if self.can_call_up() {
            self.called_up(now).dispatched(now)
        } else {
            self
        }
    }

    /// The job at `i` gives up its slot or its place in the queue.
    pub open spec fn closed(self, i: int, reason: Option<ModelJobStopReason>, now: Duration) -> SchedulerView {
        let job = self.jobs[i];
        SchedulerView {
            queue: if job.phase == ModelJobPhase::Queued {
                self.queue.remove(self.queue.index_of(job.id))
            } else {
                self.queue
            },
            occupied: if job.holds_slot() {
                (self.occupied - 1) as nat
            } else {
                self.occupied
            },
            ..self.with_job(i, job.closing(reason, now))
        }
    }

    /// A job was released: once it is being closed, only a missing reason is added.
    pub open spec fn released(self, id: u64, reason: Option<ModelJobStopReason>, now: Duration) -> SchedulerView {
        match job_at(self.jobs, id, 0) {
            None => self,
            Some(i) => if self.jobs[i].phase == ModelJobPhase::Cleaning {
                self.with_job(
                    i,
                    JobView {
                        stop_reason: if self.jobs[i].stop_reason is Some {
                            self.jobs[i].stop_reason
                        } else {
                            reason
                        },
                        ..self.jobs[i]
                    },
                )
            } else {
                self.closed(i, reason, now).dispatched(now)
            },
        }
    }

    /// The calls to be woken once a job gives up what it holds: the job itself and those
    /// that get a slot.
    pub open spec fn woken(self, id: u64, reason: Option<ModelJobStopReason>, now: Duration) -> Seq<u64> {
        match job_at(self.jobs, id, 0) {
            None => Seq::empty(),
            Some(i) => if self.jobs[i].phase == ModelJobPhase::Cleaning {
                Seq::empty()
            } else {
                let free = self.closed(i, reason, now);
                seq![id] + free.queue.take(free.queue.len() - free.dispatched(now).queue.len())
            },
        }
    }

    /// A job is over: nothing of it is left.
    pub open spec fn completed(self, id: u64, now: Duration) -> SchedulerView {
        let free = self.released(id, None, now);
        match job_at(free.jobs, id, 0) {
            None => free,
            Some(i) => SchedulerView { jobs: free.jobs.remove(i), ..free },
        }
    }

    /// A free slot is there, and nobody waits for it.
    pub open spec fn has_slot(self) -> bool {
        self.occupied < self.config.max_concurrency && self.queue.len() == 0
    }

    /// One more job.
    pub open spec fn admitted(self, call_id: Seq<char>, now: Duration, deadline: Duration, timeout: Duration) -> SchedulerView {
        let id = self.next_job_id;
        SchedulerView {
            next_job_id: (id + 1) as u64,
            jobs: self.jobs.push(
                JobView::fresh(id, call_id, now, deadline, timeout, self.has_slot()),
            ),
            queue: if self.has_slot() {
                self.queue
            } else {
                self.queue.push(id)
            },
            occupied: if self.has_slot() {
                self.occupied + 1
            } else {
                self.occupied
            },
            ..self
        }
    }

    /// Why a call is stopped now, if it is. A reason that is recorded comes first.
    pub open spec fn interruption(self, id: u64, cancelled: bool, now: Duration, deadline: Duration, consumer_gone: bool) -> Option<
        ModelJobStopReason,
    > {
        let job = job_at(self.jobs, id, 0);
        if job is Some && self.jobs[job->0].stop_reason is Some {
            self.jobs[job->0].stop_reason
        } else if cancelled {
            Some(ModelJobStopReason::Cancelled)
        } else if deadline.length() <= now.length() {
            Some(
                if job is Some && self.jobs[job->0].phase == ModelJobPhase::Queued {
                    ModelJobStopReason::QueueTimeout
                } else {
                    ModelJobStopReason::Timeout
                },
            )
        } else if consumer_gone {
            Some(ModelJobStopReason::ConsumerDropped)
        } else {
            None
        }
    }
}

// ---- what keeps slots and queue in order ----

proof fn found_job(jobs: Seq<JobView>, id: u64, k: int)
    requires
        0 <= k,
    ensures
        match job_at(jobs, id, k) {
            Some(i) => k <= i < jobs.len() && jobs[i].id == id,
            None => forall|i: int| k <= i < jobs.len() ==> (#[trigger] jobs[i]).id != id,
        },
    decreases jobs.len() - k,
{
    if k < jobs.len() {
        found_job(jobs, id, k + 1);
    }
}

proof fn only_job(jobs: Seq<JobView>, id: u64, k: int, i: int)
    requires
        0 <= k <= i < jobs.len(),
        jobs[i].id == id,
        forall|j: int| k <= j < i ==> (#[trigger] jobs[j]).id != id,
    ensures
        job_at(jobs, id, k) == Some(i),
    decreases i - k,
{
    if k < i {
        only_job(jobs, id, k + 1, i);
    }
}

proof fn slots_of_update(jobs: Seq<JobView>, i: int, job: JobView)
    requires
        0 <= i < jobs.len(),
    ensures
        slots(jobs.update(i, job)) + (if jobs[i].holds_slot() {
            1int
        } else {
            0
        }) == slots(jobs) + (if job.holds_slot() {
            1int
        } else {
            0
        }),
        jobs[i].holds_slot() ==> slots(jobs) > 0,
    decreases jobs.len(),
{
    let after = jobs.update(i, job);
    if i == jobs.len() - 1 {
        assert(after.drop_last() =~= jobs.drop_last());
    } else {
        assert(after.drop_last() =~= jobs.drop_last().update(i, job));
        slots_of_update(jobs.drop_last(), i, job);
    }
}

proof fn slots_of_remove(jobs: Seq<JobView>, i: int)
    requires
        0 <= i < jobs.len(),
        !jobs[i].holds_slot(),
    ensures
        slots(jobs.remove(i)) == slots(jobs),
    decreases jobs.len(),
{
    let after = jobs.remove(i);
    if i == jobs.len() - 1 {
        assert(after =~= jobs.drop_last());
    } else {
        assert(after.drop_last() =~= jobs.drop_last().remove(i));
        slots_of_remove(jobs.drop_last(), i);
    }
}

proof fn slots_of_push(jobs: Seq<JobView>, job: JobView)
    ensures
        slots(jobs.push(job)) == slots(jobs) + if job.holds_slot() {
            1int
        } else {
            0
        },
{
    assert(jobs.push(job).drop_last() =~= jobs);
}

/// A change that leaves a job's phase alone keeps everything in order.
proof fn quiet_change_keeps_order(v: SchedulerView, i: int, job: JobView)
    requires
        v.wf(),
        0 <= i < v.jobs.len(),
        job.id == v.jobs[i].id,
        job.phase == v.jobs[i].phase,
    ensures
        v.with_job(i, job).wf(),
{
    let w = v.with_job(i, job);
    slots_of_update(v.jobs, i, job);
    assert forall|q: int| 0 <= q < w.queue.len() implies exists|j: int|
        0 <= j < w.jobs.len() && (#[trigger] w.jobs[j]).id == #[trigger] w.queue[q]
            && w.jobs[j].phase == ModelJobPhase::Queued by {
        let j = choose|j: int|
            0 <= j < v.jobs.len() && (#[trigger] v.jobs[j]).id == v.queue[q] && v.jobs[j].phase
                == ModelJobPhase::Queued;
        assert(w.jobs[j].id == v.queue[q]);
    }
    assert forall|j: int|
        0 <= j < w.jobs.len() && (#[trigger] w.jobs[j]).phase == ModelJobPhase::Queued implies w.queue.contains(
        w.jobs[j].id,
    ) by {
        assert(v.jobs[j].phase == ModelJobPhase::Queued);
    }
}

/// A job that starts to be carried out keeps everything in order.
proof fn starting_keeps_order(v: SchedulerView, i: int, job: JobView)
    requires
        v.wf(),
        0 <= i < v.jobs.len(),
        job.id == v.jobs[i].id,
        job.phase == ModelJobPhase::Executing,
        v.jobs[i].phase == ModelJobPhase::Preparing,
    ensures
        v.with_job(i, job).wf(),
{
    let w = v.with_job(i, job);
    slots_of_update(v.jobs, i, job);
    assert forall|q: int| 0 <= q < w.queue.len() implies exists|j: int|
        0 <= j < w.jobs.len() && (#[trigger] w.jobs[j]).id == #[trigger] w.queue[q]
            && w.jobs[j].phase == ModelJobPhase::Queued by {
        let j = choose|j: int|
            0 <= j < v.jobs.len() && (#[trigger] v.jobs[j]).id == v.queue[q] && v.jobs[j].phase
                == ModelJobPhase::Queued;
        assert(w.jobs[j].id == v.queue[q]);
    }
    assert forall|j: int|
        0 <= j < w.jobs.len() && (#[trigger] w.jobs[j]).phase == ModelJobPhase::Queued implies w.queue.contains(
        w.jobs[j].id,
    ) by {
        assert(v.jobs[j].phase == ModelJobPhase::Queued);
    }
}

#[verifier::spinoff_prover]
proof fn calling_up_keeps_order(v: SchedulerView, now: Duration)
    requires
        v.wf(),
        v.can_call_up(),
    ensures
        v.called_up(now).wf(),
        job_at(v.jobs, v.queue[0], 0) is Some,
        0 <= job_at(v.jobs, v.queue[0], 0)->0 < v.jobs.len(),
        v.jobs[job_at(v.jobs, v.queue[0], 0)->0].phase == ModelJobPhase::Queued,
        v.jobs[job_at(v.jobs, v.queue[0], 0)->0].id == v.queue[0],
        v.called_up(now).queue.len() == v.queue.len() - 1,
{
    let id = v.queue[0];
    let i = choose|i: int|
        0 <= i < v.jobs.len() && (#[trigger] v.jobs[i]).id == id && v.jobs[i].phase
            == ModelJobPhase::Queued;
    only_job(v.jobs, id, 0, i);
    let job = v.jobs[i].called_up(now);
    let w = v.called_up(now);
    slots_of_update(v.jobs, i, job);
    assert forall|a: int, b: int| 0 <= a < w.queue.len() && 0 <= b < w.queue.len() && a != b implies w.queue[a]
        != w.queue[b] by {
        assert(w.queue[a] == v.queue[a + 1]);
        assert(w.queue[b] == v.queue[b + 1]);
    }
    assert forall|q: int| 0 <= q < w.queue.len() implies exists|j: int|
        0 <= j < w.jobs.len() && (#[trigger] w.jobs[j]).id == #[trigger] w.queue[q]
            && w.jobs[j].phase == ModelJobPhase::Queued by {
        assert(w.queue[q] == v.queue[q + 1]);
        let j = choose|j: int|
            0 <= j < v.jobs.len() && (#[trigger] v.jobs[j]).id == v.queue[q + 1] && v.jobs[j].phase
                == ModelJobPhase::Queued;
        assert(j != i);
        assert(w.jobs[j] == v.jobs[j]);
    }
    assert forall|j: int|
        0 <= j < w.jobs.len() && (#[trigger] w.jobs[j]).phase == ModelJobPhase::Queued implies w.queue.contains(
        w.jobs[j].id,
    ) by {
        assert(j != i);
        assert(v.jobs[j].phase == ModelJobPhase::Queued);
        let q = v.queue.index_of(v.jobs[j].id);
        assert(v.queue[q] == v.jobs[j].id);
        assert(v.jobs[j].id != id);
        assert(q > 0);
        assert(w.queue[q - 1] == v.queue[q]);
    }
}

/// Giving slots to calls that wait keeps everything in order, and changes nothing but
/// the jobs that were called up.
proof fn dispatching_keeps_order(v: SchedulerView, now: Duration)
    requires
        v.wf(),
    ensures
        v.dispatched(now).wf(),
        v.dispatched(now).jobs.len() == v.jobs.len(),
        v.dispatched(now).config == v.config,
        v.dispatched(now).lifecycle == v.lifecycle,
        v.dispatched(now).next_job_id == v.next_job_id,
        !v.dispatched(now).can_call_up(),
        forall|i: int|
            0 <= i < v.jobs.len() ==> (#[trigger] v.dispatched(now).jobs[i]).id == v.jobs[i].id,
        forall|i: int|
            0 <= i < v.jobs.len() && v.jobs[i].phase != ModelJobPhase::Queued
                ==> #[trigger] v.dispatched(now).jobs[i] == v.jobs[i],
    decreases v.queue.len(),
{
    if v.can_call_up() {
        calling_up_keeps_order(v, now);
        dispatching_keeps_order(v.called_up(now), now);
    }
}

#[verifier::spinoff_prover]
proof fn closing_keeps_order(v: SchedulerView, i: int, reason: Option<ModelJobStopReason>, now: Duration)
    requires
        v.wf(),
        0 <= i < v.jobs.len(),
        v.jobs[i].phase != ModelJobPhase::Cleaning,
    ensures
        v.closed(i, reason, now).wf(),
        v.jobs[i].holds_slot() ==> v.occupied > 0,
        v.jobs[i].phase == ModelJobPhase::Queued ==> v.queue.contains(v.jobs[i].id),
{
    let job = v.jobs[i].closing(reason, now);
    let id = v.jobs[i].id;
    let w = v.closed(i, reason, now);
    slots_of_update(v.jobs, i, job);
    let at = v.queue.index_of(id);
    if v.jobs[i].phase == ModelJobPhase::Queued {
        assert(v.queue.contains(id));
        assert(v.queue[at] == id);
        assert forall|a: int, b: int|
            0 <= a < w.queue.len() && 0 <= b < w.queue.len() && a != b implies w.queue[a]
            != w.queue[b] by {
            assert(w.queue[a] == v.queue[if a < at {
                a
            } else {
                a + 1
            }]);
            assert(w.queue[b] == v.queue[if b < at {
                b
            } else {
                b + 1
            }]);
        }
    }
    assert forall|q: int| 0 <= q < w.queue.len() implies exists|j: int|
        0 <= j < w.jobs.len() && (#[trigger] w.jobs[j]).id == #[trigger] w.queue[q]
            && w.jobs[j].phase == ModelJobPhase::Queued by {
        let p = if v.jobs[i].phase == ModelJobPhase::Queued && q >= at {
            q + 1
        } else {
            q
        };
        assert(w.queue[q] == v.queue[p]);
        let j = choose|j: int|
            0 <= j < v.jobs.len() && (#[trigger] v.jobs[j]).id == v.queue[p] && v.jobs[j].phase
                == ModelJobPhase::Queued;
        assert(j != i);
        assert(w.jobs[j] == v.jobs[j]);
    }
    assert forall|j: int|
        0 <= j < w.jobs.len() && (#[trigger] w.jobs[j]).phase == ModelJobPhase::Queued implies w.queue.contains(
        w.jobs[j].id,
    ) by {
        assert(j != i);
        assert(v.jobs[j].phase == ModelJobPhase::Queued);
        let q = v.queue.index_of(v.jobs[j].id);
        assert(v.queue[q] == v.jobs[j].id);
        if v.jobs[i].phase == ModelJobPhase::Queued {
            assert(v.jobs[j].id != id);
            assert(q != at);
            assert(w.queue[if q < at {
                q
            } else {
                q - 1
            }] == v.queue[q]);
        }
    }
}

/// Releasing a job keeps everything in order and leaves the job being closed.
pub proof fn releasing_keeps_order(v: SchedulerView, id: u64, reason: Option<ModelJobStopReason>, now: Duration)
    requires
        v.wf(),
    ensures
        v.released(id, reason, now).wf(),
        v.released(id, reason, now).jobs.len() == v.jobs.len(),
        v.released(id, reason, now).next_job_id == v.next_job_id,
        v.released(id, reason, now).lifecycle == v.lifecycle,
        v.released(id, reason, now).config == v.config,
        match job_at(v.jobs, id, 0) {
            Some(i) => {
                &&& job_at(v.released(id, reason, now).jobs, id, 0) == Some(i)
                &&& 0 <= i < v.jobs.len()
                &&& v.released(id, reason, now).jobs[i].phase == ModelJobPhase::Cleaning
            },
            None => job_at(v.released(id, reason, now).jobs, id, 0) is None,
        },
{
    found_job(v.jobs, id, 0);
    match job_at(v.jobs, id, 0) {
        None => {},
        Some(i) => {
            let w = v.released(id, reason, now);
            if v.jobs[i].phase == ModelJobPhase::Cleaning {
                let job = w.jobs[i];
                quiet_change_keeps_order(
                    v,
                    i,
                    JobView {
                        stop_reason: if v.jobs[i].stop_reason is Some {
                            v.jobs[i].stop_reason
                        } else {
                            reason
                        },
                        ..v.jobs[i]
                    },
                );
            } else {
                closing_keeps_order(v, i, reason, now);
                dispatching_keeps_order(v.closed(i, reason, now), now);
                assert(v.closed(i, reason, now).jobs[i].phase == ModelJobPhase::Cleaning);
                assert(w.jobs[i] == v.closed(i, reason, now).jobs[i]);
            }
            only_job(w.jobs, id, 0, i);
        },
    }
}

proof fn lifecycle_keeps_order(v: SchedulerView, lifecycle: LifecycleState)
    requires
        v.wf(),
    ensures
        (SchedulerView { lifecycle, ..v }).wf(),
{
    let w = SchedulerView { lifecycle, ..v };
    assert forall|q: int| 0 <= q < w.queue.len() implies exists|j: int|
        0 <= j < w.jobs.len() && (#[trigger] w.jobs[j]).id == #[trigger] w.queue[q]
            && w.jobs[j].phase == ModelJobPhase::Queued by {
        let j = choose|j: int|
            0 <= j < v.jobs.len() && (#[trigger] v.jobs[j]).id == v.queue[q] && v.jobs[j].phase
                == ModelJobPhase::Queued;
        assert(w.jobs[j].id == v.queue[q]);
    }
    assert forall|j: int|
        0 <= j < w.jobs.len() && (#[trigger] w.jobs[j]).phase == ModelJobPhase::Queued implies w.queue.contains(
        w.jobs[j].id,
    ) by {
        assert(v.jobs[j].phase == ModelJobPhase::Queued);
    }
}

/// Letting a call in keeps everything in order.
pub proof fn admitting_keeps_order(
    v: SchedulerView,
    call_id: Seq<char>,
    now: Duration,
    deadline: Duration,
    timeout: Duration,
)
    requires
        v.wf(),
        v.next_job_id < u64::MAX,
        v.jobs.len() < v.config.max_inflight,
        v.has_slot() || v.queue.len() < v.config.max_queued,
    ensures
        v.admitted(call_id, now, deadline, timeout).wf(),
{
    let w = v.admitted(call_id, now, deadline, timeout);
    let job = JobView::fresh(v.next_job_id, call_id, now, deadline, timeout, v.has_slot());
    slots_of_push(v.jobs, job);
    assert(w.jobs[v.jobs.len() as int] == job);
    assert forall|q: int| 0 <= q < w.queue.len() implies exists|j: int|
        0 <= j < w.jobs.len() && (#[trigger] w.jobs[j]).id == #[trigger] w.queue[q]
            && w.jobs[j].phase == ModelJobPhase::Queued by {
        if q < v.queue.len() {
            let j = choose|j: int|
                0 <= j < v.jobs.len() && (#[trigger] v.jobs[j]).id == v.queue[q] && v.jobs[j].phase
                    == ModelJobPhase::Queued;
            assert(w.jobs[j] == v.jobs[j]);
        }
    }
    assert forall|a: int, b: int| 0 <= a < w.queue.len() && 0 <= b < w.queue.len() && a != b implies w.queue[a]
        != w.queue[b] by {
        assert forall|q: int| 0 <= q < v.queue.len() implies #[trigger] v.queue[q] < v.next_job_id by {
            let j = choose|j: int|
                0 <= j < v.jobs.len() && (#[trigger] v.jobs[j]).id == v.queue[q] && v.jobs[j].phase
                    == ModelJobPhase::Queued;
        }
    }
    assert forall|j: int|
        0 <= j < w.jobs.len() && (#[trigger] w.jobs[j]).phase == ModelJobPhase::Queued implies w.queue.contains(
        w.jobs[j].id,
    ) by {
        if j < v.jobs.len() {
            assert(v.jobs[j].phase == ModelJobPhase::Queued);
            let q = v.queue.index_of(v.jobs[j].id);
            assert(w.queue[q] == v.queue[q]);
        } else {
            assert(w.queue[v.queue.len() as int] == v.next_job_id);
        }
    }
}

proof fn removing_keeps_order(v: SchedulerView, i: int)
    requires
        v.wf(),
        0 <= i < v.jobs.len(),
        v.jobs[i].phase == ModelJobPhase::Cleaning,
    ensures
        (SchedulerView { jobs: v.jobs.remove(i), ..v }).wf(),
{
    let w = SchedulerView { jobs: v.jobs.remove(i), ..v };
    slots_of_remove(v.jobs, i);
    assert forall|j: int| 0 <= j < w.jobs.len() implies #[trigger] w.jobs[j] == v.jobs[if j < i {
        j
    } else {
        j + 1
    }] by {}
    assert forall|q: int| 0 <= q < w.queue.len() implies exists|j: int|
        0 <= j < w.jobs.len() && (#[trigger] w.jobs[j]).id == #[trigger] w.queue[q]
            && w.jobs[j].phase == ModelJobPhase::Queued by {
        let j = choose|j: int|
            0 <= j < v.jobs.len() && (#[trigger] v.jobs[j]).id == v.queue[q] && v.jobs[j].phase
                == ModelJobPhase::Queued;
        assert(j != i);
        assert(w.jobs[if j < i {
            j
        } else {
            j - 1
        }] == v.jobs[j]);
    }
}

/// Completing a job keeps everything in order.
pub proof fn completing_keeps_order(v: SchedulerView, id: u64, now: Duration)
    requires
        v.wf(),
    ensures
        v.completed(id, now).wf(),
        job_at(v.completed(id, now).jobs, id, 0) is None,
{
    releasing_keeps_order(v, id, None, now);
    let free = v.released(id, None, now);
    match job_at(v.jobs, id, 0) {
        None => {},
        Some(i) => {
            removing_keeps_order(free, i);
            let w = v.completed(id, now);
            found_job(free.jobs, id, 0);
            found_job(w.jobs, id, 0);
            if let Some(j) = job_at(w.jobs, id, 0) {
                let k = if j < i {
                    j
                } else {
                    j + 1
                };
                assert(w.jobs[j] == free.jobs[k]);
                assert(free.jobs[k].id == free.jobs[i].id);
            }
        },
    }
}

/// The calls of one turn and what could not be closed of them.
#[derive(Debug, PartialEq, Eq)]
pub struct TurnControl {
    pub open: bool,
    pub jobs: Vec<u64>,
    pub failures: Vec<ModelGatewayError>,
    pub omitted: usize,
}

pub const MAX_LIFECYCLE_FAILURES: usize = 32;

impl TurnControl {
    pub open spec fn kept(&self) -> Seq<ModelGatewayError> {
        self.failures@
    }

    pub open spec fn left_out(&self) -> usize {
        self.omitted
    }

    /// Only closure failures are kept, few of them, and others counted only once there
    /// is no room.
    pub open spec fn wf(&self) -> bool {
        &&& self.kept().len() <= MAX_LIFECYCLE_FAILURES
        &&& self.left_out() > 0 ==> self.kept().len() == MAX_LIFECYCLE_FAILURES
        &&& forall|i: int| 0 <= i < self.kept().len() ==> is_closure_error(#[trigger] self.kept()[i])
    }

    pub fn new() -> (control: Self)
        ensures
            control.open,
            control.jobs@ == Seq::<u64>::empty(),
            control.kept() == Seq::<ModelGatewayError>::empty(),
            control.left_out() == 0,
            control.wf(),
    {
        TurnControl { open: true, jobs: Vec::new(), failures: Vec::new(), omitted: 0 }
    }

    /// Keeps a failure to close, or counts it.
    pub fn record(&mut self, failure: ModelGatewayError)
        requires
            old(self).wf(),
            is_closure_error(failure),
        ensures
            final(self).wf(),
            final(self).open == old(self).open,
            final(self).jobs@ == old(self).jobs@,
            if old(self).kept().len() < MAX_LIFECYCLE_FAILURES {
                &&& final(self).kept() == old(self).kept().push(failure)
                &&& final(self).left_out() == old(self).left_out()
            } else {
                &&& final(self).kept() == old(self).kept()
                &&& final(self).left_out() == if old(self).left_out() == usize::MAX {
                    usize::MAX as int
                } else {
                    old(self).left_out() + 1
                }
            },
    {
        if self.failures.len() < MAX_LIFECYCLE_FAILURES {
            self.failures.push(failure);
        } else {
            self.omitted = self.omitted.saturating_add(1);
        }
    }

    /// Lets no further call in. The answer is the calls to be cancelled.
    pub fn begin_finish(&mut self, mode: ModelFinishMode) -> (cancelled: Vec<u64>)
        requires
            old(self).wf(),
        ensures
            final(self).wf(),
            !final(self).open,
            final(self).jobs@ == old(self).jobs@,
            final(self).kept() == old(self).kept(),
            final(self).left_out() == old(self).left_out(),
            cancelled@ == if mode == ModelFinishMode::Cancel {
                old(self).jobs@
            } else {
                Seq::<u64>::empty()
            },
    {
        self.open = false;
        if mode == ModelFinishMode::Cancel {
            let mut cancelled: Vec<u64> = Vec::new();
            let mut i: usize = 0;
            while i < self.jobs.len()
                invariant
                    i <= self.jobs@.len(),
                    cancelled@ == self.jobs@.take(i as int),
                decreases self.jobs@.len() - i,
            {
                cancelled.push(self.jobs[i]);
                assert(cancelled@ =~= self.jobs@.take(i + 1));
                i = i + 1;
            }
            assert(self.jobs@.take(self.jobs@.len() as int) =~= self.jobs@);
            cancelled
        } else {
            Vec::new()
        }
    }

    /// Ends a turn whose calls are drained: what could not be closed, if anything.
    pub fn finish(&mut self) -> (result: Result<(), ModelTurnFailure>)
        requires
            old(self).wf(),
        ensures
            final(self).wf(),
            final(self).kept() == Seq::<ModelGatewayError>::empty(),
            final(self).left_out() == 0,
            final(self).jobs@ == old(self).jobs@,
            final(self).open == old(self).open,
            match result {
                Ok(_) => old(self).kept().len() == 0 && old(self).left_out() == 0,
                Err(failure) => old(self).kept().len() > 0 && aggregates(
                    old(self).kept(),
                    old(self).left_out(),
                    Ok(Some(failure)),
                ),
            },
    {
        let mut failures: Vec<ModelGatewayError> = Vec::new();
        std::mem::swap(&mut failures, &mut self.failures);
        let omitted: usize = self.omitted;
        self.omitted = 0;
        match ModelTurnFailure::from_bounded_failures(failures, omitted) {
            Ok(Some(failure)) => Err(failure),
            _ => Ok(()),
        }
    }

    fn forget(&mut self, id: u64)
        requires
            old(self).wf(),
        ensures
            final(self).wf(),
            final(self).open == old(self).open,
            final(self).kept() == old(self).kept(),
            final(self).left_out() == old(self).left_out(),
            final(self).jobs@ == old(self).jobs@.filter(|j: u64| j != id),
    {
        let ghost before = self.jobs@;
        let ghost keeps = |j: u64| j != id;
        let mut rest: Vec<u64> = Vec::new();
        let mut i: usize = 0;
        proof {
            reveal(Seq::filter);
            assert(before.take(0) =~= Seq::empty());
        }
        while i < self.jobs.len()
            invariant
                i <= self.jobs@.len(),
                self.jobs@ == before,
                keeps == (|j: u64| j != id),
                rest@ == before.take(i as int).filter(keeps),
            decreases self.jobs@.len() - i,
        {
            proof {
                reveal(Seq::filter);
                assert(before.take(i + 1).drop_last() =~= before.take(i as int));
            }
            if self.jobs[i] != id {
                rest.push(self.jobs[i]);
            }
            i = i + 1;
        }
        assert(before.take(before.len() as int) =~= before);
        self.jobs = rest;
    }
}

/// The shared state behind the runtime's lock.
#[derive(Debug, PartialEq, Eq)]
pub struct RuntimeControl {
    pub config: ModelSchedulerConfig,
    pub lifecycle: LifecycleState,
    pub next_turn_id: u64,
    pub next_job_id: u64,
    pub jobs: Vec<ScheduledJob>,
    pub queue: Vec<u64>,
    pub occupied: usize,
    pub unacknowledged: Vec<Unacknowledged>,
}

/// A call that was let in.
#[derive(Clone, Copy, Debug, PartialEq, Eq, Structural)]
pub struct Admission {
    pub job_id: u64,
    pub deadline: Duration,
}

/// What waiting for a slot comes to.
#[derive(Clone, Copy, Debug, PartialEq, Eq, Structural)]
pub enum SlotState {
    Ready,
    Stopped(ModelJobStopReason),
    Wait,
}

/// Why a call is not let in.
pub enum EntryFault {
    Stopped,
    TurnClosed,
    InvalidTimeout,
    InflightFull,
    QueueFull,
    IdsExhausted,
}

/// The timeout, counted from `now`, ends at a time that can be told and that the host's
/// clock reaches.
pub open spec fn has_deadline(now: Duration, timeout: Duration, in_range: bool) -> bool {
    in_range && now.length() + timeout.length() < time_end()
}

/// Why a call is not let in, if it is not.
pub open spec fn entry_fault(v: SchedulerView, turn_open: bool, has_deadline: bool) -> Option<EntryFault> {
    if v.lifecycle != LifecycleState::Running {
        Some(EntryFault::Stopped)
    } else if !turn_open {
        Some(EntryFault::TurnClosed)
    } else if !has_deadline {
        Some(EntryFault::InvalidTimeout)
    } else if v.jobs.len() >= v.config.max_inflight {
        Some(EntryFault::InflightFull)
    } else if !v.has_slot() && v.queue.len() >= v.config.max_queued {
        Some(EntryFault::QueueFull)
    } else if v.next_job_id == u64::MAX {
        Some(EntryFault::IdsExhausted)
    } else {
        None
    }
}

/// How the fault is told.
pub open spec fn is_entry_error(error: ModelRuntimeError, fault: EntryFault) -> bool {
    match fault {
        EntryFault::Stopped => error == ModelRuntimeError::Stopped,
        EntryFault::TurnClosed => error == ModelRuntimeError::TurnClosed,
        EntryFault::InvalidTimeout => error == ModelRuntimeError::InvalidTimeout,
        EntryFault::InflightFull => error == (ModelRuntimeError::Overloaded {
            capacity: ModelOverloadKind::InflightFull,
        }),
        EntryFault::QueueFull => error == (ModelRuntimeError::Overloaded {
            capacity: ModelOverloadKind::QueueFull,
        }),
        EntryFault::IdsExhausted => error matches ModelRuntimeError::Internal { code, message }
            && code@ == "model_job_id_exhausted"@ && message@
            == "Model operation ID space is exhausted"@,
    }
}

impl RuntimeControl {
    pub open spec fn view(&self) -> SchedulerView {
        SchedulerView {
            config: self.config,
            lifecycle: self.lifecycle,
            next_job_id: self.next_job_id,
            jobs: self.jobs.deep_view(),
            queue: self.queue@,
            occupied: self.occupied as nat,
        }
    }

    pub open spec fn wf(&self) -> bool {
        self@.wf()
    }

    pub fn new(config: ModelSchedulerConfig) -> (control: Self)
        requires
            config.is_workable(),
        ensures
            control.wf(),
            control@ == (SchedulerView {
                config,
                lifecycle: LifecycleState::Constructed,
                next_job_id: 0,
                jobs: Seq::empty(),
                queue: Seq::empty(),
                occupied: 0,
            }),
            control.next_turn_id == 0,
            control.unacknowledged@ == Seq::<Unacknowledged>::empty(),
    {
        let control = RuntimeControl {
            config,
            lifecycle: LifecycleState::Constructed,
            next_turn_id: 0,
            next_job_id: 0,
            jobs: Vec::new(),
            queue: Vec::new(),
            occupied: 0,
            unacknowledged: Vec::new(),
        };
        assert(control@.jobs =~= Seq::empty());
        control
    }

    /// Lets the runtime run, once.
    pub fn start(&mut self) -> (started: bool)
        requires
            old(self).wf(),
        ensures
            final(self).wf(),
            started == (old(self).lifecycle == LifecycleState::Constructed),
            final(self)@ == if started {
                SchedulerView { lifecycle: LifecycleState::Running, ..old(self)@ }
            } else {
                old(self)@
            },
            final(self).next_turn_id == old(self).next_turn_id,
            final(self).unacknowledged@ == old(self).unacknowledged@,
    {
        if self.lifecycle == LifecycleState::Constructed {
            self.lifecycle = LifecycleState::Running;
            true
        } else {
            false
        }
    }

    /// Binds a turn: its number.
    pub fn bind_turn(&mut self, cancelled: bool) -> (result: Result<u64, ModelRuntimeError>)
        requires
            old(self).wf(),
        ensures
            final(self).wf(),
            final(self)@ == old(self)@,
            if cancelled {
                result == Err::<u64, ModelRuntimeError>(ModelRuntimeError::TurnClosed)
            } else if old(self).lifecycle != LifecycleState::Running {
                result == Err::<u64, ModelRuntimeError>(ModelRuntimeError::Stopped)
            } else if old(self).next_turn_id == u64::MAX {
                result matches Err(ModelRuntimeError::Internal { code, message }) && code@
                    == "model_turn_id_exhausted"@ && message@ == "Model turn ID space is exhausted"@
            } else {
                result == Ok::<u64, ModelRuntimeError>(old(self).next_turn_id)
                    && final(self).next_turn_id == old(self).next_turn_id + 1
            },
            result is Err ==> final(self).next_turn_id == old(self).next_turn_id,
            final(self).unacknowledged@ == old(self).unacknowledged@,
    {
        if cancelled {
            return Err(ModelRuntimeError::TurnClosed);
        }
        if self.lifecycle != LifecycleState::Running {
            return Err(ModelRuntimeError::Stopped);
        }
        let id: u64 = self.next_turn_id;
        if id == u64::MAX {
            return Err(
                ModelRuntimeError::Internal {
                    code: "model_turn_id_exhausted".to_owned(),
                    message: "Model turn ID space is exhausted".to_owned(),
                },
            );
        }
        self.next_turn_id = id + 1;
        Ok(id)
    }

    /// Lets a call in, if the runtime runs, the turn is open and there is room. The
    /// deadline is the timeout counted from `now`; `in_range` says that the executor's
    /// clock reaches it.
    pub fn accept(
        &mut self,
        turn: &mut TurnControl,
        call_id: ModelCallId,
        timeout: Duration,
        now: Duration,
        in_range: bool,
    ) -> (result: Result<Admission, ModelRuntimeError>)
        requires
            old(self).wf(),
            old(turn).wf(),
        ensures
            final(self).wf(),
            final(turn).wf(),
            final(turn).open == old(turn).open,
            final(turn).kept() == old(turn).kept(),
            final(turn).left_out() == old(turn).left_out(),
            match entry_fault(old(self)@, old(turn).open, has_deadline(now, timeout, in_range)) {
                Some(fault) => result matches Err(e) && is_entry_error(e, fault),
                None => {
                    &&& result matches Ok(admission)
                    &&& admission.job_id == old(self)@.next_job_id
                    &&& admission.deadline.length() == now.length() + timeout.length()
                    &&& final(self)@ == old(self)@.admitted(
                        call_id@,
                        now,
                        admission.deadline,
                        timeout,
                    )
                    &&& final(turn).jobs@ == old(turn).jobs@.push(old(self)@.next_job_id)
                },
            },
            result is Err ==> final(self)@ == old(self)@ && final(turn).jobs@ == old(turn).jobs@,
            final(self).next_turn_id == old(self).next_turn_id,
            final(self).unacknowledged@ == old(self).unacknowledged@,
    {
        if self.lifecycle != LifecycleState::Running {
            return Err(ModelRuntimeError::Stopped);
        }
        if !turn.open {
            return Err(ModelRuntimeError::TurnClosed);
        }
        if !in_range {
            return Err(ModelRuntimeError::InvalidTimeout);
        }
        let deadline = match now.checked_add(timeout) {
            Some(deadline) => deadline,
            None => {
                return Err(ModelRuntimeError::InvalidTimeout);
            },
        };
        if self.jobs.len() >= self.config.max_inflight {
            return Err(
                ModelRuntimeError::Overloaded { capacity: ModelOverloadKind::InflightFull },
            );
        }
        let dispatched: bool = self.occupied < self.config.max_concurrency && self.queue.len() == 0;
        if !dispatched && self.queue.len() >= self.config.max_queued {
            return Err(ModelRuntimeError::Overloaded { capacity: ModelOverloadKind::QueueFull });
        }
        let id: u64 = self.next_job_id;
        if id == u64::MAX {
            return Err(
                ModelRuntimeError::Internal {
                    code: "model_job_id_exhausted".to_owned(),
                    message: "Model operation ID space is exhausted".to_owned(),
                },
            );
        }
        let ghost before = self@;
        proof {
            admitting_keeps_order(before, call_id@, now, deadline, timeout);
        }
        let job = ScheduledJob {
            id,
            call_id,
            phase: if dispatched {
                ModelJobPhase::Preparing
            } else {
                ModelJobPhase::Queued
            },
            admitted_at: now,
            slot_at: if dispatched {
                Some(now)
            } else {
                None
            },
            started_at: None,
            closed_at: None,
            deadline,
            timeout,
            recording: None,
            request_recorded: false,
            result_recorded: false,
            stop_reason: None,
            cancelled: false,
        };
        self.next_job_id = id + 1;
        self.jobs.push(job);
        if dispatched {
            self.occupied = self.occupied + 1;
        } else {
            self.queue.push(id);
        }
        turn.jobs.push(id);
        assert(self@.jobs =~= before.jobs.push(job.deep_view()));
        Ok(Admission { job_id: id, deadline })
    }

    fn find(&self, id: u64) -> (index: Option<usize>)
        ensures
            match index {
                Some(i) => i < self.jobs@.len() && job_at(self@.jobs, id, 0) == Some(i as int)
                    && self.jobs@[i as int].id == id,
                None => job_at(self@.jobs, id, 0) is None,
            },
    {
        let ghost views = self@.jobs;
        let mut i: usize = 0;
        while i < self.jobs.len()
            invariant
                i <= self.jobs@.len(),
                views == self.jobs.deep_view(),
                job_at(views, id, 0) == job_at(views, id, i as int),
            decreases self.jobs@.len() - i,
        {
            assert(views[i as int] == self.jobs@[i as int].deep_view());
            if self.jobs[i].id == id {
                return Some(i);
            }
            i = i + 1;
        }
        None
    }

    /// Changes a job in place.
    fn set_job(&mut self, i: usize, phase: ModelJobPhase, slot_at: Option<Duration>, started_at: Option<Duration>, closed_at: Option<Duration>, stop_reason: Option<ModelJobStopReason>)
        requires
            i < old(self).jobs@.len(),
        ensures
            final(self)@ == old(self)@.with_job(
                i as int,
                JobView {
                    phase,
                    slot_at,
                    started_at,
                    closed_at,
                    stop_reason,
                    ..old(self)@.jobs[i as int]
                },
            ),
            final(self).next_turn_id == old(self).next_turn_id,
            final(self).unacknowledged@ == old(self).unacknowledged@,
            final(self).jobs@.len() == old(self).jobs@.len(),
    {
        let ghost before = self@;
        let ghost held = self.jobs@;
        let old_job = &self.jobs[i];
        let job = ScheduledJob {
            id: old_job.id,
            call_id: old_job.call_id.duplicate(),
            phase,
            admitted_at: old_job.admitted_at,
            slot_at,
            started_at,
            closed_at,
            deadline: old_job.deadline,
            timeout: old_job.timeout,
            recording: old_job.recording,
            request_recorded: old_job.request_recorded,
            result_recorded: old_job.result_recorded,
            stop_reason,
            cancelled: old_job.cancelled,
        };
        self.jobs.set(i, job);
        proof {
            let after = self@.jobs;
            assert(before.jobs[i as int] == held[i as int].deep_view());
            assert(after =~= before.jobs.update(i as int, job.deep_view())) by {
                assert forall|k: int| 0 <= k < after.len() implies after[k] == before.jobs.update(
                    i as int,
                    job.deep_view(),
                )[k] by {
                    if k != i {
                        assert(self.jobs@[k] == held[k]);
                    }
                }
            }
        }
    }

    /// Gives every free slot to a call that waits. Adds the calls to be woken to the
    /// list.
    fn dispatch_waiters(&mut self, now: Duration, woken: &mut Vec<u64>)
        requires
            old(self).wf(),
        ensures
            final(self).wf(),
            final(self)@ == old(self)@.dispatched(now),
            final(self).next_turn_id == old(self).next_turn_id,
            final(self).unacknowledged@ == old(self).unacknowledged@,
            final(woken)@ == old(woken)@ + old(self)@.queue.take(
                old(self)@.queue.len() - old(self)@.dispatched(now).queue.len(),
            ),
            old(self)@.dispatched(now).queue.len() <= old(self)@.queue.len(),
    {
        let ghost first = self@;
        let ghost listed = woken@;
        proof {
            dispatching_keeps_order(first, now);
            assert(listed + first.queue.take(0) =~= listed);
            assert(first.queue.skip(0) =~= first.queue);
        }
        while self.lifecycle == LifecycleState::Running && self.occupied
            < self.config.max_concurrency && self.queue.len() > 0
            invariant
                self.wf(),
                self.next_turn_id == old(self).next_turn_id,
                self.unacknowledged@ == old(self).unacknowledged@,
                self@.dispatched(now) == first.dispatched(now),
                self@.queue.len() <= first.queue.len(),
                self@.queue == first.queue.skip(first.queue.len() - self@.queue.len()),
                woken@ == listed + first.queue.take(first.queue.len() - self@.queue.len()),
            decreases self.queue@.len(),
        {
            let ghost v = self@;
            proof {
                calling_up_keeps_order(v, now);
                assert(v.can_call_up());
            }
            let id: u64 = self.queue.remove(0);
            assert(self.queue@ =~= v.queue.skip(1));
            let i: usize = match self.find(id) {
                Some(i) => i,
                None => {
                    assert(false);
                    return ;
                },
            };
            assert(v.jobs[i as int] == self.jobs@[i as int].deep_view());
            let ghost popped = self@;
            let job = &self.jobs[i];
            if job.cancelled {
                let slot_at = job.slot_at;
                let started_at = job.started_at;
                self.set_job(
                    i,
                    ModelJobPhase::Cleaning,
                    slot_at,
                    started_at,
                    Some(now),
                    Some(ModelJobStopReason::Cancelled),
                );
            } else if !now.shorter_than(&job.deadline) {
                let slot_at = job.slot_at;
                let started_at = job.started_at;
                self.set_job(
                    i,
                    ModelJobPhase::Cleaning,
                    slot_at,
                    started_at,
                    Some(now),
                    Some(ModelJobStopReason::QueueTimeout),
                );
            } else {
                let started_at = job.started_at;
                let closed_at = job.closed_at;
                let stop_reason = job.stop_reason;
                self.set_job(
                    i,
                    ModelJobPhase::Preparing,
                    Some(now),
                    started_at,
                    closed_at,
                    stop_reason,
                );
                self.occupied = self.occupied + 1;
            }
            assert(self@ == v.called_up(now));
            woken.push(id);
            proof {
                let done = first.queue.len() - v.queue.len();
                assert(id == first.queue[done as int]);
                assert(woken@ =~= listed + first.queue.take(done + 1));
                assert(self@.queue =~= first.queue.skip(done + 1));
            }
        }
    }

    /// Gives up what a job holds. Does it once; a job that is being closed already only
    /// gets a reason, if it has none. The answer is the calls to be woken.
    pub fn release_execution(&mut self, id: u64, reason: Option<ModelJobStopReason>, now: Duration) -> (woken: Vec<
        u64,
    >)
        requires
            old(self).wf(),
        ensures
            final(self).wf(),
            final(self)@ == old(self)@.released(id, reason, now),
            final(self).next_turn_id == old(self).next_turn_id,
            final(self).unacknowledged@ == old(self).unacknowledged@,
            woken@ == old(self)@.woken(id, reason, now),
    {
        let ghost v = self@;
        proof {
            releasing_keeps_order(v, id, reason, now);
            found_job(v.jobs, id, 0);
        }
        let mut woken: Vec<u64> = Vec::new();
        let i: usize = match self.find(id) {
            Some(i) => i,
            None => {
                return woken;
            },
        };
        assert(v.jobs[i as int] == self.jobs@[i as int].deep_view());
        let job = &self.jobs[i];
        let phase = job.phase;
        let slot_at = job.slot_at;
        let started_at = job.started_at;
        let closed_at = job.closed_at;
        let stop_reason = match job.stop_reason {
            Some(first) => Some(first),
            None => reason,
        };
        if phase == ModelJobPhase::Cleaning {
            self.set_job(i, phase, slot_at, started_at, closed_at, stop_reason);
            return woken;
        }
        proof {
            closing_keeps_order(v, i as int, reason, now);
        }
        self.set_job(i, ModelJobPhase::Cleaning, slot_at, started_at, Some(now), stop_reason);
        woken.push(id);
        assert(woken@ =~= seq![id]);
        if phase == ModelJobPhase::Queued {
            self.leave_queue(id);
        } else {
            self.occupied = self.occupied - 1;
        }
        assert(self@ == v.closed(i as int, reason, now));
        self.dispatch_waiters(now, &mut woken);
        woken
    }

    fn leave_queue(&mut self, id: u64)
        requires
            old(self).queue@.contains(id),
            old(self).queue@.no_duplicates(),
        ensures
            final(self)@ == (SchedulerView {
                queue: old(self)@.queue.remove(old(self)@.queue.index_of(id)),
                ..old(self)@
            }),
            final(self).next_turn_id == old(self).next_turn_id,
            final(self).unacknowledged@ == old(self).unacknowledged@,
    {
        let ghost at = self.queue@.index_of(id);
        let mut q: usize = 0;
        while q < self.queue.len()
            invariant
                q <= self.queue@.len(),
                *self == *old(self),
                self.queue@.contains(id),
                self.queue@.no_duplicates(),
                at == self.queue@.index_of(id),
                forall|k: int| 0 <= k < q ==> self.queue@[k] != id,
            decreases self.queue@.len() - q,
        {
            if self.queue[q] == id {
                assert(at == q);
                let _ = self.queue.remove(q);
                return ;
            }
            q = q + 1;
        }
        assert(self.queue@[at] == id);
    }

    /// A job is over. Its failure to close, if any, is kept for the turn and counted for
    /// the runtime. The answers are the calls to be woken, and whether the runtime and
    /// the turn are drained.
    pub fn complete_job(
        &mut self,
        turn: &mut TurnControl,
        turn_id: u64,
        id: u64,
        closure_failure: Option<ModelGatewayError>,
        now: Duration,
    ) -> (done: (Vec<u64>, bool, bool))
        requires
            old(self).wf(),
            old(turn).wf(),
            closure_failure matches Some(e) ==> is_closure_error(e),
        ensures
            final(self).wf(),
            final(turn).wf(),
            final(self)@ == old(self)@.completed(id, now),
            final(self).next_turn_id == old(self).next_turn_id,
            done.0@ == old(self)@.woken(id, None, now),
            final(turn).open == old(turn).open,
            final(turn).jobs@ == old(turn).jobs@.filter(|j: u64| j != id),
            done.1 == (final(self)@.jobs.len() == 0),
            done.2 == (final(turn).jobs@.len() == 0),
            match closure_failure {
                None => {
                    &&& final(turn).kept() == old(turn).kept()
                    &&& final(turn).left_out() == old(turn).left_out()
                    &&& final(self).unacknowledged@ == old(self).unacknowledged@
                },
                Some(failure) => if old(turn).kept().len() < MAX_LIFECYCLE_FAILURES {
                    &&& final(turn).kept() == old(turn).kept().push(failure)
                    &&& final(turn).left_out() == old(turn).left_out()
                } else {
                    &&& final(turn).kept() == old(turn).kept()
                    &&& final(turn).left_out() == counted_up(old(turn).left_out() as int)
                },
            },
            closure_failure is Some ==> counts_one_more(
                old(self).unacknowledged@,
                final(self).unacknowledged@,
                turn_id,
            ),
    {
        proof {
            completing_keeps_order(self@, id, now);
            releasing_keeps_order(self@, id, None, now);
        }
        let woken = self.release_execution(id, None, now);
        match closure_failure {
            Some(failure) => {
                turn.record(failure);
                self.count_failure(turn_id);
            },
            None => {},
        }
        self.drop_job(id);
        turn.forget(id);
        (woken, self.jobs.len() == 0, turn.jobs.len() == 0)
    }

    /// Forgets a job that is being closed.
    fn drop_job(&mut self, id: u64)
        requires
            old(self).wf(),
            match job_at(old(self)@.jobs, id, 0) {
                Some(i) => 0 <= i < old(self)@.jobs.len() && old(self)@.jobs[i].phase
                    == ModelJobPhase::Cleaning,
                None => true,
            },
        ensures
            final(self).wf(),
            final(self)@ == match job_at(old(self)@.jobs, id, 0) {
                None => old(self)@,
                Some(i) => SchedulerView { jobs: old(self)@.jobs.remove(i), ..old(self)@ },
            },
            final(self).unacknowledged@ == old(self).unacknowledged@,
            final(self).next_turn_id == old(self).next_turn_id,
    {
        match self.find(id) {
            Some(i) => {
                let ghost before = self@;
                let ghost held = self.jobs@;
                proof {
                    removing_keeps_order(before, i as int);
                }
                let _ = self.jobs.remove(i);
                proof {
                    assert forall|k: int| 0 <= k < self.jobs@.len() implies #[trigger] self@.jobs[k]
                        == before.jobs.remove(i as int)[k] by {
                        assert(self.jobs@[k] == held.remove(i as int)[k]);
                    }
                    assert(self@.jobs =~= before.jobs.remove(i as int));
                }
            },
            None => {},
        }
    }

    fn count_failure(&mut self, turn_id: u64)
        requires
            old(self).wf(),
        ensures
            final(self).wf(),
            final(self)@ == old(self)@,
            final(self).next_turn_id == old(self).next_turn_id,
            counts_one_more(old(self).unacknowledged@, final(self).unacknowledged@, turn_id),
    {
        count_failure(&mut self.unacknowledged, turn_id);
        assert(self@ == old(self)@);
    }

    /// The failures of a turn were heard.
    pub fn acknowledge_turn(&mut self, turn_id: u64)
        requires
            old(self).wf(),
        ensures
            final(self).wf(),
            final(self)@ == old(self)@,
            final(self).next_turn_id == old(self).next_turn_id,
            final(self).unacknowledged@ == old(self).unacknowledged@.filter(
                |u: Unacknowledged| u.turn_id != turn_id,
            ),
    {
        acknowledge(&mut self.unacknowledged, turn_id);
        assert(self@ == old(self)@);
    }

    /// Why a call is stopped now, if it is.
    pub fn interruption_now(&self, id: u64, cancelled: bool, now: Duration, deadline: Duration, consumer_gone: bool) -> (reason: Option<
        ModelJobStopReason,
    >)
        requires
            self.wf(),
        ensures
            reason == self@.interruption(id, cancelled, now, deadline, consumer_gone),
    {
        let found = self.find(id);
        let mut queued: bool = false;
        match found {
            Some(i) => {
                assert(self@.jobs[i as int] == self.jobs@[i as int].deep_view());
                match self.jobs[i].stop_reason {
                    Some(reason) => {
                        return Some(reason);
                    },
                    None => {},
                }
                queued = self.jobs[i].phase == ModelJobPhase::Queued;
            },
            None => {},
        }
        if cancelled {
            return Some(ModelJobStopReason::Cancelled);
        }
        if !now.shorter_than(&deadline) {
            return Some(
                if queued {
                    ModelJobStopReason::QueueTimeout
                } else {
                    ModelJobStopReason::Timeout
                },
            );
        }
        if consumer_gone {
            return Some(ModelJobStopReason::ConsumerDropped);
        }
        None
    }

    /// Notes what of a job is being recorded; a stage that is over counts as recorded
    /// where that was confirmed.
    pub fn recording(&mut self, id: u64, stage: Option<ModelRecordStage>, confirmed: bool)
        requires
            old(self).wf(),
        ensures
            final(self).wf(),
            final(self).next_turn_id == old(self).next_turn_id,
            final(self).unacknowledged@ == old(self).unacknowledged@,
            final(self)@ == match job_at(old(self)@.jobs, id, 0) {
                None => old(self)@,
                Some(i) => {
                    let job = old(self)@.jobs[i];
                    old(self)@.with_job(
                        i,
                        JobView {
                            recording: stage,
                            request_recorded: job.request_recorded || (confirmed && job.recording
                                == Some(ModelRecordStage::Request)),
                            result_recorded: job.result_recorded || (confirmed && job.recording
                                == Some(ModelRecordStage::Result)),
                            ..job
                        },
                    )
                },
            },
    {
        let ghost before = self@;
        let ghost held = self.jobs@;
        let i: usize = match self.find(id) {
            Some(i) => i,
            None => {
                return ;
            },
        };
        assert(before.jobs[i as int] == held[i as int].deep_view());
        let job = &self.jobs[i];
        let next = ScheduledJob {
            id: job.id,
            call_id: job.call_id.duplicate(),
            phase: job.phase,
            admitted_at: job.admitted_at,
            slot_at: job.slot_at,
            started_at: job.started_at,
            closed_at: job.closed_at,
            deadline: job.deadline,
            timeout: job.timeout,
            recording: stage,
            request_recorded: job.request_recorded || (confirmed && job.recording == Some(
                ModelRecordStage::Request,
            )),
            result_recorded: job.result_recorded || (confirmed && job.recording == Some(
                ModelRecordStage::Result,
            )),
            stop_reason: job.stop_reason,
            cancelled: job.cancelled,
        };
        proof {
            quiet_change_keeps_order(before, i as int, next.deep_view());
        }
        self.jobs.set(i, next);
        proof {
            let after = self@.jobs;
            assert(after =~= before.jobs.update(i as int, next.deep_view())) by {
                assert forall|k: int| 0 <= k < after.len() implies after[k] == before.jobs.update(
                    i as int,
                    next.deep_view(),
                )[k] by {
                    if k != i {
                        assert(self.jobs@[k] == held[k]);
                    }
                }
            }
        }
    }

    /// Looks whether a job has got its slot. A job that is to stop gives up what it
    /// holds.
    pub fn poll_slot(&mut self, id: u64, cancelled: bool, now: Duration, deadline: Duration, consumer_gone: bool) -> (polled: (
        SlotState,
        Vec<u64>,
    ))
        requires
            old(self).wf(),
        ensures
            final(self).wf(),
            final(self).next_turn_id == old(self).next_turn_id,
            final(self).unacknowledged@ == old(self).unacknowledged@,
            match old(self)@.interruption(id, cancelled, now, deadline, consumer_gone) {
                Some(reason) => {
                    &&& polled.0 == SlotState::Stopped(reason)
                    &&& polled.1@ == old(self)@.woken(id, Some(reason), now)
                    &&& final(self)@ == old(self)@.released(id, Some(reason), now)
                },
                None => {
                    &&& final(self)@ == old(self)@
                    &&& polled.1@.len() == 0
                    &&& polled.0 == match job_at(old(self)@.jobs, id, 0) {
                        Some(i) => if old(self)@.jobs[i].phase == ModelJobPhase::Preparing {
                            SlotState::Ready
                        } else {
                            SlotState::Wait
                        },
                        None => SlotState::Wait,
                    }
                },
            },
    {
        match self.interruption_now(id, cancelled, now, deadline, consumer_gone) {
            Some(reason) => {
                let woken = self.release_execution(id, Some(reason), now);
                return (SlotState::Stopped(reason), woken);
            },
            None => {},
        }
        match self.find(id) {
            Some(i) => {
                assert(self@.jobs[i as int] == self.jobs@[i as int].deep_view());
                if self.jobs[i].phase == ModelJobPhase::Preparing {
                    (SlotState::Ready, Vec::new())
                } else {
                    (SlotState::Wait, Vec::new())
                }
            },
            None => (SlotState::Wait, Vec::new()),
        }
    }

    /// Lets a prepared job ask the provider, unless it is to stop. `cancelled` is the
    /// turn's or the job's own cancellation.
    pub fn start_provider(&mut self, id: u64, cancelled: bool, now: Duration, deadline: Duration, consumer_gone: bool) -> (result: Result<
        (),
        ModelJobStopReason,
    >)
        requires
            old(self).wf(),
            job_at(old(self)@.jobs, id, 0) is Some,
        ensures
            final(self).wf(),
            final(self).next_turn_id == old(self).next_turn_id,
            final(self).unacknowledged@ == old(self).unacknowledged@,
            ({
                let i = job_at(old(self)@.jobs, id, 0)->0;
                let job = old(self)@.jobs[i];
                match old(self)@.interruption(id, cancelled, now, deadline, consumer_gone) {
                    Some(reason) => result == Err::<(), ModelJobStopReason>(reason) && final(self)@
                        == old(self)@,
                    None => if old(self).lifecycle != LifecycleState::Running || job.cancelled {
                        result == Err::<(), ModelJobStopReason>(ModelJobStopReason::Cancelled)
                            && final(self)@ == old(self)@
                    } else if job.phase != ModelJobPhase::Preparing {
                        result == Err::<(), ModelJobStopReason>(ModelJobStopReason::Failed)
                            && final(self)@ == old(self)@
                    } else if job.deadline.length() <= now.length() {
                        result == Err::<(), ModelJobStopReason>(ModelJobStopReason::Timeout)
                            && final(self)@ == old(self)@
                    } else {
                        result is Ok && final(self)@ == old(self)@.with_job(
                            i,
                            JobView {
                                phase: ModelJobPhase::Executing,
                                started_at: Some(now),
                                ..job
                            },
                        )
                    },
                }
            }),
    {
        match self.interruption_now(id, cancelled, now, deadline, consumer_gone) {
            Some(reason) => {
                return Err(reason);
            },
            None => {},
        }
        let ghost v = self@;
        let i: usize = match self.find(id) {
            Some(i) => i,
            None => {
                return Err(ModelJobStopReason::Failed);
            },
        };
        assert(v.jobs[i as int] == self.jobs@[i as int].deep_view());
        let job = &self.jobs[i];
        if self.lifecycle != LifecycleState::Running || job.cancelled {
            return Err(ModelJobStopReason::Cancelled);
        }
        if job.phase != ModelJobPhase::Preparing {
            return Err(
                match job.stop_reason {
                    Some(reason) => reason,
                    None => ModelJobStopReason::Failed,
                },
            );
        }
        if !now.shorter_than(&job.deadline) {
            return Err(ModelJobStopReason::Timeout);
        }
        let slot_at = job.slot_at;
        let closed_at = job.closed_at;
        let stop_reason = job.stop_reason;
        proof {
            starting_keeps_order(
                v,
                i as int,
                JobView {
                    phase: ModelJobPhase::Executing,
                    started_at: Some(now),
                    ..v.jobs[i as int]
                },
            );
        }
        self.set_job(
            i,
            ModelJobPhase::Executing,
            slot_at,
            Some(now),
            closed_at,
            stop_reason,
        );
        Ok(())
    }

    /// Asks jobs to stop.
    pub fn cancel_jobs(&mut self, ids: &Vec<u64>)
        requires
            old(self).wf(),
        ensures
            final(self).wf(),
            final(self)@ == (SchedulerView {
                jobs: cancelled_among(old(self)@.jobs, ids@),
                ..old(self)@
            }),
            final(self).next_turn_id == old(self).next_turn_id,
            final(self).unacknowledged@ == old(self).unacknowledged@,
    {
        let ghost before = self@;
        let ghost held = self.jobs@;
        let mut i: usize = 0;
        while i < self.jobs.len()
            invariant
                i <= self.jobs@.len(),
                self.wf(),
                self.next_turn_id == old(self).next_turn_id,
                self.unacknowledged@ == old(self).unacknowledged@,
                self.jobs@.len() == held.len(),
                before.jobs.len() == held.len(),
                self@ == (SchedulerView { jobs: self@.jobs, ..before }),
                forall|k: int|
                    0 <= k < held.len() ==> #[trigger] self@.jobs[k] == if k < i {
                        cancelled_among(before.jobs, ids@)[k]
                    } else {
                        before.jobs[k]
                    },
            decreases self.jobs@.len() - i,
        {
            let ghost now_view = self@;
            let ghost now_held = self.jobs@;
            assert(now_view.jobs[i as int] == now_held[i as int].deep_view());
            if has_id(ids, self.jobs[i].id) {
                let job = &self.jobs[i];
                let next = ScheduledJob {
                    id: job.id,
                    call_id: job.call_id.duplicate(),
                    phase: job.phase,
                    admitted_at: job.admitted_at,
                    slot_at: job.slot_at,
                    started_at: job.started_at,
                    closed_at: job.closed_at,
                    deadline: job.deadline,
                    timeout: job.timeout,
                    recording: job.recording,
                    request_recorded: job.request_recorded,
                    result_recorded: job.result_recorded,
                    stop_reason: job.stop_reason,
                    cancelled: true,
                };
                proof {
                    quiet_change_keeps_order(now_view, i as int, next.deep_view());
                }
                self.jobs.set(i, next);
                proof {
                    assert forall|k: int| 0 <= k < held.len() implies #[trigger] self@.jobs[k]
                        == now_view.jobs.update(i as int, next.deep_view())[k] by {
                        if k != i {
                            assert(self.jobs@[k] == now_held[k]);
                            assert(now_view.jobs[k] == now_held[k].deep_view());
                        }
                    }
                    assert(self@.jobs =~= now_view.jobs.update(i as int, next.deep_view()));
                }
            }
            i = i + 1;
        }
        assert(self@.jobs =~= cancelled_among(before.jobs, ids@));
    }

    /// Lets no call in any more and asks all to stop. A runtime that has stopped has
    /// nothing to do.
    pub fn begin_stop(&mut self) -> (stopping: bool)
        requires
            old(self).wf(),
        ensures
            final(self).wf(),
            stopping == (old(self).lifecycle != LifecycleState::Stopped),
            final(self).next_turn_id == old(self).next_turn_id,
            final(self).unacknowledged@ == old(self).unacknowledged@,
            final(self)@ == if stopping {
                SchedulerView {
                    lifecycle: LifecycleState::Stopping,
                    jobs: all_cancelled(old(self)@.jobs),
                    ..old(self)@
                }
            } else {
                old(self)@
            },
    {
        if self.lifecycle == LifecycleState::Stopped {
            return false;
        }
        let mut ids: Vec<u64> = Vec::new();
        let mut i: usize = 0;
        while i < self.jobs.len()
            invariant
                i <= self.jobs@.len(),
                *self == *old(self),
                ids@.len() == i,
                forall|k: int| 0 <= k < i ==> #[trigger] ids@[k] == self.jobs@[k].id,
            decreases self.jobs@.len() - i,
        {
            ids.push(self.jobs[i].id);
            i = i + 1;
        }
        let ghost before = self@;
        let ghost held = self.jobs@;
        self.cancel_jobs(&ids);
        proof {
            assert forall|k: int| 0 <= k < before.jobs.len() implies #[trigger] cancelled_among(
                before.jobs,
                ids@,
            )[k] == all_cancelled(before.jobs)[k] by {
                assert(before.jobs[k] == held[k].deep_view());
                assert(ids@[k] == before.jobs[k].id);
                assert(ids@.contains(before.jobs[k].id));
            }
            assert(cancelled_among(before.jobs, ids@) =~= all_cancelled(before.jobs));
        }
        let ghost cancelled = self@;
        self.lifecycle = LifecycleState::Stopping;
        proof {
            assert(self@ == (SchedulerView { lifecycle: LifecycleState::Stopping, ..cancelled }));
            lifecycle_keeps_order(cancelled, LifecycleState::Stopping);
        }
        true
    }

    /// Ends a stop once everything is drained: the words for what nobody heard.
    pub fn finish_stop(&mut self) -> (result: Result<(), String>)
        requires
            old(self).wf(),
        ensures
            final(self).wf(),
            final(self)@ == (SchedulerView { lifecycle: LifecycleState::Stopped, ..old(self)@ }),
            final(self).next_turn_id == old(self).next_turn_id,
            final(self).unacknowledged@.len() == 0,
            match result {
                Ok(_) => old(self).unacknowledged@.len() == 0,
                Err(text) => old(self).unacknowledged@.len() > 0 && text@ == decimal(
                    unheard(old(self).unacknowledged@) as nat,
                ) + " model operation(s) failed canonical closure before shutdown"@,
            },
    {
        let count: usize = unheard_count(&self.unacknowledged);
        let any: bool = self.unacknowledged.len() > 0;
        self.lifecycle = LifecycleState::Stopped;
        self.unacknowledged = Vec::new();
        if !any {
            return Ok(());
        }
        let mut text = decimal_text(count as u64);
        text.push_str(" model operation(s) failed canonical closure before shutdown");
        Err(text)
    }

    /// What every job is at and how long it took so far.
    pub fn scheduler_snapshot(&self, now: Duration) -> (snapshot: ModelSchedulerSnapshot)
        requires
            self.wf(),
        ensures
            snapshot.config == self.config,
            snapshot.accepting == (self.lifecycle == LifecycleState::Running),
            snapshot.inflight == self@.jobs.len(),
            snapshot.jobs@.len() == self@.jobs.len(),
            forall|i: int|
                0 <= i < self@.jobs.len() ==> reports_job(
                    #[trigger] snapshot.jobs@[i],
                    self@.jobs[i],
                    now,
                ),
            snapshot.queued == phases(self@.jobs, ModelJobPhase::Queued),
            snapshot.preparing == phases(self@.jobs, ModelJobPhase::Preparing),
            snapshot.executing == phases(self@.jobs, ModelJobPhase::Executing),
            snapshot.cleaning == phases(self@.jobs, ModelJobPhase::Cleaning),
    {
        let ghost views = self@.jobs;
        let mut jobs: Vec<ModelJobReport> = Vec::new();
        let mut queued: usize = 0;
        let mut preparing: usize = 0;
        let mut executing: usize = 0;
        let mut cleaning: usize = 0;
        let mut i: usize = 0;
        assert(views.take(0) =~= Seq::empty());
        while i < self.jobs.len()
            invariant
                i <= self.jobs@.len(),
                views == self.jobs.deep_view(),
                jobs@.len() == i,
                forall|k: int|
                    0 <= k < i ==> reports_job(#[trigger] jobs@[k], views[k], now),
                queued == phases(views.take(i as int), ModelJobPhase::Queued),
                preparing == phases(views.take(i as int), ModelJobPhase::Preparing),
                executing == phases(views.take(i as int), ModelJobPhase::Executing),
                cleaning == phases(views.take(i as int), ModelJobPhase::Cleaning),
                queued <= i,
                preparing <= i,
                executing <= i,
                cleaning <= i,
            decreases self.jobs@.len() - i,
        {
            proof {
                assert(views[i as int] == self.jobs@[i as int].deep_view());
                assert(views.take(i + 1).drop_last() =~= views.take(i as int));
                assert(views.take(i + 1).last() == views[i as int]);
            }
            let report = self.jobs[i].report(now);
            match self.jobs[i].phase {
                ModelJobPhase::Queued => {
                    queued = queued + 1;
                },
                ModelJobPhase::Preparing => {
                    preparing = preparing + 1;
                },
                ModelJobPhase::Executing => {
                    executing = executing + 1;
                },
                ModelJobPhase::Cleaning => {
                    cleaning = cleaning + 1;
                },
            }
            jobs.push(report);
            i = i + 1;
        }
        assert(views.take(views.len() as int) =~= views);
        ModelSchedulerSnapshot {
            config: self.config,
            accepting: self.lifecycle == LifecycleState::Running,
            inflight: self.jobs.len(),
            queued,
            preparing,
            executing,
            cleaning,
            jobs,
        }
    }
}

pub open spec fn cancelled_among(jobs: Seq<JobView>, ids: Seq<u64>) -> Seq<JobView> {
    jobs.map_values(
        |job: JobView|
            if ids.contains(job.id) {
                JobView { cancelled: true, ..job }
            } else {
                job
            },
    )
}

pub open spec fn all_cancelled(jobs: Seq<JobView>) -> Seq<JobView> {
    jobs.map_values(|job: JobView| JobView { cancelled: true, ..job })
}

fn has_id(ids: &Vec<u64>, id: u64) -> (answer: bool)
    ensures
        answer == ids@.contains(id),
{
    let mut i: usize = 0;
    while i < ids.len()
        invariant
            i <= ids@.len(),
            forall|k: int| 0 <= k < i ==> ids@[k] != id,
        decreases ids@.len() - i,
    {
        if ids[i] == id {
            return true;
        }
        i = i + 1;
    }
    false
}

/// An observation of one job. It never holds what the model was asked.
#[derive(Debug, PartialEq, Eq)]
pub struct ModelJobReport {
    pub call_id: ModelCallId,
    pub phase: ModelJobPhase,
    pub recording: Option<ModelRecordStage>,
    pub request_recorded: bool,
    pub result_recorded: bool,
    pub stop_reason: Option<ModelJobStopReason>,
    pub timeout: Duration,
    pub remaining_time: Duration,
    pub queue_time: Duration,
    pub preparation_time: Duration,
    pub execution_time: Duration,
    pub cleanup_time: Duration,
}

/// Current jobs. What is over is not kept here.
#[derive(Debug, PartialEq, Eq)]
pub struct ModelSchedulerSnapshot {
    pub config: ModelSchedulerConfig,
    pub accepting: bool,
    pub inflight: usize,
    pub queued: usize,
    pub preparing: usize,
    pub executing: usize,
    pub cleaning: usize,
    pub jobs: Vec<ModelJobReport>,
}

pub open spec fn phases(jobs: Seq<JobView>, phase: ModelJobPhase) -> nat
    decreases jobs.len(),
{
    if jobs.len() == 0 {
        0
    } else {
        phases(jobs.drop_last(), phase) + if jobs.last().phase == phase {
            1nat
        } else {
            0
        }
    }
}

/// Time from one moment to another, none where the other came first.
pub open spec fn between(from: Duration, to: Duration) -> nat {
    if from.length() <= to.length() {
        (to.length() - from.length()) as nat
    } else {
        0
    }
}

/// The report tells the job's phases apart and how long each took.
pub open spec fn reports_job(report: ModelJobReport, job: JobView, now: Duration) -> bool {
    let end = match job.closed_at {
        Some(at) => at,
        None => now,
    };
    &&& report.call_id@ == job.call_id
    &&& report.phase == job.phase
    &&& report.recording == job.recording
    &&& report.request_recorded == job.request_recorded
    &&& report.result_recorded == job.result_recorded
    &&& report.stop_reason == job.stop_reason
    &&& report.timeout == job.timeout
    &&& report.remaining_time.length() == between(now, job.deadline)
    &&& report.queue_time.length() == between(
        job.admitted_at,
        match job.slot_at {
            Some(at) => at,
            None => end,
        },
    )
    &&& report.preparation_time.length() == match job.slot_at {
        Some(at) => between(
            at,
            match job.started_at {
                Some(started) => started,
                None => end,
            },
        ),
        None => 0,
    }
    &&& report.execution_time.length() == match job.started_at {
        Some(at) => between(at, end),
        None => 0,
    }
    &&& report.cleanup_time.length() == match job.closed_at {
        Some(at) => between(at, now),
        None => 0,
    }
}

impl ScheduledJob {
    pub fn report(&self, now: Duration) -> (report: ModelJobReport)
        ensures
            reports_job(report, self.deep_view(), now),
    {
        let end = match self.closed_at {
            Some(at) => at,
            None => now,
        };
        let slot_end = match self.slot_at {
            Some(at) => at,
            None => end,
        };
        let preparation_time = match self.slot_at {
            Some(at) => match self.started_at {
                Some(started) => started.saturating_sub(at),
                None => end.saturating_sub(at),
            },
            None => Duration::zero(),
        };
        let execution_time = match self.started_at {
            Some(at) => end.saturating_sub(at),
            None => Duration::zero(),
        };
        let cleanup_time = match self.closed_at {
            Some(at) => now.saturating_sub(at),
            None => Duration::zero(),
        };
        ModelJobReport {
            call_id: self.call_id.duplicate(),
            phase: self.phase,
            recording: self.recording,
            request_recorded: self.request_recorded,
            result_recorded: self.result_recorded,
            stop_reason: self.stop_reason,
            timeout: self.timeout,
            remaining_time: self.deadline.saturating_sub(now),
            queue_time: slot_end.saturating_sub(self.admitted_at),
            preparation_time,
            execution_time,
            cleanup_time,
        }
    }
}

/// The failure that closing a call shows, if it could not be closed.
pub fn closure_failure_of<T>(result: &Result<T, ModelGatewayError>) -> (answer: bool)
    ensures
        answer == (*result matches Err(e) && is_closure_error(e)),
{
    match result {
        Ok(_) => false,
        Err(e) => is_closure_failure(e),
    }
}

/// What was settled when a call was let in.
pub open spec fn same_terms(job: JobView, other: JobView) -> bool {
    &&& job.id == other.id
    &&& job.call_id == other.call_id
    &&& job.admitted_at == other.admitted_at
    &&& job.deadline == other.deadline
    &&& job.timeout == other.timeout
}

proof fn dispatching_keeps_terms(v: SchedulerView, now: Duration)
    requires
        v.wf(),
    ensures
        v.dispatched(now).jobs.len() == v.jobs.len(),
        v.dispatched(now).queue.len() <= v.queue.len(),
        v.dispatched(now).queue == v.queue.skip(
            v.queue.len() - v.dispatched(now).queue.len(),
        ),
        forall|i: int|
            0 <= i < v.jobs.len() ==> same_terms(
                #[trigger] v.dispatched(now).jobs[i],
                v.jobs[i],
            ),
    decreases v.queue.len(),
{
    if v.can_call_up() {
        calling_up_keeps_order(v, now);
        let next = v.called_up(now);
        dispatching_keeps_terms(next, now);
        let last = next.dispatched(now);
        assert(next.queue =~= v.queue.skip(1));
        assert(v.queue.skip(1).skip(next.queue.len() - last.queue.len()) =~= v.queue.skip(
            v.queue.len() - last.queue.len(),
        ));
        assert forall|i: int| 0 <= i < v.jobs.len() implies same_terms(
            #[trigger] v.dispatched(now).jobs[i],
            v.jobs[i],
        ) by {
            assert(same_terms(last.jobs[i], next.jobs[i]));
            assert(same_terms(next.jobs[i], v.jobs[i]));
        }
    } else {
        assert(v.queue.skip(0) =~= v.queue);
    }
}

/// No call is ever given more time, or another name, than it was let in with, whatever
/// is released around it.
pub proof fn terms_are_kept(v: SchedulerView, id: u64, reason: Option<ModelJobStopReason>, now: Duration, i: int)
    requires
        v.wf(),
        0 <= i < v.jobs.len(),
    ensures
        v.released(id, reason, now).jobs.len() == v.jobs.len(),
        same_terms(v.released(id, reason, now).jobs[i], v.jobs[i]),
{
    found_job(v.jobs, id, 0);
    match job_at(v.jobs, id, 0) {
        Some(k) => {
            if v.jobs[k].phase != ModelJobPhase::Cleaning {
                closing_keeps_order(v, k, reason, now);
                dispatching_keeps_terms(v.closed(k, reason, now), now);
                assert(same_terms(v.closed(k, reason, now).jobs[i], v.jobs[i]));
            }
        },
        None => {},
    }
}

/// Slots go to the calls that have waited longest: of those that waited when a slot was
/// given up, the ones that still wait are the last to have come.
pub proof fn waiters_go_in_order(v: SchedulerView, id: u64, reason: Option<ModelJobStopReason>, now: Duration)
    requires
        v.wf(),
        job_at(v.jobs, id, 0) is Some,
        v.jobs[job_at(v.jobs, id, 0)->0].phase != ModelJobPhase::Cleaning,
        v.jobs[job_at(v.jobs, id, 0)->0].phase != ModelJobPhase::Queued,
    ensures
        v.released(id, reason, now).queue.len() <= v.queue.len(),
        v.released(id, reason, now).queue == v.queue.skip(
            v.queue.len() - v.released(id, reason, now).queue.len(),
        ),
{
    found_job(v.jobs, id, 0);
    let k = job_at(v.jobs, id, 0)->0;
    closing_keeps_order(v, k, reason, now);
    dispatching_keeps_terms(v.closed(k, reason, now), now);
}

/// In every state that the operations lead to, no limit is passed. What counts toward
/// the limit on calls in flight is every call that is not over, also one that is only
/// being recorded or cleaned up.
pub proof fn limits_are_kept(v: SchedulerView, id: u64, reason: Option<ModelJobStopReason>, now: Duration)
    requires
        v.wf(),
    ensures
        v.jobs.len() <= v.config.max_inflight,
        v.queue.len() <= v.config.max_queued,
        slots(v.jobs) <= v.config.max_concurrency,
        slots(v.released(id, reason, now).jobs) <= v.config.max_concurrency,
        v.completed(id, now).jobs.len() <= v.config.max_inflight,
        v.completed(id, now).queue.len() <= v.config.max_queued,
{
    releasing_keeps_order(v, id, reason, now);
    releasing_keeps_order(v, id, None, now);
    completing_keeps_order(v, id, now);
}

/// A slot that is given up goes to the calls that wait, as far as there are any: none
/// of them waits while a slot is free.
pub proof fn no_slot_is_wasted(v: SchedulerView, id: u64, reason: Option<ModelJobStopReason>, now: Duration)
    requires
        v.wf(),
        v.lifecycle == LifecycleState::Running,
        job_at(v.jobs, id, 0) is Some,
        v.jobs[job_at(v.jobs, id, 0)->0].phase != ModelJobPhase::Cleaning,
    ensures
        ({
            let w = v.released(id, reason, now);
            w.queue.len() == 0 || w.occupied == w.config.max_concurrency
        }),
{
    found_job(v.jobs, id, 0);
    let i = job_at(v.jobs, id, 0)->0;
    closing_keeps_order(v, i, reason, now);
    dispatching_keeps_order(v.closed(i, reason, now), now);
}

/// Releasing twice is releasing once.
pub proof fn releasing_is_idempotent(
    v: SchedulerView,
    id: u64,
    reason: ModelJobStopReason,
    again: Option<ModelJobStopReason>,
    now: Duration,
    later: Duration,
)
    requires
        v.wf(),
    ensures
        v.released(id, Some(reason), now).released(id, again, later) == v.released(
            id,
            Some(reason),
            now,
        ),
{
    releasing_keeps_order(v, id, Some(reason), now);
    found_job(v.jobs, id, 0);
    if let Some(i) = job_at(v.jobs, id, 0) {
        let w = v.released(id, Some(reason), now);
        if v.jobs[i].phase != ModelJobPhase::Cleaning {
            closing_keeps_order(v, i, Some(reason), now);
            let c = v.closed(i, Some(reason), now);
            dispatching_keeps_order(c, now);
            assert(w.jobs[i] == c.jobs[i]);
        }
        assert(w.jobs[i].stop_reason is Some);
        assert(w.jobs.update(i, w.jobs[i]) =~= w.jobs);
    }
}

} // verus!
