//! When a call gets a slot, and why it is stopped.

use crate::lifecycle::LifecycleState;
use crate::llm::results::ModelJobStopReason;
use crate::llm::scheduler::{entry_fault, job_at, JobView, ModelJobPhase, SchedulerView};
use crate::time::Duration;
use vstd::prelude::*;

verus! {

/// A call that waited gets a slot exactly where nobody cancelled it and its time is not
/// over; one that does not get it is stopped for the reason that holds, and no call gets
/// more time by waiting.
pub proof fn late_calls_get_no_slot(job: JobView, now: Duration)
    ensures
        ({
            let next = job.called_up(now);
            let served = !job.cancelled && now.length() < job.deadline.length();
            &&& next.phase == ModelJobPhase::Preparing <==> served
            &&& next.phase == ModelJobPhase::Cleaning <==> !served
            &&& served ==> next.slot_at == Some(now) && next.stop_reason == job.stop_reason
            &&& job.cancelled ==> next.stop_reason == Some(ModelJobStopReason::Cancelled)
            &&& !job.cancelled && !served ==> next.stop_reason == Some(
                ModelJobStopReason::QueueTimeout,
            )
            &&& next.id == job.id && next.call_id == job.call_id
            &&& next.deadline == job.deadline && next.timeout == job.timeout
            &&& next.admitted_at == job.admitted_at && next.started_at == job.started_at
        }),
{
}

/// A new call gets a slot at once exactly where one is free and nobody waits for it, and
/// waits behind all others where not. It is let in with its own deadline.
pub proof fn new_calls_wait_behind_others(
    v: SchedulerView,
    call_id: Seq<char>,
    now: Duration,
    deadline: Duration,
    timeout: Duration,
)
    requires
        v.wf(),
        v.next_job_id < u64::MAX,
    ensures
        ({
            let next = v.admitted(call_id, now, deadline, timeout);
            let job = next.jobs.last();
            let at_once = v.occupied < v.config.max_concurrency && v.queue.len() == 0;
            &&& next.jobs.len() == v.jobs.len() + 1
            &&& forall|i: int| 0 <= i < v.jobs.len() ==> #[trigger] next.jobs[i] == v.jobs[i]
            &&& job.id == v.next_job_id && job.call_id == call_id
            &&& job.deadline == deadline && job.timeout == timeout && job.admitted_at == now
            &&& !job.cancelled && job.stop_reason is None && job.closed_at is None
            &&& at_once ==> job.phase == ModelJobPhase::Preparing && next.queue == v.queue
                && next.occupied == v.occupied + 1
            &&& !at_once ==> job.phase == ModelJobPhase::Queued && next.occupied == v.occupied
                && next.queue == v.queue.push(job.id)
        }),
{
}

/// A call goes on exactly where no reason to stop it was recorded, nobody cancelled it,
/// its time is not over and somebody still listens. Of several reasons the recorded one
/// is told, then the cancellation, then the time: of a call that still waits as time lost
/// in the queue.
pub proof fn calls_are_stopped_for_the_first_reason(
    v: SchedulerView,
    id: u64,
    cancelled: bool,
    now: Duration,
    deadline: Duration,
    consumer_gone: bool,
)
    ensures
        ({
            let why = v.interruption(id, cancelled, now, deadline, consumer_gone);
            let at = job_at(v.jobs, id, 0);
            let known = if at is Some {
                v.jobs[at->0].stop_reason
            } else {
                None
            };
            let waits = at is Some && v.jobs[at->0].phase == ModelJobPhase::Queued;
            let late = now.length() >= deadline.length();
            &&& why is None <==> known is None && !cancelled && !late && !consumer_gone
            &&& known is Some ==> why == known
            &&& known is None && cancelled ==> why == Some(ModelJobStopReason::Cancelled)
            &&& known is None && !cancelled && late && waits ==> why == Some(
                ModelJobStopReason::QueueTimeout,
            )
            &&& known is None && !cancelled && late && !waits ==> why == Some(
                ModelJobStopReason::Timeout,
            )
            &&& known is None && !cancelled && !late && consumer_gone ==> why == Some(
                ModelJobStopReason::ConsumerDropped,
            )
        }),
{
}

/// A call that is closed gives up its slot, keeps the first reason that it was stopped for
/// and the time at which it was closed.
pub proof fn closed_calls_keep_their_first_reason(
    job: JobView,
    reason: Option<ModelJobStopReason>,
    now: Duration,
)
    ensures
        ({
            let next = job.closing(reason, now);
            &&& next.phase == ModelJobPhase::Cleaning
            &&& next.closed_at == Some(now)
            &&& job.stop_reason is Some ==> next.stop_reason == job.stop_reason
            &&& job.stop_reason is None ==> next.stop_reason == reason
            &&& next.id == job.id && next.deadline == job.deadline
            &&& next.request_recorded == job.request_recorded
            &&& next.result_recorded == job.result_recorded
        }),
{
}

/// A model call is let in exactly where the runtime runs, its turn is open, its time can be
/// told, and there is room: among the calls in flight, and at once or in the queue.
pub proof fn model_calls_are_let_in_where_there_is_room(
    v: SchedulerView,
    turn_open: bool,
    has_deadline: bool,
)
    ensures
        entry_fault(v, turn_open, has_deadline) is None <==> {
            &&& v.lifecycle == LifecycleState::Running
            &&& turn_open && has_deadline
            &&& v.jobs.len() < v.config.max_inflight
            &&& (v.occupied < v.config.max_concurrency && v.queue.len() == 0) || v.queue.len()
                < v.config.max_queued
            &&& v.next_job_id < u64::MAX
        },
{
}

} // verus!
