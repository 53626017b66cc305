//! Which logs are sound, and what may be appended to them.

use crate::session::event::SessionEventView;
use crate::session::jsonl::{append_plan, durable_at};
use crate::session::log::{event_fault, id_repeats, log_fault, log_fault_from};
use vstd::prelude::*;

verus! {

/// A log is refused for nothing else than an event of another session, out of its place,
/// or recorded twice.
pub proof fn complete_logs_are_sound(events: Seq<SessionEventView>, session: Seq<char>)
    requires
        forall|i: int| 0 <= i < events.len() ==> (#[trigger] events[i]).seq == i
            && events[i].session_id == session,
        forall|i: int, j: int|
            0 <= i < j < events.len() ==> (#[trigger] events[i]).event_id != (
            #[trigger] events[j]).event_id,
    ensures
        log_fault(events, session) is None,
{
    sound_up_to(events, session, 0);
}

proof fn sound_up_to(events: Seq<SessionEventView>, session: Seq<char>, k: int)
    requires
        0 <= k <= events.len(),
        forall|i: int| 0 <= i < events.len() ==> (#[trigger] events[i]).seq == i
            && events[i].session_id == session,
        forall|i: int, j: int|
            0 <= i < j < events.len() ==> (#[trigger] events[i]).event_id != (
            #[trigger] events[j]).event_id,
    ensures
        log_fault_from(events, k, session) is None,
    decreases events.len() - k,
{
    if k < events.len() {
        assert(!id_repeats(events, k));
        assert(event_fault(events, k, session) is None);
        sound_up_to(events, session, k + 1);
    }
}

proof fn durable_is_first(events: Seq<SessionEventView>, id: Seq<char>, k: int)
    requires
        0 <= k,
    ensures
        match durable_at(events, id, k) {
            Some(i) => k <= i < events.len() && events[i].event_id == id,
            None => forall|i: int| k <= i < events.len() ==> (#[trigger] events[i]).event_id != id,
        },
    decreases events.len() - k,
{
    if k < events.len() {
        durable_is_first(events, id, k + 1);
    }
}

/// An event is written exactly where it is new and stands at the end of the log; one that
/// is there already is not written again, and anything else that would change the log is
/// refused.
pub proof fn only_the_next_event_is_written(
    events: Seq<SessionEventView>,
    event: SessionEventView,
    session: Seq<char>,
)
    requires
        log_fault(events, session) is None,
        events.len() <= usize::MAX,
    ensures
        ({
            let plan = append_plan(events, event);
            let known = exists|i: int|
                0 <= i < events.len() && (#[trigger] events[i]).event_id == event.event_id;
            &&& plan is Append <==> !known && event.seq == events.len()
            &&& plan is Replayed <==> events.contains(event)
            &&& plan is Refused <==> !(plan is Append) && !(plan is Replayed)
        }),
{
    durable_is_first(events, event.event_id, 0);
    crate::session::log::sound_log(events, session);
    if events.contains(event) {
        let k = events.index_of(event);
        assert(events[k].event_id == event.event_id);
        let i = durable_at(events, event.event_id, 0)->0;
        if i != k {
            assert(events[i].event_id == events[k].event_id);
        }
    }
    if durable_at(events, event.event_id, 0) is Some {
        let i = durable_at(events, event.event_id, 0)->0;
        assert(events[i].event_id == event.event_id);
        if events[i] == event {
            assert(events.contains(event));
        }
    }
}

} // verus!
