//! The physical log of a session: every event in its place, none twice.

use crate::id::SessionId;
use crate::record::Record;
use crate::session::event::{SessionEvent, SessionEventView};
use vstd::prelude::*;

verus! {

/// What is wrong with a physical log, and at which index.
#[derive(Clone, Copy, Debug, PartialEq, Eq, Structural)]
pub enum PhysicalLogError {
    /// The event belongs to another session.
    ForeignSession { index: usize },
    /// The event's sequence number is not its index.
    SequenceMismatch { index: usize },
    /// An earlier event has the same identity.
    DuplicateEvent { index: usize },
}

/// An earlier event carries the identity of the `i`th.
pub open spec fn id_repeats(events: Seq<SessionEventView>, i: int) -> bool {
    exists|j: int| 0 <= j < i && (#[trigger] events[j]).event_id == events[i].event_id
}

pub open spec fn event_fault(events: Seq<SessionEventView>, i: int, session: Seq<char>) -> Option<
    PhysicalLogError,
> {
    if events[i].session_id != session {
        Some(PhysicalLogError::ForeignSession { index: i as usize })
    } else if events[i].seq != i {
        Some(PhysicalLogError::SequenceMismatch { index: i as usize })
    } else if id_repeats(events, i) {
        Some(PhysicalLogError::DuplicateEvent { index: i as usize })
    } else {
        None
    }
}

/// The first fault of a log from the `i`th event on.
pub open spec fn log_fault_from(events: Seq<SessionEventView>, i: int, session: Seq<char>) -> Option<
    PhysicalLogError,
>
    decreases events.len() - i,
{
    if i < 0 || i >= events.len() {
        None
    } else {
        match event_fault(events, i, session) {
            Some(fault) => Some(fault),
            None => log_fault_from(events, i + 1, session),
        }
    }
}

pub open spec fn log_fault(events: Seq<SessionEventView>, session: Seq<char>) -> Option<
    PhysicalLogError,
> {
    log_fault_from(events, 0, session)
}

/// Whether an event before the `i`th has its identity.
pub(crate) fn repeats(events: &Vec<SessionEvent>, i: usize) -> (answer: bool)
    requires
        i < events@.len(),
    ensures
        answer == id_repeats(events.deep_view(), i as int),
{
    let ghost views = events.deep_view();
    let mut j: usize = 0;
    while j < i
        invariant
            j <= i < events@.len(),
            views == events.deep_view(),
            forall|k: int| 0 <= k < j ==> (#[trigger] views[k]).event_id != views[i as int].event_id,
        decreases i - j,
    {
        assert(views[j as int] == events@[j as int]@);
        assert(views[i as int] == events@[i as int]@);
        if events[j].event_id.is_same(&events[i].event_id) {
            return true;
        }
        j = j + 1;
    }
    false
}

/// Checks that a log is complete and unambiguous for `session`.
pub fn validate_physical_log(session: &SessionId, events: &Vec<SessionEvent>) -> (result: Result<
    (),
    PhysicalLogError,
>)
    ensures
        match result {
            Ok(_) => log_fault(events.deep_view(), session@) is None,
            Err(e) => log_fault(events.deep_view(), session@) == Some(e),
        },
{
    let ghost views = events.deep_view();
    let mut i: usize = 0;
    while i < events.len()
        invariant
            i <= events@.len(),
            views == events.deep_view(),
            log_fault(views, session@) == log_fault_from(views, i as int, session@),
        decreases events@.len() - i,
    {
        assert(views[i as int] == events@[i as int]@);
        if !events[i].session_id.is_same(session) {
            return Err(PhysicalLogError::ForeignSession { index: i });
        }
        if events[i].seq != i as u64 {
            return Err(PhysicalLogError::SequenceMismatch { index: i });
        }
        if repeats(events, i) {
            return Err(PhysicalLogError::DuplicateEvent { index: i });
        }
        i = i + 1;
    }
    Ok(())
}

/// In a log without fault the sequence number of each event is its index and no
/// identity occurs twice.
pub proof fn sound_log(events: Seq<SessionEventView>, session: Seq<char>)
    requires
        log_fault(events, session) is None,
    ensures
        forall|i: int| 0 <= i < events.len() ==> (#[trigger] events[i]).seq == i
            && events[i].session_id == session,
        forall|i: int, j: int|
            0 <= i < j < events.len() ==> (#[trigger] events[i]).event_id != (
            #[trigger] events[j]).event_id,
{
    assert forall|i: int| 0 <= i < events.len() implies event_fault(
        events,
        i,
        session,
    ) is None by {
        sound_from(events, 0, i, session);
    }
    assert forall|i: int, j: int| 0 <= i < j < events.len() implies (#[trigger] events[i]).event_id
        != (#[trigger] events[j]).event_id by {
        assert(event_fault(events, j, session) is None);
    }
    assert forall|i: int| 0 <= i < events.len() implies (#[trigger] events[i]).seq == i
        && events[i].session_id == session by {
        assert(event_fault(events, i, session) is None);
    }
}

proof fn sound_from(events: Seq<SessionEventView>, n: int, i: int, session: Seq<char>)
    requires
        0 <= n <= i < events.len(),
        log_fault_from(events, n, session) is None,
    ensures
        event_fault(events, i, session) is None,
    decreases i - n,
{
    if n < i {
        sound_from(events, n + 1, i, session);
    }
}

} // verus!
