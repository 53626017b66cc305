//! The durable log of a session: one event per line, appended once and never changed.
//!
//! The host reads and writes bytes and turns lines into events; this module says what a
//! log holds, what an append comes to and when its outcome is unknown.

use crate::id::{EventId, SessionId};
use crate::json::{decimal, decimal_text};
use crate::record::Record;
use crate::session::event::{SessionEvent, SessionEventView};
use crate::session::log;
use crate::session::log::PhysicalLogError;
use crate::store::lines;
use vstd::prelude::*;

verus! {

/// Whether a failed write may have taken effect.
#[derive(Clone, Copy, Debug, PartialEq, Eq, Structural)]
pub enum CommitCertainty {
    DefinitelyNotCommitted,
    Indeterminate,
}

#[derive(Debug, PartialEq, Eq)]
pub enum SessionPersistenceError {
    Io { operation: &'static str, message: String, certainty: CommitCertainty },
    Serialization { message: String },
    Conflict { seq: u64, event_id: EventId, message: String },
    CorruptLog { physical_index: usize, message: String },
    InvalidHistory(PhysicalLogError),
}

pub enum PersistenceErrorView {
    Io { operation: Seq<char>, message: Seq<char>, certainty: CommitCertainty },
    Serialization { message: Seq<char> },
    Conflict { seq: u64, event_id: Seq<char>, message: Seq<char> },
    CorruptLog { physical_index: usize, message: Seq<char> },
    InvalidHistory(PhysicalLogError),
}

impl SessionPersistenceError {
    pub open spec fn view(&self) -> PersistenceErrorView {
        match self {
            SessionPersistenceError::Io { operation, message, certainty } => PersistenceErrorView::Io {
                operation: operation@,
                message: message@,
                certainty: *certainty,
            },
            SessionPersistenceError::Serialization { message } => PersistenceErrorView::Serialization {
                message: message@,
            },
            SessionPersistenceError::Conflict { seq, event_id, message } => PersistenceErrorView::Conflict {
                seq: *seq,
                event_id: event_id@,
                message: message@,
            },
            SessionPersistenceError::CorruptLog { physical_index, message } => PersistenceErrorView::CorruptLog {
                physical_index: *physical_index,
                message: message@,
            },
            SessionPersistenceError::InvalidHistory(e) => PersistenceErrorView::InvalidHistory(*e),
        }
    }

    pub fn duplicate(&self) -> (copy: Self)
        ensures
            copy@ == self@,
    {
        match self {
            SessionPersistenceError::Io { operation, message, certainty } => SessionPersistenceError::Io {
                operation,
                message: message.clone(),
                certainty: *certainty,
            },
            SessionPersistenceError::Serialization { message } => SessionPersistenceError::Serialization {
                message: message.clone(),
            },
            SessionPersistenceError::Conflict { seq, event_id, message } => SessionPersistenceError::Conflict {
                seq: *seq,
                event_id: event_id.duplicate(),
                message: message.clone(),
            },
            SessionPersistenceError::CorruptLog { physical_index, message } => SessionPersistenceError::CorruptLog {
                physical_index: *physical_index,
                message: message.clone(),
            },
            SessionPersistenceError::InvalidHistory(e) => SessionPersistenceError::InvalidHistory(*e),
        }
    }
}

#[derive(Clone, Copy, Debug, PartialEq, Eq, Structural)]
pub enum PersistAppendOutcome {
    Appended,
    /// The same event was there already.
    ReplayedExact,
}

// ---- reading ----

/// Why the bytes are no log, if they are not.
pub open spec fn framing_fault(bytes: Seq<u8>) -> Option<PersistenceErrorView> {
    if lines::is_terminated(bytes) {
        None
    } else {
        Some(
            PersistenceErrorView::CorruptLog {
                physical_index: lines::newline_count(bytes) as usize,
                message: "physical JSONL tail is not terminated by a newline"@,
            },
        )
    }
}

/// The lines of a log, to be turned into events one by one.
pub fn frame_log(bytes: &Vec<u8>) -> (result: Result<Vec<Vec<u8>>, SessionPersistenceError>)
    ensures
        match result {
            Ok(records) => framing_fault(bytes@) is None && records.deep_view() == lines::lines_of(
                bytes@,
            ),
            Err(e) => framing_fault(bytes@) == Some(e@),
        },
{
    if !lines::terminated(bytes) {
        return Err(
            SessionPersistenceError::CorruptLog {
                physical_index: lines::count_newlines(bytes),
                message: "physical JSONL tail is not terminated by a newline".to_owned(),
            },
        );
    }
    Ok(lines::split_lines(bytes))
}

/// A line as the host decoded it: an event, or the words of the decoder.
pub type Decoded = Result<SessionEvent, String>;

/// The first line that is no event, from the `k`th on.
pub open spec fn undecoded(decoded: Seq<Decoded>, k: int) -> Option<int>
    decreases decoded.len() - k,
{
    if k < 0 || k >= decoded.len() {
        None
    } else if decoded[k] is Err {
        Some(k)
    } else {
        undecoded(decoded, k + 1)
    }
}

pub open spec fn decoded_events(decoded: Seq<Decoded>) -> Seq<SessionEventView> {
    decoded.map_values(|d: Decoded| d->Ok_0@)
}

/// Why the decoded lines are no history of the session, if they are not.
pub open spec fn history_fault(decoded: Seq<Decoded>, session: Seq<char>) -> Option<PersistenceErrorView> {
    match undecoded(decoded, 0) {
        Some(k) => Some(
            PersistenceErrorView::CorruptLog {
                physical_index: k as usize,
                message: "JSON record cannot be decoded: "@ + decoded[k]->Err_0@,
            },
        ),
        None => match log::log_fault(decoded_events(decoded), session) {
            Some(e) => Some(PersistenceErrorView::InvalidHistory(e)),
            None => None,
        },
    }
}

/// The events of a log.
pub fn read_physical_log(session_id: &SessionId, decoded: Vec<Decoded>) -> (result: Result<
    Vec<SessionEvent>,
    SessionPersistenceError,
>)
    ensures
        match result {
            Ok(events) => history_fault(decoded@, session_id@) is None && events.deep_view()
                == decoded_events(decoded@),
            Err(e) => history_fault(decoded@, session_id@) == Some(e@),
        },
{
    let ghost all = decoded@;
    let mut rest = decoded;
    let mut events: Vec<SessionEvent> = Vec::new();
    let mut done: usize = 0;
    let total: usize = rest.len();
    proof {
        assert(all.skip(0) =~= all);
        assert(events.deep_view() =~= decoded_events(all).take(0));
    }
    while rest.len() > 0
        invariant
            all == decoded@,
            all.len() == total,
            done + rest@.len() == total,
            rest@ == all.skip(done as int),
            events@.len() == done,
            undecoded(all, 0) == undecoded(all, done as int),
            events.deep_view() == decoded_events(all).take(done as int),
        decreases rest@.len(),
    {
        let next = rest.remove(0);
        assert(next == all[done as int]);
        assert(rest@ =~= all.skip(done + 1));
        let event = match next {
            Ok(event) => event,
            Err(words) => {
                let mut message = "JSON record cannot be decoded: ".to_owned();
                message.push_str(words.as_str());
                return Err(SessionPersistenceError::CorruptLog { physical_index: done, message });
            },
        };
        let ghost before = events.deep_view();
        events.push(event);
        proof {
            assert(events.deep_view() =~= before.push(event@));
            assert(decoded_events(all)[done as int] == event@);
            assert(events.deep_view() =~= decoded_events(all).take(done + 1));
        }
        done = done + 1;
    }
    assert(decoded_events(all).take(total as int) =~= decoded_events(all));
    match log::validate_physical_log(session_id, &events) {
        Err(e) => Err(SessionPersistenceError::InvalidHistory(e)),
        Ok(_) => Ok(events),
    }
}

// ---- appending ----

/// The durable event of that identity, from the `k`th on.
pub open spec fn durable_at(events: Seq<SessionEventView>, id: Seq<char>, k: int) -> Option<int>
    decreases events.len() - k,
{
    if k < 0 || k >= events.len() {
        None
    } else if events[k].event_id == id {
        Some(k)
    } else {
        durable_at(events, id, k + 1)
    }
}

/// What an append comes to before anything is written.
pub enum AppendView {
    Append,
    Replayed,
    Refused(PersistenceErrorView),
}

/// An event that is there already is not written again; another event of its identity,
/// or one that does not come next, is refused.
pub open spec fn append_plan(events: Seq<SessionEventView>, event: SessionEventView) -> AppendView {
    let conflict = |message: Seq<char>|
        AppendView::Refused(
            PersistenceErrorView::Conflict { seq: event.seq, event_id: event.event_id, message },
        );
    match durable_at(events, event.event_id, 0) {
        Some(i) => if events[i] == event {
            AppendView::Replayed
        } else {
            conflict(
                "event ID is already durable at sequence "@ + decimal(events[i].seq as nat)
                    + " with different content"@,
            )
        },
        None => if event.seq > usize::MAX {
            conflict("sequence cannot address durable head "@ + decimal(events.len()))
        } else if event.seq == events.len() {
            AppendView::Append
        } else if event.seq < events.len() {
            conflict(
                "durable sequence "@ + decimal(event.seq as nat) + " is occupied by event "@
                    + events[event.seq as int].event_id,
            )
        } else {
            conflict("sequence is not the expected durable head "@ + decimal(events.len()))
        },
    }
}

fn find_durable(events: &Vec<SessionEvent>, id: &EventId) -> (found: Option<usize>)
    ensures
        match found {
            Some(i) => i < events@.len() && durable_at(events.deep_view(), id@, 0) == Some(i as int),
            None => durable_at(events.deep_view(), id@, 0) is None,
        },
{
    let ghost views = events.deep_view();
    let mut i: usize = 0;
    while i < events.len()
        invariant
            i <= events@.len(),
            views == events.deep_view(),
            durable_at(views, id@, 0) == durable_at(views, id@, i as int),
        decreases events@.len() - i,
    {
        assert(views[i as int] == events@[i as int]@);
        if events[i].event_id.is_same(id) {
            return Some(i);
        }
        i = i + 1;
    }
    None
}

/// What an append comes to before anything is written: the line is to be written, or
/// nothing is.
pub fn plan_append(events: &Vec<SessionEvent>, event: &SessionEvent) -> (result: Result<
    PersistAppendOutcome,
    SessionPersistenceError,
>)
    ensures
        match result {
            Ok(PersistAppendOutcome::Appended) => append_plan(events.deep_view(), event@) is Append,
            Ok(PersistAppendOutcome::ReplayedExact) => append_plan(events.deep_view(), event@)
                is Replayed,
            Err(e) => append_plan(events.deep_view(), event@) == AppendView::Refused(e@),
        },
{
    let ghost views = events.deep_view();
    match find_durable(events, &event.event_id) {
        Some(i) => {
            assert(views[i as int] == events@[i as int]@);
            if events[i].is_same(event) {
                return Ok(PersistAppendOutcome::ReplayedExact);
            }
            let mut message = "event ID is already durable at sequence ".to_owned();
            message.push_str(decimal_text(events[i].seq).as_str());
            message.push_str(" with different content");
            return Err(
                SessionPersistenceError::Conflict {
                    seq: event.seq,
                    event_id: event.event_id.duplicate(),
                    message,
                },
            );
        },
        None => {},
    }
    let head: u64 = events.len() as u64;
    assert(views.len() == events@.len());
    if event.seq > usize::MAX as u64 {
        let mut message = "sequence cannot address durable head ".to_owned();
        message.push_str(decimal_text(head).as_str());
        return Err(
            SessionPersistenceError::Conflict {
                seq: event.seq,
                event_id: event.event_id.duplicate(),
                message,
            },
        );
    }
    if event.seq == head {
        return Ok(PersistAppendOutcome::Appended);
    }
    if event.seq < head {
        let i: usize = event.seq as usize;
        assert(views[i as int] == events@[i as int]@);
        let mut message = "durable sequence ".to_owned();
        message.push_str(decimal_text(event.seq).as_str());
        message.push_str(" is occupied by event ");
        message.push_str(events[i].event_id.as_str());
        return Err(
            SessionPersistenceError::Conflict {
                seq: event.seq,
                event_id: event.event_id.duplicate(),
                message,
            },
        );
    }
    let mut message = "sequence is not the expected durable head ".to_owned();
    message.push_str(decimal_text(head).as_str());
    Err(
        SessionPersistenceError::Conflict {
            seq: event.seq,
            event_id: event.event_id.duplicate(),
            message,
        },
    )
}

/// What is known about the last append to a session.
#[derive(Debug, PartialEq, Eq)]
pub struct SessionState {
    uncertain: Option<SessionPersistenceError>,
}

impl SessionState {
    /// The failure that leaves the outcome of an append unknown, if any.
    pub closed spec fn view(&self) -> Option<PersistenceErrorView> {
        match self.uncertain {
            Some(e) => Some(e@),
            None => None,
        }
    }

    pub fn new() -> (state: Self)
        ensures
            state@ is None,
    {
        SessionState { uncertain: None }
    }

    /// Nothing is read or written while the outcome of an append is unknown.
    pub fn check(&self) -> (result: Result<(), SessionPersistenceError>)
        ensures
            match result {
                Ok(_) => self@ is None,
                Err(e) => self@ == Some(e@),
            },
    {
        match &self.uncertain {
            Some(e) => Err(e.duplicate()),
            None => Ok(()),
        }
    }

    /// From here on the outcome is unknown, until it is confirmed.
    pub fn begin_commit(&mut self)
        ensures
            final(self)@ == Some(
                PersistenceErrorView::Io {
                    operation: "commit_in_progress"@,
                    message: "durable outcome is unknown until sync_data succeeds"@,
                    certainty: CommitCertainty::Indeterminate,
                },
            ),
    {
        self.uncertain = Some(
            SessionPersistenceError::Io {
                operation: "commit_in_progress",
                message: "durable outcome is unknown until sync_data succeeds".to_owned(),
                certainty: CommitCertainty::Indeterminate,
            },
        );
    }

    /// Writing, flushing or synchronizing failed: the outcome stays unknown.
    pub fn latch_indeterminate(&mut self, operation: &'static str, message: String) -> (failure: SessionPersistenceError)
        ensures
            failure@ == (PersistenceErrorView::Io {
                operation: operation@,
                message: message@,
                certainty: CommitCertainty::Indeterminate,
            }),
            final(self)@ == Some(failure@),
    {
        let failure = SessionPersistenceError::Io {
            operation,
            message,
            certainty: CommitCertainty::Indeterminate,
        };
        self.uncertain = Some(failure.duplicate());
        failure
    }

    /// The append is durable.
    pub fn confirm(&mut self)
        ensures
            final(self)@ is None,
    {
        self.uncertain = None;
    }
}

/// A failure before anything was written.
pub fn not_written(operation: &'static str, message: String) -> (failure: SessionPersistenceError)
    ensures
        failure@ == (PersistenceErrorView::Io {
            operation: operation@,
            message: message@,
            certainty: CommitCertainty::DefinitelyNotCommitted,
        }),
{
    SessionPersistenceError::Io {
        operation,
        message,
        certainty: CommitCertainty::DefinitelyNotCommitted,
    }
}

/// The operations of the log that are under way.
#[derive(Clone, Copy, Debug, PartialEq, Eq, Structural)]
pub struct OperationControl {
    pub stopping: bool,
    pub inflight: usize,
}

impl OperationControl {
    pub fn new() -> (control: Self)
        ensures
            control == (OperationControl { stopping: false, inflight: 0 }),
    {
        OperationControl { stopping: false, inflight: 0 }
    }

    /// Lets an operation in, unless the log is stopping.
    pub fn enter(&mut self) -> (result: Result<(), SessionPersistenceError>)
        requires
            old(self).inflight < usize::MAX,
        ensures
            if old(self).stopping {
                &&& *final(self) == *old(self)
                &&& result matches Err(e)
                &&& e@ == (PersistenceErrorView::Io {
                    operation: "admit_operation"@,
                    message: "JSONL persistence is stopping"@,
                    certainty: CommitCertainty::DefinitelyNotCommitted,
                })
            } else {
                result is Ok && *final(self) == (OperationControl {
                    inflight: (old(self).inflight + 1) as usize,
                    ..*old(self)
                })
            },
    {
        if self.stopping {
            return Err(
                not_written("admit_operation", "JSONL persistence is stopping".to_owned()),
            );
        }
        self.inflight = self.inflight + 1;
        Ok(())
    }

    /// An operation is over. The answer is whether it was the last.
    pub fn release(&mut self) -> (drained: bool)
        requires
            old(self).inflight > 0,
        ensures
            *final(self) == (OperationControl {
                inflight: (old(self).inflight - 1) as usize,
                ..*old(self)
            }),
            drained == (final(self).inflight == 0),
    {
        self.inflight = self.inflight - 1;
        self.inflight == 0
    }

    /// Lets nothing in any more. The answer is whether nothing is under way.
    pub fn stop(&mut self) -> (drained: bool)
        ensures
            *final(self) == (OperationControl { stopping: true, ..*old(self) }),
            drained == (old(self).inflight == 0),
    {
        self.stopping = true;
        self.inflight == 0
    }
}

// ---- what the log keeps ----

proof fn durable_is_there(events: Seq<SessionEventView>, id: Seq<char>, k: int)
    requires
        0 <= k,
    ensures
        match durable_at(events, id, k) {
            Some(i) => k <= i < events.len() && events[i].event_id == id,
            None => forall|i: int| k <= i < events.len() ==> (#[trigger] events[i]).event_id != id,
        },
    decreases events.len() - k,
{
    if k < events.len() {
        durable_is_there(events, id, k + 1);
    }
}

proof fn longer_log(events: Seq<SessionEventView>, event: SessionEventView, session: Seq<char>, k: int)
    requires
        0 <= k <= events.len(),
        log::log_fault_from(events, k, session) is None,
        event.session_id == session,
        event.seq == events.len(),
        forall|i: int| 0 <= i < events.len() ==> (#[trigger] events[i]).event_id != event.event_id,
    ensures
        log::log_fault_from(events.push(event), k, session) is None,
    decreases events.len() - k,
{
    let after = events.push(event);
    if k < events.len() {
        assert(after[k] == events[k]);
        assert(log::event_fault(events, k, session) is None);
        assert(!log::id_repeats(after, k)) by {
            if log::id_repeats(after, k) {
                let j = choose|j: int| 0 <= j < k && (#[trigger] after[j]).event_id == after[k].event_id;
                assert(events[j].event_id == events[k].event_id);
                assert(log::id_repeats(events, k));
            }
        }
        longer_log(events, event, session, k + 1);
    } else {
        assert(!log::id_repeats(after, k)) by {
            if log::id_repeats(after, k) {
                let j = choose|j: int| 0 <= j < k && (#[trigger] after[j]).event_id == after[k].event_id;
                assert(events[j].event_id == event.event_id);
            }
        }
        assert(log::log_fault_from(after, k + 1, session) is None);
    }
}

/// An append that is let through leaves a log in order: every event in its place, none
/// twice. Trying the same append again writes nothing.
pub proof fn appends_keep_the_log(events: Seq<SessionEventView>, event: SessionEventView, session: Seq<char>)
    requires
        log::log_fault(events, session) is None,
        event.session_id == session,
        append_plan(events, event) is Append,
    ensures
        log::log_fault(events.push(event), session) is None,
        append_plan(events.push(event), event) is Replayed,
{
    durable_is_there(events, event.event_id, 0);
    longer_log(events, event, session, 0);
    let after = events.push(event);
    durable_is_there(after, event.event_id, 0);
    assert(after[events.len() as int].event_id == event.event_id);
    let i = durable_at(after, event.event_id, 0)->0;
    if i < events.len() {
        assert(events[i].event_id == event.event_id);
    }
    assert(after[i] == event);
}

} // verus!
