//! The steps of a durable append in their order. From the first byte that is written to
//! the sync that confirms it, the session is blocked; where the sync is never confirmed
//! it stays so.

use crate::session::event::SessionEvent;
use crate::session::jsonl::{
    append_plan, not_written, plan_append, AppendView, CommitCertainty, PersistAppendOutcome,
    PersistenceErrorView, SessionPersistenceError, SessionState,
};
use vstd::prelude::*;

verus! {

/// How far an append has come.
#[derive(Debug, PartialEq, Eq)]
pub enum CommitStage {
    Encoding,
    Reading,
    MakingDirectory,
    Opening,
    Writing,
    Flushing,
    Syncing,
    Over(Result<PersistAppendOutcome, SessionPersistenceError>),
}

/// What came of a step. Failures bring their words along.
#[derive(Debug, PartialEq, Eq)]
pub enum CommitEvent {
    Encoded(Result<(), String>),
    /// The events that the log holds.
    Read(Result<Vec<SessionEvent>, SessionPersistenceError>),
    DirectoryMade(Result<(), String>),
    Opened(Result<(), String>),
    Written(Result<(), String>),
    Flushed(Result<(), String>),
    Synced(Result<(), String>),
}

/// An append on its way.
#[derive(Debug, PartialEq, Eq)]
pub struct CommitMachine {
    pub event: SessionEvent,
    pub stage: CommitStage,
}

impl CommitStage {
    /// Bytes may have been written, and nothing has confirmed them.
    pub open spec fn is_uncertain(self) -> bool {
        self is Writing || self is Flushing || self is Syncing
    }

    pub open spec fn place(self) -> nat {
        match self {
            CommitStage::Encoding => 0,
            CommitStage::Reading => 1,
            CommitStage::MakingDirectory => 2,
            CommitStage::Opening => 3,
            CommitStage::Writing => 4,
            CommitStage::Flushing => 5,
            CommitStage::Syncing => 6,
            CommitStage::Over(_) => 7,
        }
    }
}

/// While bytes are uncertain the session is blocked, and before that an append that goes
/// on has found it free.
pub open spec fn agrees(stage: CommitStage, state: Option<PersistenceErrorView>) -> bool {
    match stage {
        CommitStage::Encoding => true,
        CommitStage::Reading | CommitStage::MakingDirectory | CommitStage::Opening => state is None,
        CommitStage::Writing | CommitStage::Flushing | CommitStage::Syncing => state is Some,
        CommitStage::Over(_) => true,
    }
}

/// The append has failed that way.
pub open spec fn fails(stage: CommitStage, error: PersistenceErrorView) -> bool {
    stage matches CommitStage::Over(Err(e)) && e@ == error
}

pub open spec fn io(operation: Seq<char>, message: Seq<char>, certainty: CommitCertainty) -> PersistenceErrorView {
    PersistenceErrorView::Io { operation, message, certainty }
}

/// A step before anything is written: failing there leaves the session as it was.
pub open spec fn prepares(
    done: Result<(), String>,
    operation: Seq<char>,
    before: Option<PersistenceErrorView>,
    after: Option<PersistenceErrorView>,
    next: CommitStage,
) -> bool {
    done matches Err(words) ==> fails(
        next,
        io(operation, words@, CommitCertainty::DefinitelyNotCommitted),
    ) && after == before
}

/// A step after the first byte: failing there blocks the session with the failure.
pub open spec fn latches(
    done: Result<(), String>,
    operation: Seq<char>,
    after: Option<PersistenceErrorView>,
    next: CommitStage,
) -> bool {
    done matches Err(words) ==> {
        let failure = io(operation, words@, CommitCertainty::Indeterminate);
        fails(next, failure) && after == Some(failure)
    }
}

/// What an append becomes by an event, and the session with it. An event that nobody
/// waits for changes nothing.
pub open spec fn follows(
    m: CommitMachine,
    before: Option<PersistenceErrorView>,
    event: CommitEvent,
    n: CommitMachine,
    after: Option<PersistenceErrorView>,
) -> bool {
    &&& n.event == m.event
    &&& match (m.stage, event) {
        (CommitStage::Encoding, CommitEvent::Encoded(done)) => {
            &&& after == before
            &&& match done {
                Err(words) => fails(
                    n.stage,
                    PersistenceErrorView::Serialization { message: words@ },
                ),
                Ok(_) => match before {
                    Some(error) => fails(n.stage, error),
                    None => n.stage is Reading,
                },
            }
        },
        (CommitStage::Reading, CommitEvent::Read(read)) => {
            &&& after == before
            &&& match read {
                Err(error) => fails(n.stage, error@),
                Ok(events) => match append_plan(events.deep_view(), m.event@) {
                    AppendView::Refused(error) => fails(n.stage, error),
                    AppendView::Replayed => n.stage == CommitStage::Over(
                        Ok(PersistAppendOutcome::ReplayedExact),
                    ),
                    AppendView::Append => n.stage is MakingDirectory,
                },
            }
        },
        (CommitStage::MakingDirectory, CommitEvent::DirectoryMade(done)) => {
            &&& prepares(done, "create_dir_all"@, before, after, n.stage)
            &&& done is Ok ==> n.stage is Opening && after == before
        },
        (CommitStage::Opening, CommitEvent::Opened(done)) => {
            &&& prepares(done, "open_append"@, before, after, n.stage)
            &&& done is Ok ==> n.stage is Writing && after == Some(
                io(
                    "commit_in_progress"@,
                    "durable outcome is unknown until sync_data succeeds"@,
                    CommitCertainty::Indeterminate,
                ),
            )
        },
        (CommitStage::Writing, CommitEvent::Written(done)) => {
            &&& latches(done, "write_all"@, after, n.stage)
            &&& done is Ok ==> n.stage is Flushing && after == before
        },
        (CommitStage::Flushing, CommitEvent::Flushed(done)) => {
            &&& latches(done, "flush"@, after, n.stage)
            &&& done is Ok ==> n.stage is Syncing && after == before
        },
        (CommitStage::Syncing, CommitEvent::Synced(done)) => {
            &&& latches(done, "sync_data"@, after, n.stage)
            &&& done is Ok ==> after is None && n.stage == CommitStage::Over(
                Ok(PersistAppendOutcome::Appended),
            )
        },
        _ => n == m && after == before,
    }
}

/// The event is what the append waits for.
pub open spec fn is_expected(stage: CommitStage, event: CommitEvent) -> bool {
    match (stage, event) {
        (CommitStage::Encoding, CommitEvent::Encoded(_)) => true,
        (CommitStage::Reading, CommitEvent::Read(_)) => true,
        (CommitStage::MakingDirectory, CommitEvent::DirectoryMade(_)) => true,
        (CommitStage::Opening, CommitEvent::Opened(_)) => true,
        (CommitStage::Writing, CommitEvent::Written(_)) => true,
        (CommitStage::Flushing, CommitEvent::Flushed(_)) => true,
        (CommitStage::Syncing, CommitEvent::Synced(_)) => true,
        _ => false,
    }
}

impl CommitMachine {
    pub fn new(event: SessionEvent) -> (machine: Self)
        ensures
            machine == (CommitMachine { event, stage: CommitStage::Encoding }),
    {
        CommitMachine { event, stage: CommitStage::Encoding }
    }

    /// Takes in what came of a step.
    pub fn advance(self, state: &mut SessionState, event: CommitEvent) -> (next: Self)
        requires
            agrees(self.stage, old(state)@),
        ensures
            agrees(next.stage, final(state)@),
            follows(self, old(state)@, event, next, final(state)@),
    {
        let CommitMachine { event: appended, stage } = self;
        let stage = match (stage, event) {
            (CommitStage::Encoding, CommitEvent::Encoded(done)) => match done {
                Err(message) => CommitStage::Over(
                    Err(SessionPersistenceError::Serialization { message }),
                ),
                Ok(_) => match state.check() {
                    Err(error) => CommitStage::Over(Err(error)),
                    Ok(_) => CommitStage::Reading,
                },
            },
            (CommitStage::Reading, CommitEvent::Read(read)) => match read {
                Err(error) => CommitStage::Over(Err(error)),
                Ok(events) => match plan_append(&events, &appended) {
                    Err(error) => CommitStage::Over(Err(error)),
                    Ok(PersistAppendOutcome::ReplayedExact) => CommitStage::Over(
                        Ok(PersistAppendOutcome::ReplayedExact),
                    ),
                    Ok(PersistAppendOutcome::Appended) => CommitStage::MakingDirectory,
                },
            },
            (CommitStage::MakingDirectory, CommitEvent::DirectoryMade(done)) => match done {
                Err(words) => CommitStage::Over(Err(not_written("create_dir_all", words))),
                Ok(_) => CommitStage::Opening,
            },
            (CommitStage::Opening, CommitEvent::Opened(done)) => match done {
                Err(words) => CommitStage::Over(Err(not_written("open_append", words))),
                Ok(_) => {
                    state.begin_commit();
                    CommitStage::Writing
                },
            },
            (CommitStage::Writing, CommitEvent::Written(done)) => match done {
                Err(words) => CommitStage::Over(Err(state.latch_indeterminate("write_all", words))),
                Ok(_) => CommitStage::Flushing,
            },
            (CommitStage::Flushing, CommitEvent::Flushed(done)) => match done {
                Err(words) => CommitStage::Over(Err(state.latch_indeterminate("flush", words))),
                Ok(_) => CommitStage::Syncing,
            },
            (CommitStage::Syncing, CommitEvent::Synced(done)) => match done {
                Err(words) => CommitStage::Over(Err(state.latch_indeterminate("sync_data", words))),
                Ok(_) => {
                    state.confirm();
                    CommitStage::Over(Ok(PersistAppendOutcome::Appended))
                },
            },
            (stage, _) => stage,
        };
        CommitMachine { event: appended, stage }
    }
}

/// An append is reported as done only when the sync confirmed it, and only then is the
/// session free again.
pub proof fn appends_are_confirmed_by_the_sync(
    m: CommitMachine,
    before: Option<PersistenceErrorView>,
    event: CommitEvent,
    n: CommitMachine,
    after: Option<PersistenceErrorView>,
)
    requires
        agrees(m.stage, before),
        follows(m, before, event, n, after),
        !(m.stage is Over),
    ensures
        n.stage == CommitStage::Over(Ok(PersistAppendOutcome::Appended)) ==> m.stage is Syncing && (
        event matches CommitEvent::Synced(Ok(_))) && after is None,
        m.stage.is_uncertain() && n.stage is Over && n.stage->Over_0 is Err ==> after == Some(
            n.stage->Over_0->Err_0@,
        ),
        m.stage.is_uncertain() && after is None ==> n.stage == CommitStage::Over(
            Ok(PersistAppendOutcome::Appended),
        ),
{
}

/// An append that fails before its first byte leaves the session as it found it.
pub proof fn early_failures_change_nothing(
    m: CommitMachine,
    before: Option<PersistenceErrorView>,
    event: CommitEvent,
    n: CommitMachine,
    after: Option<PersistenceErrorView>,
)
    requires
        follows(m, before, event, n, after),
        !m.stage.is_uncertain(),
        n.stage is Over,
    ensures
        after == before,
{
}

/// At most seven steps bring an append to its end.
pub proof fn appends_come_to_an_end(
    m: CommitMachine,
    before: Option<PersistenceErrorView>,
    event: CommitEvent,
    n: CommitMachine,
    after: Option<PersistenceErrorView>,
)
    requires
        follows(m, before, event, n, after),
        is_expected(m.stage, event),
    ensures
        m.stage.place() < n.stage.place() <= 7,
{
}

} // verus!
