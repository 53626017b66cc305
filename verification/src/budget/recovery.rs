//! Conservative host recovery: only a retained exact final image can close a claim.

use crate::budget::audit;
use crate::budget::audit::{
    same_grants, same_recoveries, validate_recovery_request, BudgetRecoveryRecord,
    BudgetRecoveryRequest, GrantView, RecoveryRequestView, RecoveryView,
    MAX_BUDGET_AUDIT_TEXT_BYTES, MAX_BUDGET_RECOVERIES,
};
use crate::budget::checkpoint;
use crate::budget::checkpoint::{clone_anchor, same_anchor, BudgetCheckpointError};
use crate::budget::execution;
use crate::budget::execution::{cursor_of, is_terminal, verify_checkpoint_history, BudgetExecutionError};
use crate::budget::file::{BudgetCheckpointCommit, BudgetCheckpointStoreError};
use crate::budget::sealed::{BudgetCheckpoint, BudgetCheckpointVersion, CheckpointView};
use crate::id::SessionId;
use crate::record::Record;
use crate::session::event::{SessionEvent, SessionEventKind, SessionEventView};
use crate::session::log;
use crate::text;
use crate::session::jsonl::SessionPersistenceError;
use vstd::prelude::*;

verus! {

#[derive(Debug, PartialEq, Eq)]
pub enum BudgetRecoveryError {
    Checkpoint(BudgetCheckpointError),
    Store(BudgetCheckpointStoreError),
    /// The history could not be loaded.
    History(SessionPersistenceError),
    Commit { checkpoint: Box<BudgetCheckpoint>, source: BudgetCheckpointStoreError },
    Boundary(BudgetExecutionError),
    Refused(&'static str),
}

pub enum BudgetRecoveryOutcome {
    /// Exchange this image for the loaded one, under the session's ownership.
    Applied(BudgetCheckpoint),
    AlreadyApplied(BudgetRecoveryRecord),
    /// The original exact final candidate was already persisted; no new mutation.
    OriginalCommitted(BudgetCheckpoint),
}

#[derive(Clone, Copy, Debug, PartialEq, Eq, Structural)]
pub enum BudgetRecoveryAssessment {
    Ready,
    /// A claim without new events is not proof of zero work or zero time.
    FrozenNoNewEvents,
    FrozenUnconfirmedWork,
    /// The report lacks an ID watermark; retain the original sealed candidate.
    FrozenClosedTailNeedsCandidate,
}

/// Why a candidate may not be used by an owner at all, if so.
pub open spec fn candidate_fault(
    request: RecoveryRequestView,
    candidate: CheckpointView,
    owner_session: Seq<char>,
    owner: Seq<char>,
) -> Option<BudgetRecoveryError> {
    match request.fault() {
        Some(fault) => Some(BudgetRecoveryError::Refused(fault)),
        None => match candidate.fault() {
            Some(fault) => Some(BudgetRecoveryError::Checkpoint(fault)),
            None => if owner_session != candidate.image.report.identity.session
                || !audit::is_audit_text(owner) {
                Some(BudgetRecoveryError::Refused("ownership identity differs"))
            } else if !candidate.is_quiescent() || request.source_revision + 1
                != candidate.image.revision {
                Some(BudgetRecoveryError::Refused("candidate is not the exact ready successor"))
            } else {
                None
            },
        },
    }
}

/// The first recovery with the identity of an operation.
pub open spec fn find_recovery(recoveries: Seq<RecoveryView>, operation: Seq<char>, from: int) -> Option<
    int,
>
    decreases recoveries.len() - from,
{
    if from < 0 || from >= recoveries.len() {
        None
    } else if recoveries[from].request.operation == operation {
        Some(from)
    } else {
        find_recovery(recoveries, operation, from + 1)
    }
}

/// How many grants, from the first on, were made before `revision`.
pub open spec fn grants_before(grants: Seq<GrantView>, revision: u64, from: int) -> int
    decreases grants.len() - from,
{
    if from < 0 || from >= grants.len() || grants[from].source_revision >= revision {
        from
    } else {
        grants_before(grants, revision, from + 1)
    }
}

/// The `i`th record of `current` is the recovery of `candidate` on `request`.
pub open spec fn records_candidate(
    current: CheckpointView,
    i: int,
    request: RecoveryRequestView,
    candidate: CheckpointView,
) -> bool {
    let record = current.recoveries[i];
    &&& record.request == request
    &&& record.report == candidate.image.report
    &&& record.next_id == candidate.image.next_id
    &&& record.anchor == candidate.image.anchor
    &&& candidate.recoveries == current.recoveries.take(i)
    &&& candidate.grants == current.grants.take(
        grants_before(current.grants, candidate.image.revision, 0),
    )
}

/// What is known before the history of the session is read: an earlier identical
/// recovery, a reason to refuse, or neither.
#[allow(inconsistent_fields)]
pub enum EarlyVerdict {
    Refused { error: BudgetRecoveryError },
    Replayed { record: RecoveryView },
    Open,
}

pub open spec fn early_verdict(
    current: Option<CheckpointView>,
    request: RecoveryRequestView,
    candidate: CheckpointView,
) -> EarlyVerdict {
    match current {
        None => EarlyVerdict::Refused { error: BudgetRecoveryError::Refused("checkpoint missing") },
        Some(current) => match current.fault() {
            Some(fault) => EarlyVerdict::Refused { error: BudgetRecoveryError::Checkpoint(fault) },
            None => match find_recovery(current.recoveries, request.operation, 0) {
                Some(i) => if records_candidate(current, i, request, candidate) {
                    EarlyVerdict::Replayed { record: current.recoveries[i] }
                } else {
                    EarlyVerdict::Refused {
                        error: BudgetRecoveryError::Refused(
                            "operation ID reused with different evidence",
                        ),
                    }
                },
                None => EarlyVerdict::Open,
            },
        },
    }
}

/// The candidate with the audit of its own recovery.
pub open spec fn recovered(
    candidate: CheckpointView,
    request: RecoveryRequestView,
    owner: Seq<char>,
) -> CheckpointView {
    CheckpointView {
        version: BudgetCheckpointVersion::V4,
        recoveries: candidate.recoveries.push(
            RecoveryView {
                request,
                ownership: owner,
                anchor: candidate.image.anchor,
                report: candidate.image.report,
                next_id: candidate.image.next_id,
            },
        ),
        ..candidate
    }
}

/// Why `current` cannot be closed with the candidate under a history, if so.
pub open spec fn close_fault(
    current: CheckpointView,
    request: RecoveryRequestView,
    candidate: CheckpointView,
    owner: Seq<char>,
) -> Option<BudgetRecoveryError> {
    if current.image.revision != request.source_revision || current.execution != Some(
        request.execution,
    ) {
        Some(BudgetRecoveryError::Refused("execution claim changed"))
    } else if current.recoveries.len() >= MAX_BUDGET_RECOVERIES {
        Some(BudgetRecoveryError::Refused("recovery audit full"))
    } else {
        match recovered(candidate, request, owner).transition_fault(Some(current)) {
            Some(fault) => Some(BudgetRecoveryError::Checkpoint(fault)),
            None => None,
        }
    }
}

fn audited(t: &str) -> (answer: bool)
    ensures
        answer == audit::is_audit_text(t@),
{
    text::text_within(t, MAX_BUDGET_AUDIT_TEXT_BYTES)
}

/// The checks of a recovery that need neither storage nor history.
pub fn check_candidate(
    request: &BudgetRecoveryRequest,
    candidate: &BudgetCheckpoint,
    owner_session: &SessionId,
    owner: &str,
) -> (result: Result<(), BudgetRecoveryError>)
    ensures
        match result {
            Ok(_) => candidate_fault(request@, candidate@, owner_session@, owner@) is None,
            Err(e) => candidate_fault(request@, candidate@, owner_session@, owner@) == Some(e),
        },
{
    match validate_recovery_request(request) {
        Err(e) => {
            return Err(BudgetRecoveryError::Refused(e));
        },
        Ok(_) => {},
    }
    match candidate.validate() {
        Err(e) => {
            return Err(BudgetRecoveryError::Checkpoint(e));
        },
        Ok(_) => {},
    }
    if !owner_session.is_same(&candidate.report.identity.session_id) || !audited(owner) {
        return Err(BudgetRecoveryError::Refused("ownership identity differs"));
    }
    let follows: bool = match request.source_revision.checked_add(1) {
        Some(revision) => revision == candidate.revision,
        None => false,
    };
    if !candidate.is_quiescent() || !follows {
        return Err(BudgetRecoveryError::Refused("candidate is not the exact ready successor"));
    }
    Ok(())
}

fn count_grants_before(checkpoint: &BudgetCheckpoint, revision: u64) -> (n: usize)
    ensures
        n <= checkpoint.grants@.len(),
        n == grants_before(checkpoint@.grants, revision, 0),
{
    let ghost views = checkpoint@.grants;
    let mut n: usize = 0;
    while n < checkpoint.grants.len() && checkpoint.grants[n].source_revision < revision
        invariant
            n <= checkpoint.grants@.len(),
            views == audit::grant_views(checkpoint.grants@),
            grants_before(views, revision, 0) == grants_before(views, revision, n as int),
        decreases checkpoint.grants@.len() - n,
    {
        assert(views[n as int] == checkpoint.grants@[n as int]@);
        n = n + 1;
    }
    proof {
        if n < checkpoint.grants@.len() {
            assert(views[n as int] == checkpoint.grants@[n as int]@);
        }
    }
    n
}

fn is_recorded(
    current: &BudgetCheckpoint,
    i: usize,
    request: &BudgetRecoveryRequest,
    candidate: &BudgetCheckpoint,
) -> (answer: bool)
    requires
        i < current.recoveries@.len(),
    ensures
        answer == records_candidate(current@, i as int, request@, candidate@),
{
    let record = &current.recoveries[i];
    assert(current@.recoveries[i as int] == record@);
    let n: usize = count_grants_before(current, candidate.revision);
    let audits: bool = candidate.recoveries.len() == i && same_recoveries(
        &candidate.recoveries,
        &current.recoveries,
        i,
    );
    let grants: bool = candidate.grants.len() == n && same_grants(
        &candidate.grants,
        &current.grants,
        n,
    );
    proof {
        let c = candidate@;
        assert(c.recoveries.take(c.recoveries.len() as int) =~= c.recoveries);
        assert(c.grants.take(c.grants.len() as int) =~= c.grants);
        assert(current@.recoveries.take(i as int).len() == i);
        assert(current@.grants.take(n as int).len() == n);
    }
    record.request.is_same(request) && record.candidate_report.is_same(&candidate.report)
        && record.candidate_next_id == candidate.next_id && same_anchor(
        &record.confirmed_anchor,
        &candidate.anchor,
    ) && audits && grants
}

/// Whether the loaded image already records this recovery.
pub fn recall_recovery(
    loaded: Option<&BudgetCheckpoint>,
    request: &BudgetRecoveryRequest,
    candidate: &BudgetCheckpoint,
) -> (result: Result<Option<BudgetRecoveryRecord>, BudgetRecoveryError>)
    ensures
        ({
            let stored = match loaded {
                Some(c) => Some(c@),
                None => None,
            };
            match early_verdict(stored, request@, candidate@) {
                EarlyVerdict::Refused { error } => result == Err::<
                    Option<BudgetRecoveryRecord>,
                    BudgetRecoveryError,
                >(error),
                EarlyVerdict::Replayed { record } => result matches Ok(Some(r)) && r@ == record,
                EarlyVerdict::Open => result == Ok::<
                    Option<BudgetRecoveryRecord>,
                    BudgetRecoveryError,
                >(None),
            }
        }),
{
    let current = match loaded {
        Some(current) => current,
        None => {
            return Err(BudgetRecoveryError::Refused("checkpoint missing"));
        },
    };
    match current.validate() {
        Err(e) => {
            return Err(BudgetRecoveryError::Checkpoint(e));
        },
        Ok(_) => {},
    }
    let ghost views = current@.recoveries;
    let mut i: usize = 0;
    while i < current.recoveries.len()
        invariant
            i <= current.recoveries@.len(),
            loaded == Some(current),
            views == audit::recovery_views(current.recoveries@),
            views == current@.recoveries,
            current@.fault() is None,
            early_verdict(Some(current@), request@, candidate@) == match find_recovery(
                views,
                request@.operation,
                i as int,
            ) {
                Some(k) => if records_candidate(current@, k, request@, candidate@) {
                    EarlyVerdict::Replayed { record: views[k] }
                } else {
                    EarlyVerdict::Refused {
                        error: BudgetRecoveryError::Refused(
                            "operation ID reused with different evidence",
                        ),
                    }
                },
                None => EarlyVerdict::Open,
            },
        decreases current.recoveries@.len() - i,
    {
        assert(views[i as int] == current.recoveries@[i as int]@);
        if current.recoveries[i].request.operation_id.is_same(&request.operation_id) {
            if !is_recorded(current, i, request, candidate) {
                return Err(
                    BudgetRecoveryError::Refused("operation ID reused with different evidence"),
                );
            }
            return Ok(Some(current.recoveries[i].duplicate()));
        }
        i = i + 1;
    }
    Ok(None)
}

/// Close the claim of `current` with the retained candidate, once the history of the
/// session confirms it. The candidate comes from the original failed exchange and is
/// never reconstructed from a report, which lacks the ledger's ID watermark.
pub fn recover_budget_candidate(
    current: &BudgetCheckpoint,
    request: &BudgetRecoveryRequest,
    candidate: &BudgetCheckpoint,
    owner: &str,
    history: &Vec<SessionEvent>,
) -> (result: Result<BudgetRecoveryOutcome, BudgetRecoveryError>)
    ensures
        match execution::history_fault(candidate@, history.deep_view()) {
            Some(fault) => result == Err::<BudgetRecoveryOutcome, BudgetRecoveryError>(
                BudgetRecoveryError::Boundary(fault),
            ),
            None => if current@ == candidate@ {
                result matches Ok(BudgetRecoveryOutcome::OriginalCommitted(image)) && image@
                    == current@
            } else {
                match close_fault(current@, request@, candidate@, owner@) {
                    Some(fault) => result == Err::<BudgetRecoveryOutcome, BudgetRecoveryError>(
                        fault,
                    ),
                    None => result matches Ok(BudgetRecoveryOutcome::Applied(image)) && image@
                        == recovered(candidate@, request@, owner@),
                }
            },
        },
{
    match verify_checkpoint_history(candidate, history) {
        Err(e) => {
            return Err(BudgetRecoveryError::Boundary(e));
        },
        Ok(_) => {},
    }
    if current.is_same(candidate) {
        return Ok(BudgetRecoveryOutcome::OriginalCommitted(current.duplicate()));
    }
    let claimed: bool = match &current.execution_id {
        Some(id) => id.is_same(&request.execution_id),
        None => false,
    };
    if current.revision != request.source_revision || !claimed {
        return Err(BudgetRecoveryError::Refused("execution claim changed"));
    }
    if current.recoveries.len() >= MAX_BUDGET_RECOVERIES {
        return Err(BudgetRecoveryError::Refused("recovery audit full"));
    }
    let mut image = candidate.duplicate();
    image.version = BudgetCheckpointVersion::V4;
    let record = BudgetRecoveryRecord {
        request: request.duplicate(),
        ownership_id: owner.to_owned(),
        confirmed_anchor: clone_anchor(&candidate.anchor),
        candidate_report: candidate.report.clone(),
        candidate_next_id: candidate.next_id,
    };
    let ghost before = image.recoveries@;
    image.recoveries.push(record);
    assert(audit::recovery_views(image.recoveries@) =~= audit::recovery_views(before).push(record@));
    match image.validate_transition(Some(current)) {
        Err(e) => Err(BudgetRecoveryError::Checkpoint(e)),
        Ok(_) => Ok(BudgetRecoveryOutcome::Applied(image)),
    }
}

/// What a recovery comes to, once the store has answered the exchange of its image.
pub fn recovery_exchanged(
    image: BudgetCheckpoint,
    answer: Result<BudgetCheckpointCommit, BudgetCheckpointStoreError>,
) -> (result: Result<BudgetRecoveryOutcome, BudgetRecoveryError>)
    ensures
        result == match answer {
            Ok(_) => Ok::<BudgetRecoveryOutcome, BudgetRecoveryError>(
                BudgetRecoveryOutcome::Applied(image),
            ),
            Err(source) => Err(
                BudgetRecoveryError::Commit { checkpoint: Box::new(image), source },
            ),
        },
{
    match answer {
        Ok(_) => Ok(BudgetRecoveryOutcome::Applied(image)),
        Err(source) => Err(BudgetRecoveryError::Commit { checkpoint: Box::new(image), source }),
    }
}

/// How far a claimed or frozen task can be trusted.
pub open spec fn assessment(c: CheckpointView, history: Seq<SessionEventView>) -> Result<
    BudgetRecoveryAssessment,
    BudgetRecoveryError,
> {
    if c.is_quiescent() {
        match execution::history_fault(c, history) {
            Some(fault) => Err(BudgetRecoveryError::Boundary(fault)),
            None => Ok(BudgetRecoveryAssessment::Ready),
        }
    } else if c.image.anchor == if history.len() == 0 {
        None
    } else {
        Some(history.last().cursor())
    } {
        Ok(BudgetRecoveryAssessment::FrozenNoNewEvents)
    } else if history.len() >= 2 && history[history.len() - 2].kind is TaskRunReport
        && history.last().is_terminal() {
        Ok(BudgetRecoveryAssessment::FrozenClosedTailNeedsCandidate)
    } else {
        Ok(BudgetRecoveryAssessment::FrozenUnconfirmedWork)
    }
}

pub fn inspect_budget_recovery(
    checkpoint: &BudgetCheckpoint,
    owner_session: &SessionId,
    history: &Vec<SessionEvent>,
) -> (result: Result<BudgetRecoveryAssessment, BudgetRecoveryError>)
    ensures
        result == match checkpoint@.fault() {
            Some(fault) => Err::<BudgetRecoveryAssessment, BudgetRecoveryError>(
                BudgetRecoveryError::Checkpoint(fault),
            ),
            None => if owner_session@ != checkpoint@.image.report.identity.session {
                Err(BudgetRecoveryError::Refused("ownership identity differs"))
            } else if log::log_fault(history.deep_view(), owner_session@) is Some {
                Err(BudgetRecoveryError::Refused("invalid physical history"))
            } else {
                assessment(checkpoint@, history.deep_view())
            },
        },
{
    match checkpoint.validate() {
        Err(e) => {
            return Err(BudgetRecoveryError::Checkpoint(e));
        },
        Ok(_) => {},
    }
    if !owner_session.is_same(&checkpoint.report.identity.session_id) {
        return Err(BudgetRecoveryError::Refused("ownership identity differs"));
    }
    if log::validate_physical_log(owner_session, history).is_err() {
        return Err(BudgetRecoveryError::Refused("invalid physical history"));
    }
    if checkpoint.is_quiescent() {
        return match verify_checkpoint_history(checkpoint, history) {
            Err(e) => Err(BudgetRecoveryError::Boundary(e)),
            Ok(_) => Ok(BudgetRecoveryAssessment::Ready),
        };
    }
    let ghost views = history.deep_view();
    let n: usize = history.len();
    let tail = if n == 0 {
        None
    } else {
        assert(views.last() == history@[n - 1]@);
        Some(cursor_of(&history[n - 1]))
    };
    if same_anchor(&tail, &checkpoint.anchor) {
        return Ok(BudgetRecoveryAssessment::FrozenNoNewEvents);
    }
    if n >= 2 {
        assert(views[n - 2] == history@[n - 2]@);
        assert(views.last() == history@[n - 1]@);
        let reported: bool = match &history[n - 2].kind {
            SessionEventKind::TaskRunReport { .. } => true,
            _ => false,
        };
        if reported && is_terminal(&history[n - 1]) {
            return Ok(BudgetRecoveryAssessment::FrozenClosedTailNeedsCandidate);
        }
    }
    Ok(BudgetRecoveryAssessment::FrozenUnconfirmedWork)
}

} // verus!
