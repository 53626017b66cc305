//! Host-only, audited limit increases at confirmed quiescent boundaries.
//!
//! The host loads the latest image, supplies fresh durable history, authenticates the
//! request against its own policy, and exchanges the image that comes back.

use crate::budget::audit;
use crate::budget::audit::{
    validate_increase, validate_request_text, BudgetGrantRecord, BudgetGrantRequest,
    GrantRequestView, GrantView, MAX_BUDGET_GRANTS,
};
use crate::budget::checkpoint;
use crate::budget::checkpoint::{clone_anchor, same_anchor, BudgetCheckpointError, CursorView};
use crate::budget::execution;
use crate::budget::execution::{verify_checkpoint_history, BudgetExecutionError};
use crate::budget::file::{BudgetCheckpointCommit, BudgetCheckpointStoreError};
use crate::budget::sealed;
use crate::budget::sealed::{BudgetCheckpoint, BudgetRestoreContext, CheckpointView};
use crate::budget::vocabulary::{
    BudgetLimits, BudgetReport, BudgetResource, IdentityView, LimitsView, ReportView,
};
use crate::record::Record;
use crate::session::event::{SessionEvent, SessionEventView};
use vstd::prelude::*;

verus! {

#[derive(Debug, PartialEq, Eq)]
pub enum BudgetGrantError {
    Checkpoint(BudgetCheckpointError),
    Boundary(BudgetExecutionError),
    Store(BudgetCheckpointStoreError),
    /// The exchange failed. The same image is to be reconciled, or the same operation
    /// issued again.
    Commit {
        expected_revision: u64,
        checkpoint: Box<BudgetCheckpoint>,
        source: BudgetCheckpointStoreError,
    },
    /// No checkpoint; grants cannot initialize a task.
    Missing,
    /// An unfinished execution or a frozen state requires independent recovery.
    RecoveryRequired,
    Invalid(&'static str),
    /// The operation exists already with different content or source revision.
    OperationConflict,
    /// The bounded audit is full; an explicit retention protocol is required.
    AuditFull,
}

/// What becomes of a request. No variant grants execution authority.
#[allow(inconsistent_fields)]
pub enum BudgetGrantOutcome {
    /// Exchange the image for the loaded revision.
    Apply { checkpoint: BudgetCheckpoint },
    /// The image has been exchanged.
    Applied { checkpoint: Box<BudgetCheckpoint>, commit: BudgetCheckpointCommit },
    /// The same operation was applied earlier; its record is a receipt, not a lease.
    AlreadyApplied { record: BudgetGrantRecord },
}

/// What the host expects of the image, as plain values.
pub struct ExpectationView {
    pub identity: IdentityView,
    pub revision: u64,
    pub anchor: Option<CursorView>,
    pub limits: LimitsView,
}

impl BudgetRestoreContext {
    pub open spec fn view(&self) -> ExpectationView {
        ExpectationView {
            identity: self.identity@,
            revision: self.revision,
            anchor: checkpoint::anchor_view(self.confirmed_anchor),
            limits: self.host_limits@,
        }
    }
}

/// The first grant with the identity of an operation.
pub open spec fn find_operation(grants: Seq<GrantView>, operation: Seq<char>, from: int) -> Option<int>
    decreases grants.len() - from,
{
    if from < 0 || from >= grants.len() {
        None
    } else if grants[from].request.operation == operation {
        Some(from)
    } else {
        find_operation(grants, operation, from + 1)
    }
}

/// The new limits hold everything already consumed, and leave time.
pub open spec fn covers(report: ReportView, limits: LimitsView) -> bool {
    report.active < limits.active && forall|r: BudgetResource|
        report.charged.at(r) <= #[trigger] limits.resources.at(r)
}

/// What becomes of a request.
#[allow(inconsistent_fields)]
pub enum GrantVerdict {
    Refused { error: BudgetGrantError },
    Replayed { record: GrantView },
    Granted { image: CheckpointView },
}

/// The record of a grant on `base`.
pub open spec fn record_on(base: CheckpointView, request: GrantRequestView) -> GrantView {
    GrantView {
        request,
        source_revision: base.image.revision,
        anchor: base.image.anchor,
        old_limits: base.image.report.limits,
        old_stop: base.image.report.stop,
    }
}

/// Why `base` may not be raised to the limits of `request`, if so.
pub open spec fn raise_fault(
    base: CheckpointView,
    expected: ExpectationView,
    history: Seq<SessionEventView>,
    request: GrantRequestView,
) -> Option<BudgetGrantError> {
    let report = base.image.report;
    if base.image.revision != expected.revision {
        Some(
            BudgetGrantError::Checkpoint(
                BudgetCheckpointError::RevisionMismatch {
                    expected: expected.revision,
                    actual: base.image.revision,
                },
            ),
        )
    } else if base.image.anchor != expected.anchor {
        Some(BudgetGrantError::Checkpoint(BudgetCheckpointError::AnchorMismatch))
    } else if !base.is_quiescent() {
        Some(BudgetGrantError::RecoveryRequired)
    } else {
        match execution::history_fault(base, history) {
            Some(fault) => Some(BudgetGrantError::Boundary(fault)),
            None => if base.grants.len() == MAX_BUDGET_GRANTS {
                Some(BudgetGrantError::AuditFull)
            } else {
                match audit::increase_fault(report.limits, request.new_limits, report.stop) {
                    Some(fault) => Some(BudgetGrantError::Invalid(fault)),
                    None => if !request.new_limits.within(expected.limits) {
                        Some(BudgetGrantError::Invalid("new limits exceed the host ceiling"))
                    } else if !covers(report, request.new_limits) {
                        Some(
                            BudgetGrantError::Invalid(
                                "new limits do not cover retained consumption/time",
                            ),
                        )
                    } else if base.image.revision == u64::MAX {
                        Some(BudgetGrantError::Checkpoint(BudgetCheckpointError::RevisionExhausted))
                    } else {
                        None
                    },
                }
            },
        }
    }
}

/// What becomes of a request on what was loaded. A repeated operation is recognised
/// before the present boundary is checked: its record is history and stays visible.
pub open spec fn verdict(
    loaded: Option<CheckpointView>,
    expected: ExpectationView,
    history: Seq<SessionEventView>,
    request: GrantRequestView,
) -> GrantVerdict {
    match loaded {
        None => GrantVerdict::Refused { error: BudgetGrantError::Missing },
        Some(base) => match base.fault() {
            Some(fault) => GrantVerdict::Refused { error: BudgetGrantError::Checkpoint(fault) },
            None => if base.image.report.identity != expected.identity {
                GrantVerdict::Refused {
                    error: BudgetGrantError::Checkpoint(BudgetCheckpointError::IdentityMismatch),
                }
            } else if !request.texts_are_proper() {
                GrantVerdict::Refused {
                    error: BudgetGrantError::Invalid("empty or oversized audit text"),
                }
            } else {
                match find_operation(base.grants, request.operation, 0) {
                    Some(i) => {
                        let record = base.grants[i];
                        if record.request != request || record.source_revision != expected.revision
                            || record.anchor != expected.anchor {
                            GrantVerdict::Refused { error: BudgetGrantError::OperationConflict }
                        } else {
                            GrantVerdict::Replayed { record }
                        }
                    },
                    None => match raise_fault(base, expected, history, request) {
                        Some(error) => GrantVerdict::Refused { error },
                        None => GrantVerdict::Granted {
                            image: base.granted(
                                (base.image.revision + 1) as u64,
                                record_on(base, request),
                            ),
                        },
                    },
                }
            },
        },
    }
}

proof fn operation_absent(grants: Seq<GrantView>, operation: Seq<char>, from: int)
    requires
        0 <= from <= grants.len(),
        find_operation(grants, operation, from) is None,
    ensures
        forall|j: int|
            from <= j < grants.len() ==> (#[trigger] grants[j]).request.operation != operation,
    decreases grants.len() - from,
{
    if from < grants.len() {
        operation_absent(grants, operation, from + 1);
    }
}

/// Accounts of a task with nothing pending stay sound under limits that cover them.
proof fn raised_task_sound(report: ReportView, raised: ReportView, i: int)
    requires
        0 <= i <= 7,
        report.pending.len() == 0,
        checkpoint::task_fault(report, i) is None,
        forall|r: BudgetResource| #[trigger] report.reserved.at(r) == 0,
        covers(report, raised.limits),
        raised == (ReportView { limits: raised.limits, stop: None, ..report }),
    ensures
        checkpoint::task_fault(raised, i) is None,
    decreases 7 - i,
{
    if i < 7 {
        raised_task_sound(report, raised, i + 1);
        let r = BudgetResource::nth(i);
        assert(report.reserved.at(r) == 0);
        assert(report.charged.at(r) <= raised.limits.resources.at(r));
    }
}

/// Each retained grant lies at or before the end of the log, with an earlier revision.
proof fn grants_lie_before(
    grants: Seq<GrantView>,
    n: int,
    revision: u64,
    session: Seq<char>,
    tail: Option<CursorView>,
    i: int,
)
    requires
        0 <= n <= i < grants.len(),
        audit::grants_fault_from(grants, n, revision, session, tail) is None,
    ensures
        audit::grant_fault(grants, i, revision, session, tail) is None,
    decreases i - n,
{
    if n < i {
        grants_lie_before(grants, n + 1, revision, session, tail, i);
    }
}

/// Grants without fault stay so when one more follows and the revision grows.
proof fn grants_stay_sound(
    grants: Seq<GrantView>,
    record: GrantView,
    n: int,
    revision: u64,
    session: Seq<char>,
    tail: Option<CursorView>,
)
    requires
        0 <= n <= grants.len(),
        revision < u64::MAX,
        audit::grants_fault_from(grants, n, revision, session, tail) is None,
        audit::grant_fault(
            grants.push(record),
            grants.len() as int,
            (revision + 1) as u64,
            session,
            tail,
        ) is None,
    ensures
        audit::grants_fault_from(grants.push(record), n, (revision + 1) as u64, session, tail) is None,
    decreases grants.len() - n,
{
    let more = grants.push(record);
    if n < grants.len() {
        grants_stay_sound(grants, record, n + 1, revision, session, tail);
        assert(audit::grant_fault(grants, n, revision, session, tail) is None);
        assert(more[n] == grants[n]);
        if n > 0 {
            assert(more[n - 1] == grants[n - 1]);
        }
        if exists|j: int|
            0 <= j < n && (#[trigger] more[j]).request.operation == more[n].request.operation {
            let j = choose|j: int|
                0 <= j < n && (#[trigger] more[j]).request.operation == more[n].request.operation;
            assert(grants[j].request.operation == grants[n].request.operation);
        }
        assert(audit::grant_fault(more, n, (revision + 1) as u64, session, tail) is None);
    } else {
        assert(audit::grants_fault_from(more, n + 1, (revision + 1) as u64, session, tail) is None);
    }
}

/// Recoveries without fault stay so when the revision grows.
proof fn recoveries_stay_sound(
    recoveries: Seq<audit::RecoveryView>,
    n: int,
    revision: u64,
    next_id: u64,
    identity: IdentityView,
)
    requires
        0 <= n <= recoveries.len(),
        revision < u64::MAX,
        audit::recoveries_fault_from(recoveries, n, revision, next_id, identity) is None,
    ensures
        audit::recoveries_fault_from(
            recoveries,
            n,
            (revision + 1) as u64,
            next_id,
            identity,
        ) is None,
    decreases recoveries.len() - n,
{
    if n < recoveries.len() {
        recoveries_stay_sound(recoveries, n + 1, revision, next_id, identity);
    }
}

/// A grant that is given always passes the check that storage makes against the
/// image it replaces.
pub proof fn granted_images_follow(
    base: CheckpointView,
    expected: ExpectationView,
    history: Seq<SessionEventView>,
    request: GrantRequestView,
)
    requires
        verdict(Some(base), expected, history, request) is Granted,
    ensures
        verdict(Some(base), expected, history, request)->image.fault() is None,
        verdict(Some(base), expected, history, request)->image.transition_fault(Some(base)) is None,
{
    let next = verdict(Some(base), expected, history, request)->image;
    let record = record_on(base, request);
    let report = base.image.report;
    let raised = next.image.report;
    operation_absent(base.grants, request.operation, 0);
    assert forall|r: BudgetResource| #[trigger] report.reserved.at(r) == 0 by {
        assert(report.reserved.at(r) == checkpoint::held(report.pending, r));
    }
    raised_task_sound(report, raised, 0);
    assert forall|r: BudgetResource| #[trigger] raised.reserved.at(r) == checkpoint::held(
        raised.pending,
        r,
    ) by {
        assert(report.reserved.at(r) == checkpoint::held(report.pending, r));
    }
    assert(next.image.fault() is None);
    let n = base.grants.len() as int;
    let session = report.identity.session;
    if n > 0 {
        grants_lie_before(base.grants, 0, base.image.revision, session, base.image.anchor, n - 1);
        assert(next.grants[n - 1] == base.grants[n - 1]);
    }
    assert(next.grants[n] == record);
    if exists|j: int|
        0 <= j < n && (#[trigger] next.grants[j]).request.operation == record.request.operation {
        let j = choose|j: int|
            0 <= j < n && (#[trigger] next.grants[j]).request.operation == record.request.operation;
        assert(base.grants[j].request.operation == request.operation);
    }
    assert(audit::grant_fault(
        next.grants,
        n,
        next.image.revision,
        session,
        next.image.anchor,
    ) is None);
    grants_stay_sound(base.grants, record, 0, base.image.revision, session, base.image.anchor);
    assert forall|i: int| 0 <= i < next.grants.len() - 1 implies !#[trigger] audit::disconnected(
        next.grants,
        i,
    ) by {
        if i < n - 1 {
            assert(!audit::disconnected(base.grants, i));
        } else {
            assert(base.grants.last() == next.grants[i]);
        }
    }
    recoveries_stay_sound(
        base.recoveries,
        0,
        base.image.revision,
        base.image.next_id,
        report.identity,
    );
    assert(next.fault() is None);
    assert(next.grants.take(n) =~= base.grants);
    assert(next.grants.last() == record);
    assert(next.recoveries.take(base.recoveries.len() as int) =~= base.recoveries);
}

/// A grant leaves the account at its log position as it was: what the log confirmed
/// before it, the log still confirms.
pub proof fn grants_keep_the_boundary(
    base: CheckpointView,
    expected: ExpectationView,
    history: Seq<SessionEventView>,
    request: GrantRequestView,
)
    requires
        verdict(Some(base), expected, history, request) is Granted,
    ensures
        ({
            let next = verdict(Some(base), expected, history, request)->image;
            &&& sealed::before_grants(next.image.report, next.grants, next.image.anchor)
                == sealed::before_grants(base.image.report, base.grants, base.image.anchor)
            &&& execution::history_fault(next, history) is None
            &&& next.image.report.charged == base.image.report.charged
            &&& next.image.report.usage == base.image.report.usage
            &&& next.image.next_id == base.image.next_id
        }),
{
    granted_images_follow(base, expected, history, request);
    let next = verdict(Some(base), expected, history, request)->image;
    assert(next.grants.drop_last() =~= base.grants);
    assert(next.grants.last() == record_on(base, request));
    let back = ReportView {
        limits: base.image.report.limits,
        stop: base.image.report.stop,
        ..next.image.report
    };
    assert(back == base.image.report);
}

/// Asking again for what was granted finds the receipt, whatever has changed since
/// in the log or in the host's limits.
pub proof fn grants_are_idempotent(
    base: CheckpointView,
    expected: ExpectationView,
    history: Seq<SessionEventView>,
    request: GrantRequestView,
    later: Seq<SessionEventView>,
    limits: LimitsView,
)
    requires
        verdict(Some(base), expected, history, request) is Granted,
    ensures
        verdict(
            Some(verdict(Some(base), expected, history, request)->image),
            ExpectationView { limits, ..expected },
            later,
            request,
        ) == (GrantVerdict::Replayed { record: record_on(base, request) }),
{
    granted_images_follow(base, expected, history, request);
    let next = verdict(Some(base), expected, history, request)->image;
    operation_absent(base.grants, request.operation, 0);
    find_last(next.grants, request.operation, 0);
}

proof fn find_last(grants: Seq<GrantView>, operation: Seq<char>, from: int)
    requires
        0 <= from < grants.len(),
        grants.last().request.operation == operation,
        forall|j: int|
            0 <= j < grants.len() - 1 ==> (#[trigger] grants[j]).request.operation != operation,
    ensures
        find_operation(grants, operation, from) == Some(grants.len() - 1),
    decreases grants.len() - from,
{
    if from < grants.len() - 1 {
        assert(grants[from].request.operation != operation);
        find_last(grants, operation, from + 1);
    }
}

fn find_grant(grants: &Vec<BudgetGrantRecord>, request: &BudgetGrantRequest) -> (found: Option<usize>)
    ensures
        match found {
            Some(i) => i < grants@.len() && find_operation(
                audit::grant_views(grants@),
                request@.operation,
                0,
            ) == Some(i as int),
            None => find_operation(audit::grant_views(grants@), request@.operation, 0) is None,
        },
{
    let ghost views = audit::grant_views(grants@);
    let mut i: usize = 0;
    while i < grants.len()
        invariant
            i <= grants@.len(),
            views == audit::grant_views(grants@),
            find_operation(views, request@.operation, 0) == find_operation(
                views,
                request@.operation,
                i as int,
            ),
        decreases grants@.len() - i,
    {
        assert(views[i as int] == grants@[i as int]@);
        if grants[i].request.operation_id.is_same(&request.operation_id) {
            return Some(i);
        }
        i = i + 1;
    }
    None
}

fn consumption_covered(report: &BudgetReport, limits: &BudgetLimits) -> (answer: bool)
    ensures
        answer == covers(report@, limits@),
{
    if !report.active_time.shorter_than(&limits.active_time) {
        return false;
    }
    let all = BudgetResource::ALL();
    let mut i: usize = 0;
    while i < 7
        invariant
            i <= 7,
            report@.active < limits@.active,
            forall|j: int| 0 <= j < 7 ==> #[trigger] all@[j] == BudgetResource::nth(j),
            forall|j: int|
                0 <= j < i ==> report.charged.at(#[trigger] BudgetResource::nth(j))
                    <= limits.resources.at(BudgetResource::nth(j)),
        decreases 7 - i,
    {
        let r = all[i];
        assert(all@[i as int] == BudgetResource::nth(i as int));
        if report.charged.get(r) > limits.resources.get(r) {
            assert(report@.charged.at(r) > limits@.resources.at(r));
            return false;
        }
        i = i + 1;
    }
    assert forall|r: BudgetResource| report@.charged.at(r) <= #[trigger] limits@.resources.at(r) by {
        let j = r.place();
        assert(BudgetResource::nth(j) == r);
    }
    true
}

fn check_raise(
    base: &BudgetCheckpoint,
    context: &BudgetRestoreContext,
    history: &Vec<SessionEvent>,
    request: &BudgetGrantRequest,
) -> (result: Result<(), BudgetGrantError>)
    ensures
        match result {
            Ok(_) => raise_fault(base@, context@, history.deep_view(), request@) is None,
            Err(e) => raise_fault(base@, context@, history.deep_view(), request@) == Some(e),
        },
{
    if base.revision != context.revision {
        return Err(
            BudgetGrantError::Checkpoint(
                BudgetCheckpointError::RevisionMismatch {
                    expected: context.revision,
                    actual: base.revision,
                },
            ),
        );
    }
    if !same_anchor(&base.anchor, &context.confirmed_anchor) {
        return Err(BudgetGrantError::Checkpoint(BudgetCheckpointError::AnchorMismatch));
    }
    if !base.is_quiescent() {
        return Err(BudgetGrantError::RecoveryRequired);
    }
    match verify_checkpoint_history(base, history) {
        Err(e) => {
            return Err(BudgetGrantError::Boundary(e));
        },
        Ok(_) => {},
    }
    if base.grants.len() == MAX_BUDGET_GRANTS {
        return Err(BudgetGrantError::AuditFull);
    }
    match validate_increase(&base.report.limits, &request.new_limits, base.report.stop) {
        Err(e) => {
            return Err(BudgetGrantError::Invalid(e));
        },
        Ok(_) => {},
    }
    proof {
        audit::meet_is_old_iff_within(request.new_limits@, context.host_limits@);
        request.new_limits@.meet_laws(context.host_limits@, context.host_limits@);
    }
    if !request.new_limits.tightened_by(context.host_limits).is_same(&request.new_limits) {
        return Err(BudgetGrantError::Invalid("new limits exceed the host ceiling"));
    }
    if !consumption_covered(&base.report, &request.new_limits) {
        return Err(
            BudgetGrantError::Invalid("new limits do not cover retained consumption/time"),
        );
    }
    if base.revision == u64::MAX {
        return Err(BudgetGrantError::Checkpoint(BudgetCheckpointError::RevisionExhausted));
    }
    Ok(())
}

/// What a grant comes to, once the store has answered the exchange of its image for the
/// loaded revision.
pub fn grant_exchanged(
    expected_revision: u64,
    checkpoint: BudgetCheckpoint,
    answer: Result<BudgetCheckpointCommit, BudgetCheckpointStoreError>,
) -> (result: Result<BudgetGrantOutcome, BudgetGrantError>)
    ensures
        result == match answer {
            Ok(commit) => Ok::<BudgetGrantOutcome, BudgetGrantError>(
                BudgetGrantOutcome::Applied { checkpoint: Box::new(checkpoint), commit },
            ),
            Err(source) => Err(
                BudgetGrantError::Commit {
                    expected_revision,
                    checkpoint: Box::new(checkpoint),
                    source,
                },
            ),
        },
{
    match answer {
        Ok(commit) => Ok(
            BudgetGrantOutcome::Applied { checkpoint: Box::new(checkpoint), commit },
        ),
        Err(source) => Err(
            BudgetGrantError::Commit {
                expected_revision,
                checkpoint: Box::new(checkpoint),
                source,
            },
        ),
    }
}

/// Decide one host-approved grant on what was loaded. The host holds writer ownership
/// of the session meanwhile. On uncertainty it keeps the request and asks again; the
/// same operation is recognised.
pub fn grant_budget(
    loaded: Option<&BudgetCheckpoint>,
    context: &BudgetRestoreContext,
    history: &Vec<SessionEvent>,
    request: &BudgetGrantRequest,
) -> (result: Result<BudgetGrantOutcome, BudgetGrantError>)
    ensures
        ({
            let base = match loaded {
                Some(c) => Some(c@),
                None => None,
            };
            match verdict(base, context@, history.deep_view(), request@) {
                GrantVerdict::Refused { error } => result == Err::<
                    BudgetGrantOutcome,
                    BudgetGrantError,
                >(error),
                GrantVerdict::Replayed { record } => result matches Ok(
                    BudgetGrantOutcome::AlreadyApplied { record: r },
                ) && r@ == record,
                GrantVerdict::Granted { image } => result matches Ok(
                    BudgetGrantOutcome::Apply { checkpoint },
                ) && checkpoint@ == image,
            }
        }),
{
    let base = match loaded {
        Some(base) => base,
        None => {
            return Err(BudgetGrantError::Missing);
        },
    };
    match base.validate() {
        Err(e) => {
            return Err(BudgetGrantError::Checkpoint(e));
        },
        Ok(_) => {},
    }
    if !base.report.identity.is_same(&context.identity) {
        return Err(BudgetGrantError::Checkpoint(BudgetCheckpointError::IdentityMismatch));
    }
    match validate_request_text(request) {
        Err(e) => {
            return Err(BudgetGrantError::Invalid(e));
        },
        Ok(_) => {},
    }
    match find_grant(&base.grants, request) {
        Some(i) => {
            let record = &base.grants[i];
            assert(audit::grant_views(base.grants@)[i as int] == record@);
            if !record.request.is_same(request) || record.source_revision != context.revision
                || !same_anchor(&record.confirmed_anchor, &context.confirmed_anchor) {
                return Err(BudgetGrantError::OperationConflict);
            }
            return Ok(BudgetGrantOutcome::AlreadyApplied { record: record.duplicate() });
        },
        None => {},
    }
    match check_raise(base, context, history, request) {
        Err(e) => {
            return Err(e);
        },
        Ok(_) => {},
    }
    let record = BudgetGrantRecord {
        request: request.duplicate(),
        source_revision: base.revision,
        confirmed_anchor: clone_anchor(&base.anchor),
        old_limits: base.report.limits,
        old_stop: base.report.stop,
    };
    assert(record@ == record_on(base@, request@));
    let checkpoint = base.with_grant(base.revision + 1, record);
    proof {
        granted_images_follow(base@, context@, history.deep_view(), request@);
    }
    Ok(BudgetGrantOutcome::Apply { checkpoint })
}

} // verus!
