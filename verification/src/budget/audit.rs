//! Audited limit increases and recoveries, kept in the image they changed.

use crate::budget::checkpoint;
use crate::budget::checkpoint::{
    clone_anchor, same_anchor, BudgetCheckpointError, BudgetEventCursor, CursorView,
};
use crate::budget::vocabulary::{
    same_stop, BudgetLimits, BudgetReport, BudgetResource, BudgetStopReason, IdentityView,
    LimitsView, ReportView,
};
use crate::id::{BudgetExecutionId, BudgetOperationId, SessionId};
use crate::record::Record;
use crate::text;
use vstd::prelude::*;

verus! {

/// Finite lifetime audit retention. Exhaustion fails closed; no implicit pruning.
pub const MAX_BUDGET_GRANTS: usize = 64;

pub const MAX_BUDGET_RECOVERIES: usize = 16;

/// UTF-8 byte bound for each operation ID, actor, source and reason.
pub const MAX_BUDGET_AUDIT_TEXT_BYTES: usize = 1024;

/// Supplied by an authenticated host, never by agent, model or tool output. Actor and
/// source are provenance labels, not authentication or authorization by themselves.
#[derive(Debug, PartialEq, Eq)]
pub struct BudgetGrantRequest {
    pub operation_id: BudgetOperationId,
    pub actor: String,
    pub source: String,
    pub reason: String,
    /// Absolute new limits, not an additive delta (safe to retry unchanged).
    pub new_limits: BudgetLimits,
}

/// Committed in the same image as the limit change, then retained unchanged.
#[derive(Debug, PartialEq, Eq)]
pub struct BudgetGrantRecord {
    pub request: BudgetGrantRequest,
    pub source_revision: u64,
    pub confirmed_anchor: Option<BudgetEventCursor>,
    pub old_limits: BudgetLimits,
    pub old_stop: Option<BudgetStopReason>,
}

#[derive(Debug, PartialEq, Eq)]
pub struct BudgetRecoveryRequest {
    pub operation_id: BudgetOperationId,
    pub execution_id: BudgetExecutionId,
    pub source_revision: u64,
    pub actor: String,
    pub source: String,
    pub reason: String,
}

/// Exact candidate evidence, including the otherwise unrecoverable ID watermark.
#[derive(Debug, PartialEq, Eq)]
pub struct BudgetRecoveryRecord {
    pub request: BudgetRecoveryRequest,
    pub ownership_id: String,
    pub confirmed_anchor: Option<BudgetEventCursor>,
    pub candidate_report: BudgetReport,
    pub candidate_next_id: u64,
}

pub struct GrantRequestView {
    pub operation: Seq<char>,
    pub actor: Seq<char>,
    pub source: Seq<char>,
    pub reason: Seq<char>,
    pub new_limits: LimitsView,
}

pub struct GrantView {
    pub request: GrantRequestView,
    pub source_revision: u64,
    pub anchor: Option<CursorView>,
    pub old_limits: LimitsView,
    pub old_stop: Option<BudgetStopReason>,
}

pub struct RecoveryRequestView {
    pub operation: Seq<char>,
    pub execution: Seq<char>,
    pub source_revision: u64,
    pub actor: Seq<char>,
    pub source: Seq<char>,
    pub reason: Seq<char>,
}

pub struct RecoveryView {
    pub request: RecoveryRequestView,
    pub ownership: Seq<char>,
    pub anchor: Option<CursorView>,
    pub report: ReportView,
    pub next_id: u64,
}

impl BudgetGrantRequest {
    pub open spec fn view(&self) -> GrantRequestView {
        GrantRequestView {
            operation: self.operation_id@,
            actor: self.actor@,
            source: self.source@,
            reason: self.reason@,
            new_limits: self.new_limits@,
        }
    }
}

impl BudgetGrantRecord {
    pub open spec fn view(&self) -> GrantView {
        GrantView {
            request: self.request@,
            source_revision: self.source_revision,
            anchor: checkpoint::anchor_view(self.confirmed_anchor),
            old_limits: self.old_limits@,
            old_stop: self.old_stop,
        }
    }
}

impl BudgetRecoveryRequest {
    pub open spec fn view(&self) -> RecoveryRequestView {
        RecoveryRequestView {
            operation: self.operation_id@,
            execution: self.execution_id@,
            source_revision: self.source_revision,
            actor: self.actor@,
            source: self.source@,
            reason: self.reason@,
        }
    }
}

impl BudgetRecoveryRecord {
    pub open spec fn view(&self) -> RecoveryView {
        RecoveryView {
            request: self.request@,
            ownership: self.ownership_id@,
            anchor: checkpoint::anchor_view(self.confirmed_anchor),
            report: self.candidate_report@,
            next_id: self.candidate_next_id,
        }
    }
}

impl DeepView for BudgetGrantRequest {
    type V = GrantRequestView;

    open spec fn deep_view(&self) -> GrantRequestView {
        self@
    }
}

impl Record for BudgetGrantRequest {
    fn is_same(&self, other: &Self) -> (answer: bool) {
        self.operation_id.is_same(&other.operation_id) && self.actor.is_same(&other.actor)
            && self.source.is_same(&other.source) && self.reason.is_same(&other.reason)
            && self.new_limits.is_same(&other.new_limits)
    }

    fn duplicate(&self) -> (copy: Self) {
        BudgetGrantRequest {
            operation_id: self.operation_id.clone(),
            actor: self.actor.clone(),
            source: self.source.clone(),
            reason: self.reason.clone(),
            new_limits: self.new_limits,
        }
    }
}

impl DeepView for BudgetGrantRecord {
    type V = GrantView;

    open spec fn deep_view(&self) -> GrantView {
        self@
    }
}

impl Record for BudgetGrantRecord {
    fn is_same(&self, other: &Self) -> (answer: bool) {
        self.request.is_same(&other.request) && self.source_revision == other.source_revision
            && same_anchor(&self.confirmed_anchor, &other.confirmed_anchor)
            && self.old_limits.is_same(&other.old_limits) && same_stop(
            &self.old_stop,
            &other.old_stop,
        )
    }

    fn duplicate(&self) -> (copy: Self) {
        BudgetGrantRecord {
            request: self.request.duplicate(),
            source_revision: self.source_revision,
            confirmed_anchor: clone_anchor(&self.confirmed_anchor),
            old_limits: self.old_limits,
            old_stop: self.old_stop,
        }
    }
}

impl DeepView for BudgetRecoveryRequest {
    type V = RecoveryRequestView;

    open spec fn deep_view(&self) -> RecoveryRequestView {
        self@
    }
}

impl Record for BudgetRecoveryRequest {
    fn is_same(&self, other: &Self) -> (answer: bool) {
        self.operation_id.is_same(&other.operation_id) && self.execution_id.is_same(
            &other.execution_id,
        ) && self.source_revision == other.source_revision && self.actor.is_same(&other.actor)
            && self.source.is_same(&other.source) && self.reason.is_same(&other.reason)
    }

    fn duplicate(&self) -> (copy: Self) {
        BudgetRecoveryRequest {
            operation_id: self.operation_id.clone(),
            execution_id: self.execution_id.clone(),
            source_revision: self.source_revision,
            actor: self.actor.clone(),
            source: self.source.clone(),
            reason: self.reason.clone(),
        }
    }
}

impl DeepView for BudgetRecoveryRecord {
    type V = RecoveryView;

    open spec fn deep_view(&self) -> RecoveryView {
        self@
    }
}

impl Record for BudgetRecoveryRecord {
    fn is_same(&self, other: &Self) -> (answer: bool) {
        self.request.is_same(&other.request) && self.ownership_id.is_same(&other.ownership_id)
            && same_anchor(&self.confirmed_anchor, &other.confirmed_anchor)
            && self.candidate_report.is_same(&other.candidate_report) && self.candidate_next_id
            == other.candidate_next_id
    }

    fn duplicate(&self) -> (copy: Self) {
        BudgetRecoveryRecord {
            request: self.request.duplicate(),
            ownership_id: self.ownership_id.clone(),
            confirmed_anchor: clone_anchor(&self.confirmed_anchor),
            candidate_report: self.candidate_report.clone(),
            candidate_next_id: self.candidate_next_id,
        }
    }
}

/// The audited increases that an image retains.
pub open spec fn grant_views(grants: Seq<BudgetGrantRecord>) -> Seq<GrantView> {
    grants.map_values(|g: BudgetGrantRecord| g@)
}

pub open spec fn recovery_views(recoveries: Seq<BudgetRecoveryRecord>) -> Seq<RecoveryView> {
    recoveries.map_values(|r: BudgetRecoveryRecord| r@)
}

pub(crate) fn clone_grants(grants: &Vec<BudgetGrantRecord>) -> (copy: Vec<BudgetGrantRecord>)
    ensures
        grant_views(copy@) == grant_views(grants@),
{
    let copy = grants.duplicate();
    assert(grant_views(copy@) =~= copy.deep_view());
    assert(grant_views(grants@) =~= grants.deep_view());
    copy
}

pub(crate) fn clone_recoveries(recoveries: &Vec<BudgetRecoveryRecord>) -> (copy: Vec<
    BudgetRecoveryRecord,
>)
    ensures
        recovery_views(copy@) == recovery_views(recoveries@),
{
    let copy = recoveries.duplicate();
    assert(recovery_views(copy@) =~= copy.deep_view());
    assert(recovery_views(recoveries@) =~= recoveries.deep_view());
    copy
}

/// Whether the first `n` grants of both lists say the same.
pub(crate) fn same_grants(
    left: &Vec<BudgetGrantRecord>,
    right: &Vec<BudgetGrantRecord>,
    n: usize,
) -> (answer: bool)
    requires
        n <= left@.len(),
        n <= right@.len(),
    ensures
        answer == (grant_views(left@).take(n as int) == grant_views(right@).take(n as int)),
{
    let mut i: usize = 0;
    while i < n
        invariant
            i <= n <= left@.len(),
            n <= right@.len(),
            forall|j: int| 0 <= j < i ==> (#[trigger] left@[j])@ == right@[j]@,
        decreases n - i,
    {
        if !left[i].is_same(&right[i]) {
            assert(grant_views(left@).take(n as int)[i as int] != grant_views(right@).take(
                n as int,
            )[i as int]);
            return false;
        }
        i = i + 1;
    }
    assert(grant_views(left@).take(n as int) =~= grant_views(right@).take(n as int));
    true
}

/// Whether the first `n` recoveries of both lists say the same.
pub(crate) fn same_recoveries(
    left: &Vec<BudgetRecoveryRecord>,
    right: &Vec<BudgetRecoveryRecord>,
    n: usize,
) -> (answer: bool)
    requires
        n <= left@.len(),
        n <= right@.len(),
    ensures
        answer == (recovery_views(left@).take(n as int) == recovery_views(right@).take(n as int)),
{
    let mut i: usize = 0;
    while i < n
        invariant
            i <= n <= left@.len(),
            n <= right@.len(),
            forall|j: int| 0 <= j < i ==> (#[trigger] left@[j])@ == right@[j]@,
        decreases n - i,
    {
        if !left[i].is_same(&right[i]) {
            assert(recovery_views(left@).take(n as int)[i as int] != recovery_views(right@).take(
                n as int,
            )[i as int]);
            return false;
        }
        i = i + 1;
    }
    assert(recovery_views(left@).take(n as int) =~= recovery_views(right@).take(n as int));
    true
}

/// Audit text says something within its bound.
pub open spec fn is_audit_text(t: Seq<char>) -> bool {
    text::is_bounded_text(t, MAX_BUDGET_AUDIT_TEXT_BYTES as nat)
}

impl GrantRequestView {
    pub open spec fn texts_are_proper(self) -> bool {
        is_audit_text(self.operation) && is_audit_text(self.actor) && is_audit_text(self.source)
            && is_audit_text(self.reason)
    }
}

impl RecoveryRequestView {
    pub open spec fn texts_are_proper(self) -> bool {
        is_audit_text(self.operation) && is_audit_text(self.execution) && is_audit_text(self.actor)
            && is_audit_text(self.source) && is_audit_text(self.reason)
    }

    /// What is wrong with a recovery request, if anything.
    pub open spec fn fault(self) -> Option<&'static str> {
        if !self.texts_are_proper() {
            Some("empty or oversized recovery audit")
        } else if self.source_revision == 0 {
            Some("zero recovery revision")
        } else {
            None
        }
    }
}

fn audit_text(t: &str) -> (answer: bool)
    ensures
        answer == is_audit_text(t@),
{
    text::text_within(t, MAX_BUDGET_AUDIT_TEXT_BYTES)
}

pub fn validate_request_text(request: &BudgetGrantRequest) -> (result: Result<(), &'static str>)
    ensures
        match result {
            Ok(_) => request@.texts_are_proper(),
            Err(e) => !request@.texts_are_proper() && e == "empty or oversized audit text",
        },
{
    if audit_text(request.operation_id.as_str()) && audit_text(request.actor.as_str())
        && audit_text(request.source.as_str()) && audit_text(request.reason.as_str()) {
        Ok(())
    } else {
        Err("empty or oversized audit text")
    }
}

pub fn validate_recovery_request(request: &BudgetRecoveryRequest) -> (result: Result<
    (),
    &'static str,
>)
    ensures
        match result {
            Ok(_) => request@.fault() is None,
            Err(e) => request@.fault() == Some(e),
        },
{
    if !(audit_text(request.operation_id.as_str()) && audit_text(request.execution_id.as_str())
        && audit_text(request.actor.as_str()) && audit_text(request.source.as_str()) && audit_text(
        request.reason.as_str(),
    )) {
        return Err("empty or oversized recovery audit");
    }
    if request.source_revision == 0 {
        return Err("zero recovery revision");
    }
    Ok(())
}

/// Why limits may not be raised from `old` to `new` over `stop`, if so. Only a stop
/// for want of what the increase adds can be lifted.
pub open spec fn increase_fault(
    old: LimitsView,
    new: LimitsView,
    stop: Option<BudgetStopReason>,
) -> Option<&'static str> {
    if old == new || !old.within(new) {
        Some("grant must increase at least one limit and decrease none")
    } else {
        let lifted = match stop {
            None => true,
            Some(BudgetStopReason::ResourceLimit(r)) => new.resources.at(r) > old.resources.at(r),
            Some(BudgetStopReason::ActiveTime) => new.active > old.active,
            _ => false,
        };
        if lifted {
            None
        } else {
            Some("grant cannot clear this stop or does not increase the stopped resource")
        }
    }
}

/// Tightening by the old limits gives them back exactly where none was lowered.
pub proof fn meet_is_old_iff_within(old: LimitsView, new: LimitsView)
    ensures
        new.meet(old) == old <==> old.within(new),
{
    if new.meet(old) == old {
        assert forall|r: BudgetResource| old.resources.at(r) <= #[trigger] new.resources.at(r) by {
            assert(new.meet(old).resources.at(r) == old.resources.at(r));
        }
    }
    if old.within(new) {
        assert forall|r: BudgetResource| new.meet(old).resources.at(r)
            == #[trigger] old.resources.at(r) by {
            assert(old.resources.at(r) <= new.resources.at(r));
        }
        new.meet(old).resources.equal_by_resource(old.resources);
    }
}

pub fn validate_increase(
    old_limits: &BudgetLimits,
    new_limits: &BudgetLimits,
    stop: Option<BudgetStopReason>,
) -> (result: Result<(), &'static str>)
    ensures
        match result {
            Ok(_) => increase_fault(old_limits@, new_limits@, stop) is None,
            Err(e) => increase_fault(old_limits@, new_limits@, stop) == Some(e),
        },
{
    proof {
        meet_is_old_iff_within(old_limits@, new_limits@);
    }
    if old_limits.is_same(new_limits) || !new_limits.tightened_by(*old_limits).is_same(old_limits) {
        return Err("grant must increase at least one limit and decrease none");
    }
    let lifted: bool = match stop {
        None => true,
        Some(BudgetStopReason::ResourceLimit(r)) => new_limits.resources.get(r)
            > old_limits.resources.get(r),
        Some(BudgetStopReason::ActiveTime) => old_limits.active_time.shorter_than(
            &new_limits.active_time,
        ),
        _ => false,
    };
    if lifted {
        Ok(())
    } else {
        Err("grant cannot clear this stop or does not increase the stopped resource")
    }
}

/// A cursor that lies before `tail`, or at it.
pub open spec fn lies_at_or_before(anchor: CursorView, tail: CursorView) -> bool {
    anchor.seq < tail.seq || anchor == tail
}

/// The first fault of the `n`th grant record by itself and against the one before.
pub open spec fn grant_fault(
    grants: Seq<GrantView>,
    n: int,
    revision: u64,
    session: Seq<char>,
    tail: Option<CursorView>,
) -> Option<BudgetCheckpointError> {
    let record = grants[n];
    let earlier = if n == 0 {
        0
    } else {
        grants[n - 1].source_revision
    };
    let before = if n == 0 {
        None
    } else {
        grants[n - 1].anchor
    };
    if !record.request.texts_are_proper() {
        Some(BudgetCheckpointError::Invalid("empty or oversized audit text"))
    } else {
        match increase_fault(record.old_limits, record.request.new_limits, record.old_stop) {
            Some(fault) => Some(BudgetCheckpointError::Invalid(fault)),
            None => if record.source_revision <= earlier || record.source_revision >= revision || (
            exists|j: int|
                0 <= j < n && (#[trigger] grants[j]).request.operation
                    == record.request.operation) {
                Some(
                    BudgetCheckpointError::Invalid(
                        "invalid grant revision or duplicate operation ID",
                    ),
                )
            } else {
                match record.anchor {
                    Some(anchor) => if anchor.session != session || text::is_blank(anchor.event)
                        || text::is_blank(anchor.turn) || tail is None || !lies_at_or_before(
                        anchor,
                        tail->0,
                    ) || (before is Some && !lies_at_or_before(before->0, anchor)) {
                        Some(BudgetCheckpointError::Invalid("invalid grant log anchor"))
                    } else {
                        None
                    },
                    None => if before is Some {
                        Some(BudgetCheckpointError::Invalid("grant log anchor moved backwards"))
                    } else {
                        None
                    },
                }
            },
        }
    }
}

/// The first fault among the grants from the `n`th on.
pub open spec fn grants_fault_from(
    grants: Seq<GrantView>,
    n: int,
    revision: u64,
    session: Seq<char>,
    tail: Option<CursorView>,
) -> Option<BudgetCheckpointError>
    decreases grants.len() - n,
{
    if n < 0 || n >= grants.len() {
        None
    } else {
        match grant_fault(grants, n, revision, session, tail) {
            Some(fault) => Some(fault),
            None => grants_fault_from(grants, n + 1, revision, session, tail),
        }
    }
}

/// Two grants at one log position must connect.
pub open spec fn disconnected(grants: Seq<GrantView>, i: int) -> bool {
    grants[i].anchor == grants[i + 1].anchor && (grants[i].request.new_limits
        != grants[i + 1].old_limits || grants[i + 1].old_stop is Some)
}

/// The first fault of the retained grants, if any.
pub open spec fn grants_fault(
    grants: Seq<GrantView>,
    version_holds: bool,
    revision: u64,
    session: Seq<char>,
    tail: Option<CursorView>,
) -> Option<BudgetCheckpointError> {
    if (grants.len() > 0 && !version_holds) || grants.len() > MAX_BUDGET_GRANTS {
        Some(BudgetCheckpointError::Invalid("invalid grant version or count"))
    } else {
        match grants_fault_from(grants, 0, revision, session, tail) {
            Some(fault) => Some(fault),
            None => if exists|i: int|
                0 <= i < grants.len() - 1 && #[trigger] disconnected(grants, i) {
                Some(BudgetCheckpointError::Invalid("discontinuous grants at the same boundary"))
            } else {
                None
            },
        }
    }
}

fn at_or_before(anchor: &BudgetEventCursor, tail: &BudgetEventCursor) -> (answer: bool)
    ensures
        answer == lies_at_or_before(anchor@, tail@),
{
    anchor.seq < tail.seq || anchor.is_same(tail)
}

fn validate_grant(
    grants: &Vec<BudgetGrantRecord>,
    n: usize,
    revision: u64,
    session: &SessionId,
    tail: &Option<BudgetEventCursor>,
) -> (result: Result<(), BudgetCheckpointError>)
    requires
        n < grants@.len(),
    ensures
        match result {
            Ok(_) => grant_fault(
                grant_views(grants@),
                n as int,
                revision,
                session@,
                checkpoint::anchor_view(*tail),
            ) is None,
            Err(e) => grant_fault(
                grant_views(grants@),
                n as int,
                revision,
                session@,
                checkpoint::anchor_view(*tail),
            ) == Some(e),
        },
{
    let record = &grants[n];
    let ghost views = grant_views(grants@);
    assert(views[n as int] == record@);
    match validate_request_text(&record.request) {
        Err(e) => {
            return Err(BudgetCheckpointError::Invalid(e));
        },
        Ok(_) => {},
    }
    match validate_increase(&record.old_limits, &record.request.new_limits, record.old_stop) {
        Err(e) => {
            return Err(BudgetCheckpointError::Invalid(e));
        },
        Ok(_) => {},
    }
    let earlier: u64 = if n == 0 {
        0
    } else {
        grants[n - 1].source_revision
    };
    let mut duplicate: bool = false;
    let mut j: usize = 0;
    while j < n
        invariant
            j <= n < grants@.len(),
            views == grant_views(grants@),
            *record == grants@[n as int],
            duplicate == (exists|k: int|
                0 <= k < j && (#[trigger] views[k]).request.operation
                    == record@.request.operation),
        decreases n - j,
    {
        assert(views[j as int] == grants@[j as int]@);
        if grants[j].request.operation_id.is_same(&record.request.operation_id) {
            duplicate = true;
        }
        j = j + 1;
    }
    if record.source_revision <= earlier || record.source_revision >= revision || duplicate {
        return Err(
            BudgetCheckpointError::Invalid("invalid grant revision or duplicate operation ID"),
        );
    }
    match &record.confirmed_anchor {
        Some(anchor) => {
            let at_tail: bool = match tail {
                Some(tail) => at_or_before(anchor, tail),
                None => false,
            };
            let after_before: bool = if n == 0 {
                true
            } else {
                match &grants[n - 1].confirmed_anchor {
                    Some(old_anchor) => at_or_before(old_anchor, anchor),
                    None => true,
                }
            };
            if !anchor.session_id.is_same(session) || text::blank(anchor.event_id.as_str())
                || text::blank(anchor.turn_id.as_str()) || !at_tail || !after_before {
                return Err(BudgetCheckpointError::Invalid("invalid grant log anchor"));
            }
        },
        None => {
            if n > 0 && grants[n - 1].confirmed_anchor.is_some() {
                return Err(BudgetCheckpointError::Invalid("grant log anchor moved backwards"));
            }
        },
    }
    Ok(())
}

/// The retained grants are sound, in order and connected.
pub(crate) fn validate_grants(
    grants: &Vec<BudgetGrantRecord>,
    version_holds: bool,
    revision: u64,
    session: &SessionId,
    tail: &Option<BudgetEventCursor>,
) -> (result: Result<(), BudgetCheckpointError>)
    ensures
        match result {
            Ok(_) => grants_fault(
                grant_views(grants@),
                version_holds,
                revision,
                session@,
                checkpoint::anchor_view(*tail),
            ) is None,
            Err(e) => grants_fault(
                grant_views(grants@),
                version_holds,
                revision,
                session@,
                checkpoint::anchor_view(*tail),
            ) == Some(e),
        },
{
    let ghost views = grant_views(grants@);
    if (grants.len() > 0 && !version_holds) || grants.len() > MAX_BUDGET_GRANTS {
        return Err(BudgetCheckpointError::Invalid("invalid grant version or count"));
    }
    let mut n: usize = 0;
    while n < grants.len()
        invariant
            n <= grants@.len(),
            views == grant_views(grants@),
            grants_fault_from(views, 0, revision, session@, checkpoint::anchor_view(*tail))
                == grants_fault_from(
                views,
                n as int,
                revision,
                session@,
                checkpoint::anchor_view(*tail),
            ),
            (grants@.len() > 0 ==> version_holds) && grants@.len() <= MAX_BUDGET_GRANTS,
        decreases grants@.len() - n,
    {
        match validate_grant(grants, n, revision, session, tail) {
            Err(e) => {
                return Err(e);
            },
            Ok(_) => {},
        }
        n = n + 1;
    }
    if grants.len() > 0 {
        let mut i: usize = 0;
        while i < grants.len() - 1
            invariant
                i <= grants@.len() - 1,
                views == grant_views(grants@),
                forall|k: int| 0 <= k < i ==> !#[trigger] disconnected(views, k),
                (grants@.len() > 0 ==> version_holds) && grants@.len() <= MAX_BUDGET_GRANTS,
                grants_fault_from(views, 0, revision, session@, checkpoint::anchor_view(*tail)) is None,
            decreases grants@.len() - i,
        {
            assert(views[i as int] == grants@[i as int]@);
            assert(views[i as int + 1] == grants@[i as int + 1]@);
            if same_anchor(&grants[i].confirmed_anchor, &grants[i + 1].confirmed_anchor) && (
            !grants[i].request.new_limits.is_same(&grants[i + 1].old_limits) || grants[i
                + 1].old_stop.is_some()) {
                assert(disconnected(views, i as int));
                return Err(
                    BudgetCheckpointError::Invalid("discontinuous grants at the same boundary"),
                );
            }
            i = i + 1;
        }
    }
    Ok(())
}

/// The first fault of the `n`th recovery record. Its retained evidence must hold as
/// an image of its own.
pub open spec fn recovery_fault(
    recoveries: Seq<RecoveryView>,
    n: int,
    revision: u64,
    next_id: u64,
    identity: IdentityView,
) -> Option<BudgetCheckpointError> {
    let record = recoveries[n];
    let earlier = if n == 0 {
        0
    } else {
        recoveries[n - 1].request.source_revision
    };
    match record.request.fault() {
        Some(fault) => Some(BudgetCheckpointError::Invalid(fault)),
        None => if (exists|j: int|
            0 <= j < n && (#[trigger] recoveries[j]).request.operation == record.request.operation)
            || record.request.source_revision <= earlier || record.request.source_revision
            >= revision || !is_audit_text(record.ownership) || record.report.identity != identity
            || record.report.run is Some || record.report.pending.len() > 0 || record.next_id
            > next_id {
            Some(BudgetCheckpointError::Invalid("invalid recovery evidence"))
        } else {
            record.evidence().fault()
        },
    }
}

impl RecoveryView {
    /// The candidate that a record retains, as an image.
    pub open spec fn evidence(self) -> checkpoint::ImageView {
        checkpoint::ImageView {
            revision: (self.request.source_revision + 1) as u64,
            next_id: self.next_id,
            anchor: self.anchor,
            report: self.report,
            run_id: None,
            recovery_frozen: false,
        }
    }
}

/// The first fault among the recoveries from the `n`th on.
pub open spec fn recoveries_fault_from(
    recoveries: Seq<RecoveryView>,
    n: int,
    revision: u64,
    next_id: u64,
    identity: IdentityView,
) -> Option<BudgetCheckpointError>
    decreases recoveries.len() - n,
{
    if n < 0 || n >= recoveries.len() {
        None
    } else {
        match recovery_fault(recoveries, n, revision, next_id, identity) {
            Some(fault) => Some(fault),
            None => recoveries_fault_from(recoveries, n + 1, revision, next_id, identity),
        }
    }
}

pub open spec fn recoveries_fault(
    recoveries: Seq<RecoveryView>,
    version_holds: bool,
    revision: u64,
    next_id: u64,
    identity: IdentityView,
) -> Option<BudgetCheckpointError> {
    if recoveries.len() > MAX_BUDGET_RECOVERIES || (recoveries.len() > 0 && !version_holds) {
        Some(BudgetCheckpointError::Invalid("invalid recovery version/count"))
    } else {
        recoveries_fault_from(recoveries, 0, revision, next_id, identity)
    }
}

fn validate_recovery(
    recoveries: &Vec<BudgetRecoveryRecord>,
    n: usize,
    revision: u64,
    next_id: u64,
    report: &BudgetReport,
) -> (result: Result<(), BudgetCheckpointError>)
    requires
        n < recoveries@.len(),
    ensures
        match result {
            Ok(_) => recovery_fault(
                recovery_views(recoveries@),
                n as int,
                revision,
                next_id,
                report@.identity,
            ) is None,
            Err(e) => recovery_fault(
                recovery_views(recoveries@),
                n as int,
                revision,
                next_id,
                report@.identity,
            ) == Some(e),
        },
{
    let record = &recoveries[n];
    let ghost views = recovery_views(recoveries@);
    assert(views[n as int] == record@);
    match validate_recovery_request(&record.request) {
        Err(e) => {
            return Err(BudgetCheckpointError::Invalid(e));
        },
        Ok(_) => {},
    }
    let earlier: u64 = if n == 0 {
        0
    } else {
        recoveries[n - 1].request.source_revision
    };
    let mut duplicate: bool = false;
    let mut j: usize = 0;
    while j < n
        invariant
            j <= n < recoveries@.len(),
            views == recovery_views(recoveries@),
            *record == recoveries@[n as int],
            duplicate == (exists|k: int|
                0 <= k < j && (#[trigger] views[k]).request.operation
                    == record@.request.operation),
        decreases n - j,
    {
        assert(views[j as int] == recoveries@[j as int]@);
        if recoveries[j].request.operation_id.is_same(&record.request.operation_id) {
            duplicate = true;
        }
        j = j + 1;
    }
    if duplicate || record.request.source_revision <= earlier || record.request.source_revision
        >= revision || !audit_text(record.ownership_id.as_str())
        || !record.candidate_report.identity.is_same(&report.identity)
        || record.candidate_report.run.is_some() || record.candidate_report.pending.len() > 0
        || record.candidate_next_id > next_id {
        return Err(BudgetCheckpointError::Invalid("invalid recovery evidence"));
    }
    checkpoint::validate_image(
        record.request.source_revision + 1,
        record.candidate_next_id,
        &record.confirmed_anchor,
        &record.candidate_report,
        None,
        false,
    )
}

pub(crate) fn validate_recoveries(
    recoveries: &Vec<BudgetRecoveryRecord>,
    version_holds: bool,
    revision: u64,
    next_id: u64,
    report: &BudgetReport,
) -> (result: Result<(), BudgetCheckpointError>)
    ensures
        match result {
            Ok(_) => recoveries_fault(
                recovery_views(recoveries@),
                version_holds,
                revision,
                next_id,
                report@.identity,
            ) is None,
            Err(e) => recoveries_fault(
                recovery_views(recoveries@),
                version_holds,
                revision,
                next_id,
                report@.identity,
            ) == Some(e),
        },
{
    let ghost views = recovery_views(recoveries@);
    if recoveries.len() > MAX_BUDGET_RECOVERIES || (recoveries.len() > 0 && !version_holds) {
        return Err(BudgetCheckpointError::Invalid("invalid recovery version/count"));
    }
    let mut n: usize = 0;
    while n < recoveries.len()
        invariant
            n <= recoveries@.len(),
            views == recovery_views(recoveries@),
            recoveries@.len() <= MAX_BUDGET_RECOVERIES,
            recoveries@.len() > 0 ==> version_holds,
            recoveries_fault_from(views, 0, revision, next_id, report@.identity)
                == recoveries_fault_from(views, n as int, revision, next_id, report@.identity),
        decreases recoveries@.len() - n,
    {
        match validate_recovery(recoveries, n, revision, next_id, report) {
            Err(e) => {
                return Err(e);
            },
            Ok(_) => {},
        }
        n = n + 1;
    }
    Ok(())
}

} // verus!
