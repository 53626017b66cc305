//! The checkpoint of a task: its sealed accounts, claim and audits.

use crate::budget::audit;
use crate::budget::audit::{
    clone_grants, clone_recoveries, same_grants, same_recoveries, validate_grants,
    validate_recoveries, BudgetGrantRecord, BudgetRecoveryRecord, GrantView, RecoveryView,
};
use crate::budget::checkpoint;
use crate::budget::checkpoint::{
    clone_anchor, same_anchor, validate_image, BudgetCheckpointError, BudgetEventCursor,
    CursorView, ImageView,
};
use crate::budget::model::{BudgetError, LedgerView};
use crate::budget::vocabulary::{
    same_stop, BudgetAmounts, BudgetIdentity, BudgetLimits, BudgetReport, BudgetResource,
    ReportView, UsageTotals,
};
use crate::id::BudgetExecutionId;
use crate::record::Record;
use vstd::prelude::*;

verus! {

/// Claims came with the second version, grants with the third, recoveries with the
/// fourth.
#[derive(Clone, Copy, Debug, PartialEq, Eq, Structural)]
pub enum BudgetCheckpointVersion {
    V1,
    V2,
    V3,
    V4,
}

impl BudgetCheckpointVersion {
    pub open spec fn value(self) -> u16 {
        match self {
            BudgetCheckpointVersion::V1 => 1,
            BudgetCheckpointVersion::V2 => 2,
            BudgetCheckpointVersion::V3 => 3,
            BudgetCheckpointVersion::V4 => 4,
        }
    }

    /// The version that a recorded number stands for.
    pub fn try_from_number(value: u16) -> (version: Option<BudgetCheckpointVersion>)
        ensures
            match version {
                Some(v) => v.value() == value,
                None => value == 0 || value > 4,
            },
    {
        if value == 1 {
            Some(BudgetCheckpointVersion::V1)
        } else if value == 2 {
            Some(BudgetCheckpointVersion::V2)
        } else if value == 3 {
            Some(BudgetCheckpointVersion::V3)
        } else if value == 4 {
            Some(BudgetCheckpointVersion::V4)
        } else {
            None
        }
    }

    pub fn number(self) -> (value: u16)
        ensures
            value == self.value(),
    {
        match self {
            BudgetCheckpointVersion::V1 => 1,
            BudgetCheckpointVersion::V2 => 2,
            BudgetCheckpointVersion::V3 => 3,
            BudgetCheckpointVersion::V4 => 4,
        }
    }

    /// Whether images of this version may retain grants.
    pub open spec fn holds_grants(self) -> bool {
        self.value() >= 3
    }

    pub open spec fn holds_recoveries(self) -> bool {
        self.value() >= 4
    }

    /// The version of an image with these audits.
    pub open spec fn with_audits(grants: bool, recoveries: bool) -> BudgetCheckpointVersion {
        if recoveries {
            BudgetCheckpointVersion::V4
        } else if grants {
            BudgetCheckpointVersion::V3
        } else {
            BudgetCheckpointVersion::V1
        }
    }

    /// The version of an image that gains a grant.
    pub open spec fn granted(self) -> BudgetCheckpointVersion {
        if self == BudgetCheckpointVersion::V4 {
            BudgetCheckpointVersion::V4
        } else {
            BudgetCheckpointVersion::V3
        }
    }
}

/// A sealed ledger image. Only trusted host code may restore it after checking
/// storage freshness, exclusive ownership and the canonical log boundary.
/// Storing this object does not establish any of those guarantees.
#[derive(Debug, PartialEq, Eq)]
pub struct BudgetCheckpoint {
    pub version: BudgetCheckpointVersion,
    pub revision: u64,
    pub next_id: u64,
    pub anchor: Option<BudgetEventCursor>,
    pub report: BudgetReport,
    pub run_id: Option<u64>,
    pub recovery_frozen: bool,
    /// Set while an execution holds the task.
    pub execution_id: Option<BudgetExecutionId>,
    pub grants: Vec<BudgetGrantRecord>,
    pub recoveries: Vec<BudgetRecoveryRecord>,
}

pub struct CheckpointView {
    pub version: BudgetCheckpointVersion,
    pub image: ImageView,
    pub execution: Option<Seq<char>>,
    pub grants: Seq<GrantView>,
    pub recoveries: Seq<RecoveryView>,
}

pub open spec fn execution_view(id: Option<BudgetExecutionId>) -> Option<Seq<char>> {
    match id {
        Some(id) => Some(id@),
        None => None,
    }
}

/// Host expectations obtained independently from trusted storage and log checks.
/// Passing values copied blindly from the checkpoint does not verify freshness.
pub struct BudgetRestoreContext {
    pub identity: BudgetIdentity,
    pub revision: u64,
    pub confirmed_anchor: Option<BudgetEventCursor>,
    pub host_limits: BudgetLimits,
}

impl CheckpointView {
    /// The first structural fault, if any.
    pub open spec fn fault(self) -> Option<BudgetCheckpointError> {
        match self.image.fault() {
            Some(fault) => Some(fault),
            None => match audit::grants_fault(
                self.grants,
                self.version.holds_grants(),
                self.image.revision,
                self.image.report.identity.session,
                self.image.anchor,
            ) {
                Some(fault) => Some(fault),
                None => audit::recoveries_fault(
                    self.recoveries,
                    self.version.holds_recoveries(),
                    self.image.revision,
                    self.image.next_id,
                    self.image.report.identity,
                ),
            },
        }
    }

    pub open spec fn successor_fault(self, expected_revision: u64) -> Option<
        BudgetCheckpointError,
    > {
        match self.fault() {
            Some(fault) => Some(fault),
            None => if expected_revision == u64::MAX {
                Some(BudgetCheckpointError::RevisionExhausted)
            } else if self.image.revision != expected_revision + 1 {
                Some(
                    BudgetCheckpointError::RevisionMismatch {
                        expected: (expected_revision + 1) as u64,
                        actual: self.image.revision,
                    },
                )
            } else {
                None
            },
        }
    }

    /// Nothing runs, nothing is pending, nothing is claimed or frozen.
    pub open spec fn is_quiescent(self) -> bool {
        self.execution is None && !self.image.recovery_frozen && self.image.report.run is None
            && self.image.report.pending.len() == 0
    }

    /// This image with another grant and the limits it brings.
    pub open spec fn granted(self, revision: u64, record: GrantView) -> CheckpointView {
        CheckpointView {
            version: self.version.granted(),
            image: ImageView {
                revision,
                report: ReportView {
                    limits: record.request.new_limits,
                    stop: None,
                    ..self.image.report
                },
                ..self.image
            },
            grants: self.grants.push(record),
            ..self
        }
    }

    /// Why `self` may not follow `previous` in storage, if so.
    pub open spec fn transition_fault(self, previous: Option<CheckpointView>) -> Option<
        BudgetCheckpointError,
    > {
        match self.successor_fault(
            match previous {
                Some(p) => p.image.revision,
                None => 0,
            },
        ) {
            Some(fault) => Some(fault),
            None => match previous {
                None => if self.grants.len() > 0 {
                    Some(BudgetCheckpointError::Invalid("initial image contains grants"))
                } else {
                    self.recovery_transition_fault(previous)
                },
                Some(p) => match self.grant_transition_fault(p) {
                    Some(fault) => Some(fault),
                    None => self.recovery_transition_fault(previous),
                },
            },
        }
    }

    pub open spec fn grant_transition_fault(self, p: CheckpointView) -> Option<
        BudgetCheckpointError,
    > {
        match p.fault() {
            Some(fault) => Some(fault),
            None => if p.image.report.identity != self.image.report.identity {
                Some(BudgetCheckpointError::IdentityMismatch)
            } else if p.grants.len() > self.grants.len() || self.grants.take(p.grants.len() as int)
                != p.grants {
                Some(BudgetCheckpointError::Invalid("grant audit removed or rewritten"))
            } else if self.grants.len() == p.grants.len() {
                if !self.image.report.limits.within(p.image.report.limits) {
                    Some(
                        BudgetCheckpointError::Invalid(
                            "limits increased without an atomic grant record",
                        ),
                    )
                } else {
                    None
                }
            } else if self.grants.len() == p.grants.len() + 1 {
                let record = self.grants.last();
                if !p.is_quiescent() || record.source_revision != p.image.revision || record.anchor
                    != p.image.anchor || record.old_limits != p.image.report.limits
                    || record.old_stop != p.image.report.stop {
                    Some(
                        BudgetCheckpointError::Invalid(
                            "grant does not describe the quiescent predecessor",
                        ),
                    )
                } else if self != p.granted(self.image.revision, record) {
                    Some(
                        BudgetCheckpointError::Invalid(
                            "grant altered state other than limits and budget stop",
                        ),
                    )
                } else {
                    None
                }
            } else {
                Some(BudgetCheckpointError::Invalid("multiple grants in one transition"))
            },
        }
    }

    pub open spec fn recovery_transition_fault(self, previous: Option<CheckpointView>) -> Option<
        BudgetCheckpointError,
    > {
        match previous {
            None => if self.recoveries.len() > 0 {
                Some(BudgetCheckpointError::Invalid("initial recovery audit"))
            } else {
                None
            },
            Some(p) => if p.recoveries.len() > self.recoveries.len() || self.recoveries.take(
                p.recoveries.len() as int,
            ) != p.recoveries {
                Some(BudgetCheckpointError::Invalid("recovery audit rewritten"))
            } else if self.recoveries.len() == p.recoveries.len() {
                None
            } else if self.recoveries.len() == p.recoveries.len() + 1 {
                if !self.preserves(p, self.recoveries.last()) {
                    Some(
                        BudgetCheckpointError::Invalid(
                            "recovery does not preserve original claim and candidate",
                        ),
                    )
                } else if exists|r: BudgetResource|
                    self.image.report.charged.at(r) < #[trigger] p.image.report.charged.at(r) {
                    Some(BudgetCheckpointError::Invalid("recovery refunds consumed resources"))
                } else if forgets(
                    self.image.report.usage.input_tokens,
                    p.image.report.usage.input_tokens,
                ) || forgets(
                    self.image.report.usage.output_tokens,
                    p.image.report.usage.output_tokens,
                ) || forgets(
                    self.image.report.usage.tool_output_bytes,
                    p.image.report.usage.tool_output_bytes,
                ) {
                    Some(BudgetCheckpointError::Invalid("recovery erases usage evidence"))
                } else {
                    None
                }
            } else {
                Some(BudgetCheckpointError::Invalid("multiple recoveries in one transition"))
            },
        }
    }

    /// The recovered image is the recorded candidate, and the claim it closes is that
    /// of `p`.
    pub open spec fn preserves(self, p: CheckpointView, record: RecoveryView) -> bool {
        let report = self.image.report;
        &&& p.execution == Some(record.request.execution)
        &&& p.image.revision == record.request.source_revision
        &&& self.is_quiescent()
        &&& self.grants == p.grants
        &&& report == record.report
        &&& self.image.next_id == record.next_id
        &&& self.image.anchor == record.anchor
        &&& self.image.next_id >= p.image.next_id
        &&& report.limits == p.image.report.limits
        &&& report.token_mode == p.image.report.token_mode
        &&& report.active >= p.image.report.active
        &&& report.cleanup >= p.image.report.cleanup
        &&& report.reserved == BudgetAmounts::none()
    }
}

/// A total that lost evidence.
pub open spec fn forgets(next: UsageTotals, earlier: UsageTotals) -> bool {
    next.actual < earlier.actual || next.estimated < earlier.estimated || next.unknown
        < earlier.unknown
}

fn loses(next: &UsageTotals, earlier: &UsageTotals) -> (answer: bool)
    ensures
        answer == forgets(*next, *earlier),
{
    next.actual < earlier.actual || next.estimated < earlier.estimated || next.unknown
        < earlier.unknown
}

fn same_run_id(left: Option<u64>, right: Option<u64>) -> (answer: bool)
    ensures
        answer == (left == right),
{
    match (left, right) {
        (Some(a), Some(b)) => a == b,
        (None, None) => true,
        _ => false,
    }
}

impl BudgetCheckpoint {
    pub open spec fn view(&self) -> CheckpointView {
        CheckpointView {
            version: self.version,
            image: ImageView {
                revision: self.revision,
                next_id: self.next_id,
                anchor: checkpoint::anchor_view(self.anchor),
                report: self.report@,
                run_id: self.run_id,
                recovery_frozen: self.recovery_frozen,
            },
            execution: execution_view(self.execution_id),
            grants: audit::grant_views(self.grants@),
            recoveries: audit::recovery_views(self.recoveries@),
        }
    }

    pub fn revision(&self) -> (revision: u64)
        ensures
            revision == self@.image.revision,
    {
        self.revision
    }

    pub fn identity(&self) -> (identity: &BudgetIdentity)
        ensures
            identity@ == self@.image.report.identity,
    {
        &self.report.identity
    }

    pub fn anchor(&self) -> (anchor: Option<&BudgetEventCursor>)
        ensures
            match anchor {
                Some(cursor) => self@.image.anchor == Some(cursor@),
                None => self@.image.anchor is None,
            },
    {
        self.anchor.as_ref()
    }

    /// Evidence at sealing time, not live state and not execution authority.
    pub fn report(&self) -> (report: &BudgetReport)
        ensures
            report@ == self@.image.report,
    {
        &self.report
    }

    pub fn grants(&self) -> (grants: &Vec<BudgetGrantRecord>)
        ensures
            audit::grant_views(grants@) == self@.grants,
    {
        &self.grants
    }

    pub fn recoveries(&self) -> (recoveries: &Vec<BudgetRecoveryRecord>)
        ensures
            audit::recovery_views(recoveries@) == self@.recoveries,
    {
        &self.recoveries
    }

    pub fn execution_id(&self) -> (id: Option<&BudgetExecutionId>)
        ensures
            match id {
                Some(id) => self@.execution == Some(id@),
                None => self@.execution is None,
            },
    {
        self.execution_id.as_ref()
    }

    /// Structural checks, not authenticity, authorization, freshness or log validation.
    pub fn validate(&self) -> (result: Result<(), BudgetCheckpointError>)
        ensures
            match result {
                Ok(_) => self@.fault() is None,
                Err(e) => self@.fault() == Some(e),
            },
    {
        match validate_image(
            self.revision,
            self.next_id,
            &self.anchor,
            &self.report,
            self.run_id,
            self.recovery_frozen,
        ) {
            Err(e) => {
                return Err(e);
            },
            Ok(_) => {},
        }
        let version: u16 = self.version.number();
        match validate_grants(
            &self.grants,
            version >= 3,
            self.revision,
            &self.report.identity.session_id,
            &self.anchor,
        ) {
            Err(e) => {
                return Err(e);
            },
            Ok(_) => {},
        }
        validate_recoveries(
            &self.recoveries,
            version >= 4,
            self.revision,
            self.next_id,
            &self.report,
        )
    }

    /// Storage implementors must additionally compare the actual stored revision
    /// atomically. This helper alone is not a compare-and-exchange or a durability
    /// barrier.
    pub fn validate_successor(&self, expected_revision: u64) -> (result: Result<
        (),
        BudgetCheckpointError,
    >)
        ensures
            match result {
                Ok(_) => self@.successor_fault(expected_revision) is None,
                Err(e) => self@.successor_fault(expected_revision) == Some(e),
            },
    {
        match self.validate() {
            Err(e) => {
                return Err(e);
            },
            Ok(_) => {},
        }
        match expected_revision.checked_add(1) {
            None => Err(BudgetCheckpointError::RevisionExhausted),
            Some(expected) => if self.revision != expected {
                Err(
                    BudgetCheckpointError::RevisionMismatch { expected, actual: self.revision },
                )
            } else {
                Ok(())
            },
        }
    }

    /// Whether the task may be claimed, granted or inspected as it stands.
    pub fn is_quiescent(&self) -> (answer: bool)
        ensures
            answer == self@.is_quiescent(),
    {
        self.execution_id.is_none() && !self.recovery_frozen && self.report.run.is_none()
            && self.report.pending.len() == 0
    }

    /// The next revision, claimed by `execution_id`. The host makes each claim with an
    /// identity of its own, so that no two claims are one image.
    pub fn execution_claim(&self, execution_id: BudgetExecutionId) -> (result: Result<
        BudgetCheckpoint,
        BudgetCheckpointError,
    >)
        ensures
            match result {
                Ok(claim) => self@.image.revision < u64::MAX && claim@ == (CheckpointView {
                    version: if self@.version == BudgetCheckpointVersion::V1 {
                        BudgetCheckpointVersion::V2
                    } else {
                        self@.version
                    },
                    image: ImageView {
                        revision: (self@.image.revision + 1) as u64,
                        ..self@.image
                    },
                    execution: Some(execution_id@),
                    ..self@
                }),
                Err(e) => self@.image.revision == u64::MAX && e
                    == BudgetCheckpointError::RevisionExhausted,
            },
    {
        match self.revision.checked_add(1) {
            None => Err(BudgetCheckpointError::RevisionExhausted),
            Some(revision) => {
                let mut claim = self.duplicate();
                claim.revision = revision;
                claim.execution_id = Some(execution_id);
                if claim.version == BudgetCheckpointVersion::V1 {
                    claim.version = BudgetCheckpointVersion::V2;
                }
                Ok(claim)
            },
        }
    }

    /// Storage must call this against its actual previous image under its lock and
    /// when replaying an on-disk chain. Structural evidence, not host identity
    /// authentication, session exclusivity, or canonical log freshness.
    pub fn validate_transition(&self, previous: Option<&BudgetCheckpoint>) -> (result: Result<
        (),
        BudgetCheckpointError,
    >)
        ensures
            ({
                let p = match previous {
                    Some(p) => Some(p@),
                    None => None,
                };
                match result {
                    Ok(_) => self@.transition_fault(p) is None,
                    Err(e) => self@.transition_fault(p) == Some(e),
                }
            }),
    {
        let expected: u64 = match previous {
            Some(p) => p.revision,
            None => 0,
        };
        match self.validate_successor(expected) {
            Err(e) => {
                return Err(e);
            },
            Ok(_) => {},
        }
        match previous {
            None => {
                if self.grants.len() > 0 {
                    return Err(BudgetCheckpointError::Invalid("initial image contains grants"));
                }
            },
            Some(p) => match self.validate_grant_transition(p) {
                Err(e) => {
                    return Err(e);
                },
                Ok(_) => {},
            },
        }
        self.validate_recovery_transition(previous)
    }

    fn validate_grant_transition(&self, p: &BudgetCheckpoint) -> (result: Result<
        (),
        BudgetCheckpointError,
    >)
        ensures
            match result {
                Ok(_) => self@.grant_transition_fault(p@) is None,
                Err(e) => self@.grant_transition_fault(p@) == Some(e),
            },
    {
        match p.validate() {
            Err(e) => {
                return Err(e);
            },
            Ok(_) => {},
        }
        if !p.report.identity.is_same(&self.report.identity) {
            return Err(BudgetCheckpointError::IdentityMismatch);
        }
        let kept: usize = p.grants.len();
        assert(audit::grant_views(p.grants@).take(kept as int) =~= audit::grant_views(p.grants@));
        if kept > self.grants.len() || !same_grants(&self.grants, &p.grants, kept) {
            return Err(BudgetCheckpointError::Invalid("grant audit removed or rewritten"));
        }
        if self.grants.len() == kept {
            proof {
                audit::meet_is_old_iff_within(self.report.limits@, p.report.limits@);
                self.report.limits@.meet_laws(p.report.limits@, p.report.limits@);
            }
            if !self.report.limits.tightened_by(p.report.limits).is_same(&self.report.limits) {
                return Err(
                    BudgetCheckpointError::Invalid(
                        "limits increased without an atomic grant record",
                    ),
                );
            }
            return Ok(());
        }
        if self.grants.len() != kept + 1 {
            return Err(BudgetCheckpointError::Invalid("multiple grants in one transition"));
        }
        let record = &self.grants[kept];
        assert(self@.grants.last() == record@);
        if !p.is_quiescent() || record.source_revision != p.revision || !same_anchor(
            &record.confirmed_anchor,
            &p.anchor,
        ) || !record.old_limits.is_same(&p.report.limits) || !same_stop(
            &record.old_stop,
            &p.report.stop,
        ) {
            return Err(
                BudgetCheckpointError::Invalid("grant does not describe the quiescent predecessor"),
            );
        }
        let expected = p.with_grant(self.revision, record.duplicate());
        assert(expected@ == p@.granted(self@.image.revision, record@));
        if !self.is_same(&expected) {
            return Err(
                BudgetCheckpointError::Invalid(
                    "grant altered state other than limits and budget stop",
                ),
            );
        }
        Ok(())
    }

    /// This image at `revision` with one more grant.
    pub(crate) fn with_grant(&self, revision: u64, record: BudgetGrantRecord) -> (granted: BudgetCheckpoint)
        ensures
            granted@ == self@.granted(revision, record@),
    {
        let mut granted = self.duplicate();
        granted.version = if granted.version == BudgetCheckpointVersion::V4 {
            BudgetCheckpointVersion::V4
        } else {
            BudgetCheckpointVersion::V3
        };
        granted.revision = revision;
        granted.report.limits = record.request.new_limits;
        granted.report.stop = None;
        let ghost before = granted.grants@;
        granted.grants.push(record);
        assert(audit::grant_views(granted.grants@) =~= audit::grant_views(before).push(record@));
        granted
    }

    fn validate_recovery_transition(&self, previous: Option<&BudgetCheckpoint>) -> (result: Result<
        (),
        BudgetCheckpointError,
    >)
        ensures
            ({
                let p = match previous {
                    Some(p) => Some(p@),
                    None => None,
                };
                match result {
                    Ok(_) => self@.recovery_transition_fault(p) is None,
                    Err(e) => self@.recovery_transition_fault(p) == Some(e),
                }
            }),
    {
        let p = match previous {
            None => {
                if self.recoveries.len() > 0 {
                    return Err(BudgetCheckpointError::Invalid("initial recovery audit"));
                }
                return Ok(());
            },
            Some(p) => p,
        };
        let kept: usize = p.recoveries.len();
        assert(audit::recovery_views(p.recoveries@).take(kept as int) =~= audit::recovery_views(
            p.recoveries@,
        ));
        if kept > self.recoveries.len() || !same_recoveries(&self.recoveries, &p.recoveries, kept) {
            return Err(BudgetCheckpointError::Invalid("recovery audit rewritten"));
        }
        if self.recoveries.len() == kept {
            return Ok(());
        }
        if self.recoveries.len() != kept + 1 {
            return Err(BudgetCheckpointError::Invalid("multiple recoveries in one transition"));
        }
        let record = &self.recoveries[kept];
        assert(self@.recoveries.last() == record@);
        if !self.preserves(p, record) {
            return Err(
                BudgetCheckpointError::Invalid(
                    "recovery does not preserve original claim and candidate",
                ),
            );
        }
        let all = BudgetResource::ALL();
        let mut i: usize = 0;
        while i < 7
            invariant
                i <= 7,
                previous == Some(p),
                kept == p.recoveries@.len(),
                self.recoveries@.len() == kept + 1,
                self@.recoveries.take(kept as int) == p@.recoveries,
                self@.preserves(p@, self@.recoveries.last()),
                forall|j: int| 0 <= j < 7 ==> #[trigger] all@[j] == BudgetResource::nth(j),
                forall|j: int|
                    0 <= j < i ==> self.report.charged.at(#[trigger] BudgetResource::nth(j))
                        >= p.report.charged.at(BudgetResource::nth(j)),
            decreases 7 - i,
        {
            let r = all[i];
            assert(all@[i as int] == BudgetResource::nth(i as int));
            if self.report.charged.get(r) < p.report.charged.get(r) {
                assert(self@.image.report.charged.at(r) < p@.image.report.charged.at(r));
                return Err(BudgetCheckpointError::Invalid("recovery refunds consumed resources"));
            }
            i = i + 1;
        }
        assert forall|r: BudgetResource| self@.image.report.charged.at(r)
            >= #[trigger] p@.image.report.charged.at(r) by {
            let j = r.place();
            assert(BudgetResource::nth(j) == r);
        }
        if loses(&self.report.usage.input_tokens, &p.report.usage.input_tokens) || loses(
            &self.report.usage.output_tokens,
            &p.report.usage.output_tokens,
        ) || loses(&self.report.usage.tool_output_bytes, &p.report.usage.tool_output_bytes) {
            return Err(BudgetCheckpointError::Invalid("recovery erases usage evidence"));
        }
        Ok(())
    }

    fn preserves(&self, p: &BudgetCheckpoint, record: &BudgetRecoveryRecord) -> (answer: bool)
        ensures
            answer == self@.preserves(p@, record@),
    {
        let claimed: bool = match &p.execution_id {
            Some(id) => id.is_same(&record.request.execution_id),
            None => false,
        };
        let same_audit: bool = if self.grants.len() == p.grants.len() {
            same_grants(&self.grants, &p.grants, p.grants.len())
        } else {
            false
        };
        assert(audit::grant_views(p.grants@).take(p.grants@.len() as int) =~= audit::grant_views(
            p.grants@,
        ));
        assert(audit::grant_views(self.grants@).take(self.grants@.len() as int)
            =~= audit::grant_views(self.grants@));
        claimed && p.revision == record.request.source_revision && self.is_quiescent() && same_audit
            && self.report.is_same(&record.candidate_report) && self.next_id
            == record.candidate_next_id && same_anchor(&self.anchor, &record.confirmed_anchor)
            && self.next_id >= p.next_id && self.report.limits.is_same(&p.report.limits)
            && self.report.token_mode == p.report.token_mode
            && !self.report.active_time.shorter_than(&p.report.active_time)
            && !self.report.cleanup_time.shorter_than(&p.report.cleanup_time)
            && self.report.reserved == BudgetAmounts::zero()
    }

    /// The report with the grants at this exact log position taken back: limits and
    /// stop as they were before them. Never refunds consumption or changes identity,
    /// usage, mode or pending work.
    pub(crate) fn boundary_report(&self) -> (result: Result<BudgetReport, BudgetCheckpointError>)
        ensures
            match result {
                Ok(report) => Some(report@) == before_grants(
                    self@.image.report,
                    self@.grants,
                    self@.image.anchor,
                ),
                Err(e) => {
                    &&& before_grants(self@.image.report, self@.grants, self@.image.anchor) is None
                    &&& e == BudgetCheckpointError::Invalid(
                        "grant chain differs from boundary limits/stop",
                    )
                },
            },
    {
        let mut report = self.report.clone();
        let mut n: usize = self.grants.len();
        let ghost views = audit::grant_views(self.grants@);
        assert(views.take(n as int) =~= views);
        while n > 0
            invariant
                n <= self.grants@.len(),
                views == audit::grant_views(self.grants@),
                before_grants(self@.image.report, views, self@.image.anchor) == before_grants(
                    report@,
                    views.take(n as int),
                    self@.image.anchor,
                ),
            decreases n,
        {
            let record = &self.grants[n - 1];
            assert(views.take(n as int).last() == record@);
            assert(views.take(n as int).drop_last() =~= views.take(n - 1));
            if !same_anchor(&record.confirmed_anchor, &self.anchor) {
                return Ok(report);
            }
            if !report.limits.is_same(&record.request.new_limits) || report.stop.is_some() {
                return Err(
                    BudgetCheckpointError::Invalid("grant chain differs from boundary limits/stop"),
                );
            }
            report.limits = record.old_limits;
            report.stop = record.old_stop;
            n = n - 1;
        }
        Ok(report)
    }
}

/// A report with the latest grants at `anchor` taken back, unless they do not connect.
pub open spec fn before_grants(
    report: ReportView,
    grants: Seq<GrantView>,
    anchor: Option<CursorView>,
) -> Option<ReportView>
    decreases grants.len(),
{
    if grants.len() == 0 || grants.last().anchor != anchor {
        Some(report)
    } else if report.limits != grants.last().request.new_limits || report.stop is Some {
        None
    } else {
        before_grants(
            ReportView {
                limits: grants.last().old_limits,
                stop: grants.last().old_stop,
                ..report
            },
            grants.drop_last(),
            anchor,
        )
    }
}

impl DeepView for BudgetCheckpoint {
    type V = CheckpointView;

    open spec fn deep_view(&self) -> CheckpointView {
        self@
    }
}

impl Record for BudgetCheckpoint {
    fn is_same(&self, other: &Self) -> (answer: bool) {
        let grants: bool = if self.grants.len() == other.grants.len() {
            same_grants(&self.grants, &other.grants, self.grants.len())
        } else {
            false
        };
        let recoveries: bool = if self.recoveries.len() == other.recoveries.len() {
            same_recoveries(&self.recoveries, &other.recoveries, self.recoveries.len())
        } else {
            false
        };
        proof {
            let n = self.grants@.len() as int;
            assert(audit::grant_views(self.grants@).take(n) =~= audit::grant_views(self.grants@));
            assert(other.grants@.len() == n ==> audit::grant_views(other.grants@).take(n)
                =~= audit::grant_views(other.grants@));
            let m = self.recoveries@.len() as int;
            assert(audit::recovery_views(self.recoveries@).take(m) =~= audit::recovery_views(
                self.recoveries@,
            ));
            assert(other.recoveries@.len() == m ==> audit::recovery_views(other.recoveries@).take(m)
                =~= audit::recovery_views(other.recoveries@));
        }
        self.version == other.version && self.revision == other.revision && self.next_id
            == other.next_id && same_anchor(&self.anchor, &other.anchor) && self.report.is_same(
            &other.report,
        ) && same_run_id(self.run_id, other.run_id) && self.recovery_frozen
            == other.recovery_frozen && self.execution_id.is_same(&other.execution_id) && grants
            && recoveries
    }

    fn duplicate(&self) -> (copy: Self) {
        BudgetCheckpoint {
            version: self.version,
            revision: self.revision,
            next_id: self.next_id,
            anchor: clone_anchor(&self.anchor),
            report: self.report.clone(),
            run_id: self.run_id,
            recovery_frozen: self.recovery_frozen,
            execution_id: match &self.execution_id {
                Some(id) => Some(id.clone()),
                None => None,
            },
            grants: clone_grants(&self.grants),
            recoveries: clone_recoveries(&self.recoveries),
        }
    }
}

impl LedgerView {
    /// The image of this ledger at `anchor`.
    pub open spec fn image(self, anchor: Option<CursorView>) -> CheckpointView {
        CheckpointView {
            version: BudgetCheckpointVersion::with_audits(
                self.grants.len() > 0,
                self.recoveries.len() > 0,
            ),
            image: ImageView {
                revision: (self.revision + 1) as u64,
                next_id: self.next_id,
                anchor,
                report: self.report(),
                run_id: match self.run {
                    Some(run) => Some(run.id),
                    None => None,
                },
                recovery_frozen: self.recovery_frozen,
            },
            execution: None,
            grants: self.grants,
            recoveries: self.recoveries,
        }
    }

    /// Why the ledger cannot be sealed at `anchor`, if so.
    pub open spec fn seal_fault(self, anchor: Option<CursorView>, now: nat) -> Option<
        BudgetCheckpointError,
    > {
        if self.sealed {
            Some(BudgetCheckpointError::Budget(BudgetError::CheckpointSealed))
        } else if self.revision == u64::MAX {
            Some(BudgetCheckpointError::RevisionExhausted)
        } else {
            self.ticked(now).image(anchor).fault()
        }
    }

    pub open spec fn after_seal(self, anchor: Option<CursorView>, now: nat) -> LedgerView {
        if self.sealed {
            self
        } else if self.seal_fault(anchor, now) is Some {
            self.ticked(now)
        } else {
            LedgerView { sealed: true, ..self.ticked(now) }
        }
    }
}

} // verus!
