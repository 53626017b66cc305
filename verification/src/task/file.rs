//! The file that keeps the snapshots of one task, one per line.
//!
//! The host locks, reads, writes and synchronizes the file and decodes its lines; this
//! module says what the log holds and what may be appended.

use crate::budget::vocabulary::{BudgetIdentity, IdentityView};
use crate::task::history::{is_naming, valid_text, TaskStateError};
use crate::task::snapshot::{succession_fault, SnapshotSize, SnapshotView, TaskSnapshot};
use crate::task::store::{revision_fault, validate_revision, TaskStoreError, TaskWriteOutcome};
use crate::record::Record;
use crate::store::control::{check_line, fits_log, line_fault_at, FileStoreConfig, FileStoreStatus, LogFault, Refusal};
use crate::store::lines::{frame_record, framed};
use vstd::prelude::*;

verus! {

/// Whether a failed write may have taken effect.
#[derive(Clone, Copy, Debug, PartialEq, Eq, Structural)]
pub enum TaskCommitCertainty {
    DefinitelyNotCommitted,
    Indeterminate,
}

/// Why a record cannot be part of a log.
#[derive(Debug, PartialEq, Eq)]
pub enum CorruptCause {
    /// The record is cut off; reconciliation is required.
    Unterminated,
    /// The host could not decode it.
    Unparsable,
    UnsupportedVersion,
    /// It does not follow the revision that it names.
    InvalidSuccessor(TaskStateError),
    /// It does not follow the record before it.
    NonContiguous,
    /// It belongs to another task than the record before it.
    BindingChanged,
}

/// The limits of a file of task snapshots. The bytes of a record count its newline.
#[derive(Clone, Copy, Debug, PartialEq, Eq, Structural)]
pub struct FileTaskStateConfig {
    pub max_record_bytes: usize,
    pub max_log_bytes: usize,
    pub max_io_jobs: usize,
}

impl Default for FileTaskStateConfig {
    fn default() -> (config: Self)
        ensures
            config == (FileTaskStateConfig {
                max_record_bytes: 1_048_576,
                max_log_bytes: 67_108_864,
                max_io_jobs: 4,
            }),
    {
        FileTaskStateConfig {
            max_record_bytes: 1_048_576,
            max_log_bytes: 67_108_864,
            max_io_jobs: 4,
        }
    }
}

impl FileTaskStateConfig {
    /// The limits as any file store has them.
    pub fn limits(&self) -> (limits: FileStoreConfig)
        ensures
            limits == (FileStoreConfig {
                max_record_bytes: self.max_record_bytes,
                max_log_bytes: self.max_log_bytes,
                max_io_jobs: self.max_io_jobs,
            }),
    {
        FileStoreConfig {
            max_record_bytes: self.max_record_bytes,
            max_log_bytes: self.max_log_bytes,
            max_io_jobs: self.max_io_jobs,
        }
    }
}

/// What a file of task snapshots has under way.
#[derive(Clone, Copy, Debug, PartialEq, Eq, Structural)]
pub struct FileTaskStateStatus {
    pub accepting: bool,
    pub in_flight: usize,
    pub max_io_jobs: usize,
}

impl FileTaskStateStatus {
    pub fn of(status: FileStoreStatus) -> (shown: Self)
        ensures
            shown == (FileTaskStateStatus {
                accepting: status.accepting,
                in_flight: status.in_flight,
                max_io_jobs: status.max_io_jobs,
            }),
    {
        FileTaskStateStatus {
            accepting: status.accepting,
            in_flight: status.in_flight,
            max_io_jobs: status.max_io_jobs,
        }
    }
}

/// One line of the log as the host decoded it.
#[derive(Debug, PartialEq, Eq)]
pub struct SnapshotRecord {
    pub version: u16,
    pub expected_revision: u64,
    pub checkpoint: TaskSnapshot,
    /// What the host measured of the snapshot.
    pub size: SnapshotSize,
}

pub struct RecordView {
    pub version: u16,
    pub expected_revision: u64,
    pub checkpoint: SnapshotView,
    pub size: SnapshotSize,
}

impl DeepView for SnapshotRecord {
    type V = RecordView;

    open spec fn deep_view(&self) -> RecordView {
        RecordView {
            version: self.version,
            expected_revision: self.expected_revision,
            checkpoint: self.checkpoint@,
            size: self.size,
        }
    }
}

/// The version that records have.
pub const LOG_VERSION: u16 = 1;

pub open spec fn corrupt(k: int, cause: CorruptCause) -> TaskStoreError {
    TaskStoreError::Corrupt { record: (k + 1) as u64, cause }
}

/// Why the `k`th line of a log cannot be its next record, if it cannot. `None` stands
/// for a line that the host could not decode.
pub open spec fn record_fault(lines: Seq<Seq<u8>>, parsed: Seq<Option<RecordView>>, limit: usize, k: int) -> Option<TaskStoreError> {
    match line_fault_at(lines[k], limit, k) {
        Some(LogFault::RecordTooLarge { limit }) => Some(
            TaskStoreError::LimitExceeded { resource: "record bytes", limit },
        ),
        Some(_) => Some(corrupt(k, CorruptCause::Unterminated)),
        None => match parsed[k] {
            None => Some(corrupt(k, CorruptCause::Unparsable)),
            Some(record) => if record.version != LOG_VERSION {
                Some(corrupt(k, CorruptCause::UnsupportedVersion))
            } else if let Some(e) = revision_fault(
                record.expected_revision,
                record.checkpoint,
                record.size,
            ) {
                Some(corrupt(k, CorruptCause::InvalidSuccessor(e)))
            } else if record.expected_revision != (if k == 0 {
                0
            } else {
                parsed[k - 1]->0.checkpoint.revision
            }) {
                Some(corrupt(k, CorruptCause::NonContiguous))
            } else if k > 0 && parsed[k - 1]->0.checkpoint.identity != record.checkpoint.identity {
                Some(corrupt(k, CorruptCause::BindingChanged))
            } else {
                if k > 0 {
                    match succession_fault(parsed[k - 1]->0.checkpoint, record.checkpoint) {
                        Some(e) => Some(corrupt(k, CorruptCause::InvalidSuccessor(e))),
                        None => None,
                    }
                } else {
                    None
                }
            },
        },
    }
}

/// The first fault of a log from the `k`th line on.
pub open spec fn log_fault_from(lines: Seq<Seq<u8>>, parsed: Seq<Option<RecordView>>, limit: usize, k: int) -> Option<TaskStoreError>
    decreases lines.len() - k,
{
    if k < 0 || k >= lines.len() {
        None
    } else {
        match record_fault(lines, parsed, limit, k) {
            Some(fault) => Some(fault),
            None => log_fault_from(lines, parsed, limit, k + 1),
        }
    }
}

/// The image that a log leaves behind.
pub open spec fn latest_of(parsed: Seq<Option<RecordView>>) -> Option<SnapshotView> {
    if parsed.len() == 0 {
        None
    } else {
        Some(parsed.last()->0.checkpoint)
    }
}

/// Why a log cannot be read for a task, if it cannot.
pub open spec fn read_fault(
    config: FileStoreConfig,
    log_bytes: usize,
    lines: Seq<Seq<u8>>,
    parsed: Seq<Option<RecordView>>,
    identity: IdentityView,
) -> Option<TaskStoreError> {
    if log_bytes > config.max_log_bytes {
        Some(
            TaskStoreError::LimitExceeded {
                resource: "log bytes",
                limit: config.max_log_bytes as u64,
            },
        )
    } else if let Some(fault) = log_fault_from(lines, parsed, config.max_record_bytes, 0) {
        Some(fault)
    } else if latest_of(parsed) is Some && latest_of(parsed)->0.identity != identity {
        Some(TaskStoreError::State(TaskStateError::IdentityMismatch))
    } else {
        None
    }
}

fn check_record(lines: &Vec<Vec<u8>>, parsed: &Vec<Option<SnapshotRecord>>, limit: usize, k: usize) -> (fault: Option<TaskStoreError>)
    requires
        lines@.len() == parsed@.len(),
        k < lines@.len(),
        lines@.len() < u64::MAX,
        k > 0 ==> parsed@[k - 1] is Some,
    ensures
        fault == record_fault(lines.deep_view(), parsed.deep_view(), limit, k as int),
{
    let ghost views = parsed.deep_view();
    proof {
        assert(lines.deep_view()[k as int] =~= lines@[k as int]@);
        assert(views[k as int] == parsed@[k as int].deep_view());
        if k > 0 {
            assert(views[k - 1] == parsed@[k - 1].deep_view());
        }
    }
    let number: u64 = k as u64 + 1;
    match check_line(&lines[k], limit, k) {
        Some(LogFault::RecordTooLarge { limit }) => {
            return Some(TaskStoreError::LimitExceeded { resource: "record bytes", limit });
        },
        Some(_) => {
            return Some(
                TaskStoreError::Corrupt { record: number, cause: CorruptCause::Unterminated },
            );
        },
        None => {},
    }
    let record = match &parsed[k] {
        None => {
            return Some(
                TaskStoreError::Corrupt { record: number, cause: CorruptCause::Unparsable },
            );
        },
        Some(record) => record,
    };
    if record.version != LOG_VERSION {
        return Some(
            TaskStoreError::Corrupt { record: number, cause: CorruptCause::UnsupportedVersion },
        );
    }
    match validate_revision(record.expected_revision, &record.checkpoint, &record.size) {
        Err(e) => {
            return Some(
                TaskStoreError::Corrupt { record: number, cause: CorruptCause::InvalidSuccessor(e) },
            );
        },
        Ok(_) => {},
    }
    let previous: Option<&SnapshotRecord> = if k == 0 {
        None
    } else {
        parsed[k - 1].as_ref()
    };
    let before: u64 = match previous {
        Some(previous) => previous.checkpoint.revision,
        None => 0,
    };
    if record.expected_revision != before {
        return Some(TaskStoreError::Corrupt { record: number, cause: CorruptCause::NonContiguous });
    }
    match previous {
        Some(previous) => {
            if !previous.checkpoint.identity().is_same(record.checkpoint.identity()) {
                return Some(
                    TaskStoreError::Corrupt { record: number, cause: CorruptCause::BindingChanged },
                );
            }
        },
        None => {},
    }
    match previous {
        Some(previous) => match record.checkpoint.check_succession(&previous.checkpoint) {
            Err(e) => Some(
                TaskStoreError::Corrupt {
                    record: number,
                    cause: CorruptCause::InvalidSuccessor(e),
                },
            ),
            Ok(_) => None,
        },
        None => None,
    }
}

/// The image that a log leaves behind for a task. `log_bytes` is the size of the file.
pub fn read_latest(
    config: &FileStoreConfig,
    log_bytes: usize,
    lines: &Vec<Vec<u8>>,
    parsed: &Vec<Option<SnapshotRecord>>,
    identity: &BudgetIdentity,
) -> (result: Result<Option<TaskSnapshot>, TaskStoreError>)
    requires
        lines@.len() == parsed@.len(),
        lines@.len() < u64::MAX,
    ensures
        match result {
            Err(e) => read_fault(
                *config,
                log_bytes,
                lines.deep_view(),
                parsed.deep_view(),
                identity@,
            ) == Some(e),
            Ok(found) => {
                &&& read_fault(
                    *config,
                    log_bytes,
                    lines.deep_view(),
                    parsed.deep_view(),
                    identity@,
                ) is None
                &&& found.deep_view() == latest_of(parsed.deep_view())
            },
        },
{
    let ghost bytes = lines.deep_view();
    let ghost views = parsed.deep_view();
    if log_bytes > config.max_log_bytes {
        return Err(
            TaskStoreError::LimitExceeded {
                resource: "log bytes",
                limit: config.max_log_bytes as u64,
            },
        );
    }
    let limit: usize = config.max_record_bytes;
    let mut k: usize = 0;
    while k < lines.len()
        invariant
            k <= lines@.len(),
            lines@.len() == parsed@.len(),
            lines@.len() < u64::MAX,
            bytes == lines.deep_view(),
            views == parsed.deep_view(),
            limit == config.max_record_bytes,
            log_bytes <= config.max_log_bytes,
            k > 0 ==> parsed@[k - 1] is Some,
            log_fault_from(bytes, views, limit, 0) == log_fault_from(bytes, views, limit, k as int),
        decreases lines@.len() - k,
    {
        match check_record(lines, parsed, limit, k) {
            Some(fault) => {
                return Err(fault);
            },
            None => {},
        }
        assert(views[k as int] == parsed@[k as int].deep_view());
        k = k + 1;
    }
    if parsed.len() == 0 {
        return Ok(None);
    }
    assert(views.last() == parsed@[parsed@.len() - 1].deep_view());
    match &parsed[parsed.len() - 1] {
        None => Ok(None),
        Some(record) => {
            if !record.checkpoint.identity().is_same(identity) {
                return Err(TaskStoreError::State(TaskStateError::IdentityMismatch));
            }
            Ok(Some(record.checkpoint.duplicate()))
        },
    }
}

/// What compare and exchange comes to, once the log was read. Only a valid snapshot of
/// the revision after the expected one is taken at all.
pub open spec fn exchange_plan(
    latest: Option<SnapshotView>,
    expected: u64,
    candidate: SnapshotView,
    size: SnapshotSize,
) -> Result<TaskWriteOutcome, TaskStoreError> {
    let actual: u64 = match latest {
        Some(latest) => latest.revision,
        None => 0,
    };
    if let Some(e) = revision_fault(expected, candidate, size) {
        Err(TaskStoreError::State(e))
    } else if latest is Some && latest->0.same_as(candidate) {
        Ok(TaskWriteOutcome::AlreadyPresent)
    } else if actual != expected {
        Err(TaskStoreError::Conflict { expected, actual })
    } else {
        match latest {
            Some(latest) => match succession_fault(latest, candidate) {
                Some(e) => Err(TaskStoreError::State(e)),
                None => Ok(TaskWriteOutcome::Applied),
            },
            None => Ok(TaskWriteOutcome::Applied),
        }
    }
}

/// What compare and exchange comes to, once the log was read: the record is to be
/// written, or it is there already.
pub fn plan_exchange(
    latest: Option<&TaskSnapshot>,
    expected_revision: u64,
    candidate: &TaskSnapshot,
    size: &SnapshotSize,
) -> (result: Result<TaskWriteOutcome, TaskStoreError>)
    ensures
        result == exchange_plan(
            match latest {
                Some(latest) => Some(latest@),
                None => None,
            },
            expected_revision,
            candidate@,
            *size,
        ),
{
    match validate_revision(expected_revision, candidate, size) {
        Err(e) => {
            return Err(TaskStoreError::State(e));
        },
        Ok(_) => {},
    }
    match latest {
        Some(latest) => {
            if latest.is_same_state(candidate) {
                return Ok(TaskWriteOutcome::AlreadyPresent);
            }
            if latest.revision != expected_revision {
                return Err(
                    TaskStoreError::Conflict { expected: expected_revision, actual: latest.revision },
                );
            }
            match candidate.check_succession(latest) {
                Err(e) => Err(TaskStoreError::State(e)),
                Ok(_) => Ok(TaskWriteOutcome::Applied),
            }
        },
        None => {
            if expected_revision != 0 {
                return Err(TaskStoreError::Conflict { expected: expected_revision, actual: 0 });
            }
            Ok(TaskWriteOutcome::Applied)
        },
    }
}

/// The line to be written for an encoded record, where record and log stay within their
/// limits.
pub fn plan_write(config: &FileStoreConfig, log_bytes: usize, encoded: Vec<u8>) -> (result: Result<Vec<u8>, TaskStoreError>)
    ensures
        match result {
            Ok(line) => line@ == framed(encoded@) && framed(encoded@).len()
                <= config.max_record_bytes && log_bytes + framed(encoded@).len()
                <= config.max_log_bytes,
            Err(e) => if framed(encoded@).len() > config.max_record_bytes {
                e == (TaskStoreError::LimitExceeded {
                    resource: "record bytes",
                    limit: config.max_record_bytes as u64,
                })
            } else {
                log_bytes + framed(encoded@).len() > config.max_log_bytes && e == (
                TaskStoreError::LimitExceeded {
                    resource: "log bytes",
                    limit: config.max_log_bytes as u64,
                })
            },
        },
{
    match frame_record(encoded, config.max_record_bytes) {
        None => Err(
            TaskStoreError::LimitExceeded {
                resource: "record bytes",
                limit: config.max_record_bytes as u64,
            },
        ),
        Some(line) => {
            if !fits_log(log_bytes, line.len(), config.max_log_bytes) {
                return Err(
                    TaskStoreError::LimitExceeded {
                        resource: "log bytes",
                        limit: config.max_log_bytes as u64,
                    },
                );
            }
            Ok(line)
        },
    }
}

/// Every part of the identity says something and is no longer than a name may be.
pub open spec fn is_addressable(identity: IdentityView) -> bool {
    is_naming(identity.task) && is_naming(identity.session) && is_naming(identity.agent)
}

/// Whether snapshots can be asked for under an identity.
pub fn validate_identity(identity: &BudgetIdentity) -> (result: Result<(), TaskStoreError>)
    ensures
        result == if is_addressable(identity@) {
            Ok::<(), TaskStoreError>(())
        } else {
            Err(TaskStoreError::State(TaskStateError::Invalid("invalid task identity")))
        },
{
    if valid_text(identity.task_id.as_str()).is_ok() && valid_text(
        identity.session_id.as_str(),
    ).is_ok() && valid_text(identity.agent_key.as_str()).is_ok() {
        Ok(())
    } else {
        Err(TaskStoreError::State(TaskStateError::Invalid("invalid task identity")))
    }
}

/// The error for an operation that is not let in.
pub fn refused(refusal: Refusal) -> (error: TaskStoreError)
    ensures
        error == match refusal {
            Refusal::Closed => TaskStoreError::Closed,
            Refusal::Busy => TaskStoreError::Busy,
        },
{
    match refusal {
        Refusal::Closed => TaskStoreError::Closed,
        Refusal::Busy => TaskStoreError::Busy,
    }
}

/// A record that was written where a plan allowed it continues the log without fault,
/// and is what the next read finds. The same exchange is then a replay.
pub proof fn written_images_are_latest(
    lines: Seq<Seq<u8>>,
    parsed: Seq<Option<RecordView>>,
    limit: usize,
    expected: u64,
    candidate: SnapshotView,
    record: RecordView,
    line: Seq<u8>,
)
    requires
        lines.len() == parsed.len(),
        log_fault_from(lines, parsed, limit, 0) is None,
        latest_of(parsed) is Some ==> latest_of(parsed)->0.identity == candidate.identity,
        exchange_plan(latest_of(parsed), expected, candidate, record.size) == Ok::<TaskWriteOutcome, TaskStoreError>(
            TaskWriteOutcome::Applied,
        ),
        record.version == LOG_VERSION,
        record.expected_revision == expected,
        record.checkpoint == candidate,
        line_fault_at(line, limit, lines.len() as int) is None,
    ensures
        log_fault_from(lines.push(line), parsed.push(Some(record)), limit, 0) is None,
        latest_of(parsed.push(Some(record))) == Some(candidate),
        exchange_plan(latest_of(parsed.push(Some(record))), expected, candidate, record.size) == Ok::<
            TaskWriteOutcome,
            TaskStoreError,
        >(TaskWriteOutcome::AlreadyPresent),
{
    longer_log(lines, parsed, limit, record, line, 0);
}

proof fn longer_log(
    lines: Seq<Seq<u8>>,
    parsed: Seq<Option<RecordView>>,
    limit: usize,
    record: RecordView,
    line: Seq<u8>,
    k: int,
)
    requires
        0 <= k <= lines.len(),
        lines.len() == parsed.len(),
        log_fault_from(lines, parsed, limit, k) is None,
        record_fault(lines.push(line), parsed.push(Some(record)), limit, lines.len() as int) is None,
    ensures
        log_fault_from(lines.push(line), parsed.push(Some(record)), limit, k) is None,
    decreases lines.len() - k,
{
    let more_lines = lines.push(line);
    let more = parsed.push(Some(record));
    if k < lines.len() {
        assert(more_lines[k] == lines[k]);
        assert(more[k] == parsed[k]);
        if k > 0 {
            assert(more[k - 1] == parsed[k - 1]);
        }
        assert(record_fault(more_lines, more, limit, k) == record_fault(lines, parsed, limit, k));
        longer_log(lines, parsed, limit, record, line, k + 1);
    } else {
        assert(log_fault_from(more_lines, more, limit, k + 1) is None);
    }
}

} // verus!
