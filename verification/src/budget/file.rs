//! The file that keeps the checkpoints of one task, one per line.
//!
//! The host locks, reads, writes and synchronizes the file and decodes its lines; this
//! module says what the log holds and what may be appended.

use crate::budget::checkpoint::BudgetCheckpointError;
use crate::budget::sealed::{BudgetCheckpoint, CheckpointView};
use crate::budget::vocabulary::{BudgetIdentity, IdentityView};
use crate::record::Record;
use crate::store::control::{check_line, fits_log, line_fault_at, FileStoreConfig, FileStoreStatus, LogFault, Refusal};
use crate::store::lines::{frame_record, framed};
use vstd::prelude::*;

verus! {

/// Whether a failed write may have taken effect.
#[derive(Clone, Copy, Debug, PartialEq, Eq, Structural)]
pub enum BudgetCheckpointCommitCertainty {
    DefinitelyNotCommitted,
    Indeterminate,
}

/// Why a record cannot be part of a log.
#[derive(Clone, Copy, Debug, PartialEq, Eq)]
pub enum CorruptCause {
    /// The record is cut off; reconciliation is required.
    Unterminated,
    /// The host could not decode it.
    Unparsable,
    UnsupportedVersion,
    /// It does not follow the revision that it names.
    InvalidSuccessor(BudgetCheckpointError),
    /// It does not follow the record before it.
    NonContiguous,
    /// It belongs to another task than the record before it.
    BindingChanged,
}

#[derive(Debug, PartialEq, Eq)]
pub enum BudgetCheckpointStoreError {
    Conflict { expected: u64, actual: u64 },
    Invalid(BudgetCheckpointError),
    Storage { certainty: BudgetCheckpointCommitCertainty, message: String },
    LimitExceeded { resource: &'static str, limit: u64 },
    Corrupt { record: u64, cause: CorruptCause },
    Busy,
    Closed,
}

/// The limits of a file of budget checkpoints. The bytes of a record count its newline.
#[derive(Clone, Copy, Debug, PartialEq, Eq, Structural)]
pub struct FileBudgetCheckpointConfig {
    pub max_record_bytes: usize,
    pub max_log_bytes: usize,
    pub max_io_jobs: usize,
}

impl Default for FileBudgetCheckpointConfig {
    fn default() -> (config: Self)
        ensures
            config == (FileBudgetCheckpointConfig {
                max_record_bytes: 8_388_608,
                max_log_bytes: 67_108_864,
                max_io_jobs: 4,
            }),
    {
        FileBudgetCheckpointConfig {
            max_record_bytes: 8_388_608,
            max_log_bytes: 67_108_864,
            max_io_jobs: 4,
        }
    }
}

impl FileBudgetCheckpointConfig {
    /// The limits as any file store has them.
    pub fn limits(&self) -> (limits: FileStoreConfig)
        ensures
            limits == (FileStoreConfig {
                max_record_bytes: self.max_record_bytes,
                max_log_bytes: self.max_log_bytes,
                max_io_jobs: self.max_io_jobs,
            }),
    {
        FileStoreConfig {
            max_record_bytes: self.max_record_bytes,
            max_log_bytes: self.max_log_bytes,
            max_io_jobs: self.max_io_jobs,
        }
    }
}

/// What a file of budget checkpoints has under way.
#[derive(Clone, Copy, Debug, PartialEq, Eq, Structural)]
pub struct FileBudgetCheckpointStatus {
    pub accepting: bool,
    pub in_flight: usize,
    pub max_io_jobs: usize,
}

impl FileBudgetCheckpointStatus {
    pub fn of(status: FileStoreStatus) -> (shown: Self)
        ensures
            shown == (FileBudgetCheckpointStatus {
                accepting: status.accepting,
                in_flight: status.in_flight,
                max_io_jobs: status.max_io_jobs,
            }),
    {
        FileBudgetCheckpointStatus {
            accepting: status.accepting,
            in_flight: status.in_flight,
            max_io_jobs: status.max_io_jobs,
        }
    }
}

/// One line of the log as the host decoded it.
#[derive(Debug, PartialEq, Eq)]
pub struct CheckpointRecord {
    pub version: u16,
    pub expected_revision: u64,
    pub checkpoint: BudgetCheckpoint,
}

pub struct RecordView {
    pub version: u16,
    pub expected_revision: u64,
    pub checkpoint: CheckpointView,
}

impl DeepView for CheckpointRecord {
    type V = RecordView;

    open spec fn deep_view(&self) -> RecordView {
        RecordView {
            version: self.version,
            expected_revision: self.expected_revision,
            checkpoint: self.checkpoint@,
        }
    }
}

/// The version that records have.
pub const LOG_VERSION: u16 = 1;

pub open spec fn corrupt(k: int, cause: CorruptCause) -> BudgetCheckpointStoreError {
    BudgetCheckpointStoreError::Corrupt { record: (k + 1) as u64, cause }
}

/// Why the `k`th line of a log cannot be its next record, if it cannot. `None` stands
/// for a line that the host could not decode.
pub open spec fn record_fault(lines: Seq<Seq<u8>>, parsed: Seq<Option<RecordView>>, limit: usize, k: int) -> Option<BudgetCheckpointStoreError> {
    match line_fault_at(lines[k], limit, k) {
        Some(LogFault::RecordTooLarge { limit }) => Some(
            BudgetCheckpointStoreError::LimitExceeded { resource: "record bytes", limit },
        ),
        Some(_) => Some(corrupt(k, CorruptCause::Unterminated)),
        None => match parsed[k] {
            None => Some(corrupt(k, CorruptCause::Unparsable)),
            Some(record) => if record.version != LOG_VERSION {
                Some(corrupt(k, CorruptCause::UnsupportedVersion))
            } else if let Some(e) = record.checkpoint.successor_fault(record.expected_revision) {
                Some(corrupt(k, CorruptCause::InvalidSuccessor(e)))
            } else if record.expected_revision != (if k == 0 {
                0
            } else {
                parsed[k - 1]->0.checkpoint.image.revision
            }) {
                Some(corrupt(k, CorruptCause::NonContiguous))
            } else if k > 0 && parsed[k - 1]->0.checkpoint.image.report.identity != record.checkpoint.image.report.identity {
                Some(corrupt(k, CorruptCause::BindingChanged))
            } else {
                None
            },
        },
    }
}

/// The first fault of a log from the `k`th line on.
pub open spec fn log_fault_from(lines: Seq<Seq<u8>>, parsed: Seq<Option<RecordView>>, limit: usize, k: int) -> Option<BudgetCheckpointStoreError>
    decreases lines.len() - k,
{
    if k < 0 || k >= lines.len() {
        None
    } else {
        match record_fault(lines, parsed, limit, k) {
            Some(fault) => Some(fault),
            None => log_fault_from(lines, parsed, limit, k + 1),
        }
    }
}

/// The image that a log leaves behind.
pub open spec fn latest_of(parsed: Seq<Option<RecordView>>) -> Option<CheckpointView> {
    if parsed.len() == 0 {
        None
    } else {
        Some(parsed.last()->0.checkpoint)
    }
}

/// Why a log cannot be read for a task, if it cannot.
pub open spec fn read_fault(
    config: FileStoreConfig,
    log_bytes: usize,
    lines: Seq<Seq<u8>>,
    parsed: Seq<Option<RecordView>>,
    identity: IdentityView,
) -> Option<BudgetCheckpointStoreError> {
    if log_bytes > config.max_log_bytes {
        Some(
            BudgetCheckpointStoreError::LimitExceeded {
                resource: "log bytes",
                limit: config.max_log_bytes as u64,
            },
        )
    } else if let Some(fault) = log_fault_from(lines, parsed, config.max_record_bytes, 0) {
        Some(fault)
    } else if latest_of(parsed) is Some && latest_of(parsed)->0.image.report.identity != identity {
        Some(BudgetCheckpointStoreError::Invalid(BudgetCheckpointError::IdentityMismatch))
    } else {
        None
    }
}

fn check_record(lines: &Vec<Vec<u8>>, parsed: &Vec<Option<CheckpointRecord>>, limit: usize, k: usize) -> (fault: Option<BudgetCheckpointStoreError>)
    requires
        lines@.len() == parsed@.len(),
        k < lines@.len(),
        lines@.len() < u64::MAX,
        k > 0 ==> parsed@[k - 1] is Some,
    ensures
        fault == record_fault(lines.deep_view(), parsed.deep_view(), limit, k as int),
{
    let ghost views = parsed.deep_view();
    proof {
        assert(lines.deep_view()[k as int] =~= lines@[k as int]@);
        assert(views[k as int] == parsed@[k as int].deep_view());
        if k > 0 {
            assert(views[k - 1] == parsed@[k - 1].deep_view());
        }
    }
    let number: u64 = k as u64 + 1;
    match check_line(&lines[k], limit, k) {
        Some(LogFault::RecordTooLarge { limit }) => {
            return Some(BudgetCheckpointStoreError::LimitExceeded { resource: "record bytes", limit });
        },
        Some(_) => {
            return Some(
                BudgetCheckpointStoreError::Corrupt { record: number, cause: CorruptCause::Unterminated },
            );
        },
        None => {},
    }
    let record = match &parsed[k] {
        None => {
            return Some(
                BudgetCheckpointStoreError::Corrupt { record: number, cause: CorruptCause::Unparsable },
            );
        },
        Some(record) => record,
    };
    if record.version != LOG_VERSION {
        return Some(
            BudgetCheckpointStoreError::Corrupt { record: number, cause: CorruptCause::UnsupportedVersion },
        );
    }
    match record.checkpoint.validate_successor(record.expected_revision) {
        Err(e) => {
            return Some(
                BudgetCheckpointStoreError::Corrupt { record: number, cause: CorruptCause::InvalidSuccessor(e) },
            );
        },
        Ok(_) => {},
    }
    let previous: Option<&CheckpointRecord> = if k == 0 {
        None
    } else {
        parsed[k - 1].as_ref()
    };
    let before: u64 = match previous {
        Some(previous) => previous.checkpoint.revision,
        None => 0,
    };
    if record.expected_revision != before {
        return Some(BudgetCheckpointStoreError::Corrupt { record: number, cause: CorruptCause::NonContiguous });
    }
    match previous {
        Some(previous) => {
            if !previous.checkpoint.identity().is_same(record.checkpoint.identity()) {
                return Some(
                    BudgetCheckpointStoreError::Corrupt { record: number, cause: CorruptCause::BindingChanged },
                );
            }
        },
        None => {},
    }
    None
}

/// The image that a log leaves behind for a task. `log_bytes` is the size of the file.
pub fn read_latest(
    config: &FileStoreConfig,
    log_bytes: usize,
    lines: &Vec<Vec<u8>>,
    parsed: &Vec<Option<CheckpointRecord>>,
    identity: &BudgetIdentity,
) -> (result: Result<Option<BudgetCheckpoint>, BudgetCheckpointStoreError>)
    requires
        lines@.len() == parsed@.len(),
        lines@.len() < u64::MAX,
    ensures
        match result {
            Err(e) => read_fault(
                *config,
                log_bytes,
                lines.deep_view(),
                parsed.deep_view(),
                identity@,
            ) == Some(e),
            Ok(found) => {
                &&& read_fault(
                    *config,
                    log_bytes,
                    lines.deep_view(),
                    parsed.deep_view(),
                    identity@,
                ) is None
                &&& found.deep_view() == latest_of(parsed.deep_view())
            },
        },
{
    let ghost bytes = lines.deep_view();
    let ghost views = parsed.deep_view();
    if log_bytes > config.max_log_bytes {
        return Err(
            BudgetCheckpointStoreError::LimitExceeded {
                resource: "log bytes",
                limit: config.max_log_bytes as u64,
            },
        );
    }
    let limit: usize = config.max_record_bytes;
    let mut k: usize = 0;
    while k < lines.len()
        invariant
            k <= lines@.len(),
            lines@.len() == parsed@.len(),
            lines@.len() < u64::MAX,
            bytes == lines.deep_view(),
            views == parsed.deep_view(),
            limit == config.max_record_bytes,
            log_bytes <= config.max_log_bytes,
            k > 0 ==> parsed@[k - 1] is Some,
            log_fault_from(bytes, views, limit, 0) == log_fault_from(bytes, views, limit, k as int),
        decreases lines@.len() - k,
    {
        match check_record(lines, parsed, limit, k) {
            Some(fault) => {
                return Err(fault);
            },
            None => {},
        }
        assert(views[k as int] == parsed@[k as int].deep_view());
        k = k + 1;
    }
    if parsed.len() == 0 {
        return Ok(None);
    }
    assert(views.last() == parsed@[parsed@.len() - 1].deep_view());
    match &parsed[parsed.len() - 1] {
        None => Ok(None),
        Some(record) => {
            if !record.checkpoint.identity().is_same(identity) {
                return Err(BudgetCheckpointStoreError::Invalid(BudgetCheckpointError::IdentityMismatch));
            }
            Ok(Some(record.checkpoint.duplicate()))
        },
    }
}

/// What a writer is to do.
#[derive(Clone, Copy, Debug, PartialEq, Eq, Structural)]
pub enum BudgetCheckpointCommit {
    Committed,
    ReplayedExact,
}

/// What compare and exchange comes to, once the log was read. Only a sound image of the
/// revision after the expected one is taken at all.
pub open spec fn exchange_plan(latest: Option<CheckpointView>, expected: u64, candidate: CheckpointView) -> Result<BudgetCheckpointCommit, BudgetCheckpointStoreError> {
    let actual: u64 = match latest {
        Some(latest) => latest.image.revision,
        None => 0,
    };
    if let Some(e) = candidate.successor_fault(expected) {
        Err(BudgetCheckpointStoreError::Invalid(e))
    } else if latest == Some(candidate) {
        Ok(BudgetCheckpointCommit::ReplayedExact)
    } else if actual != expected {
        Err(BudgetCheckpointStoreError::Conflict { expected, actual })
    } else {
        Ok(BudgetCheckpointCommit::Committed)
    }
}

/// What compare and exchange comes to, once the log was read: the record is to be
/// written, or it is there already.
pub fn plan_exchange(latest: Option<&BudgetCheckpoint>, expected_revision: u64, candidate: &BudgetCheckpoint) -> (result: Result<
    BudgetCheckpointCommit,
    BudgetCheckpointStoreError,
>)
    ensures
        result == exchange_plan(
            match latest {
                Some(latest) => Some(latest@),
                None => None,
            },
            expected_revision,
            candidate@,
        ),
{
    match candidate.validate_successor(expected_revision) {
        Err(e) => {
            return Err(BudgetCheckpointStoreError::Invalid(e));
        },
        Ok(_) => {},
    }
    match latest {
        Some(latest) => {
            if latest.is_same(candidate) {
                return Ok(BudgetCheckpointCommit::ReplayedExact);
            }
            if latest.revision != expected_revision {
                return Err(
                    BudgetCheckpointStoreError::Conflict { expected: expected_revision, actual: latest.revision },
                );
            }
            Ok(BudgetCheckpointCommit::Committed)
        },
        None => {
            if expected_revision != 0 {
                return Err(BudgetCheckpointStoreError::Conflict { expected: expected_revision, actual: 0 });
            }
            Ok(BudgetCheckpointCommit::Committed)
        },
    }
}

/// The line to be written for an encoded record, where record and log stay within their
/// limits.
pub fn plan_write(config: &FileStoreConfig, log_bytes: usize, encoded: Vec<u8>) -> (result: Result<Vec<u8>, BudgetCheckpointStoreError>)
    ensures
        match result {
            Ok(line) => line@ == framed(encoded@) && framed(encoded@).len()
                <= config.max_record_bytes && log_bytes + framed(encoded@).len()
                <= config.max_log_bytes,
            Err(e) => if framed(encoded@).len() > config.max_record_bytes {
                e == (BudgetCheckpointStoreError::LimitExceeded {
                    resource: "record bytes",
                    limit: config.max_record_bytes as u64,
                })
            } else {
                log_bytes + framed(encoded@).len() > config.max_log_bytes && e == (
                BudgetCheckpointStoreError::LimitExceeded {
                    resource: "log bytes",
                    limit: config.max_log_bytes as u64,
                })
            },
        },
{
    match frame_record(encoded, config.max_record_bytes) {
        None => Err(
            BudgetCheckpointStoreError::LimitExceeded {
                resource: "record bytes",
                limit: config.max_record_bytes as u64,
            },
        ),
        Some(line) => {
            if !fits_log(log_bytes, line.len(), config.max_log_bytes) {
                return Err(
                    BudgetCheckpointStoreError::LimitExceeded {
                        resource: "log bytes",
                        limit: config.max_log_bytes as u64,
                    },
                );
            }
            Ok(line)
        },
    }
}

/// The error for an operation that is not let in.
pub fn refused(refusal: Refusal) -> (error: BudgetCheckpointStoreError)
    ensures
        error == match refusal {
            Refusal::Closed => BudgetCheckpointStoreError::Closed,
            Refusal::Busy => BudgetCheckpointStoreError::Busy,
        },
{
    match refusal {
        Refusal::Closed => BudgetCheckpointStoreError::Closed,
        Refusal::Busy => BudgetCheckpointStoreError::Busy,
    }
}

/// A record that was written where a plan allowed it continues the log without fault,
/// and is what the next read finds. The same exchange is then a replay.
pub proof fn written_images_are_latest(
    lines: Seq<Seq<u8>>,
    parsed: Seq<Option<RecordView>>,
    limit: usize,
    expected: u64,
    candidate: CheckpointView,
    record: RecordView,
    line: Seq<u8>,
)
    requires
        lines.len() == parsed.len(),
        log_fault_from(lines, parsed, limit, 0) is None,
        latest_of(parsed) is Some ==> latest_of(parsed)->0.image.report.identity == candidate.image.report.identity,
        exchange_plan(latest_of(parsed), expected, candidate) == Ok::<BudgetCheckpointCommit, BudgetCheckpointStoreError>(
            BudgetCheckpointCommit::Committed,
        ),
        record.version == LOG_VERSION,
        record.expected_revision == expected,
        record.checkpoint == candidate,
        line_fault_at(line, limit, lines.len() as int) is None,
    ensures
        log_fault_from(lines.push(line), parsed.push(Some(record)), limit, 0) is None,
        latest_of(parsed.push(Some(record))) == Some(candidate),
        exchange_plan(latest_of(parsed.push(Some(record))), expected, candidate) == Ok::<
            BudgetCheckpointCommit,
            BudgetCheckpointStoreError,
        >(BudgetCheckpointCommit::ReplayedExact),
{
    longer_log(lines, parsed, limit, record, line, 0);
}

proof fn longer_log(
    lines: Seq<Seq<u8>>,
    parsed: Seq<Option<RecordView>>,
    limit: usize,
    record: RecordView,
    line: Seq<u8>,
    k: int,
)
    requires
        0 <= k <= lines.len(),
        lines.len() == parsed.len(),
        log_fault_from(lines, parsed, limit, k) is None,
        record_fault(lines.push(line), parsed.push(Some(record)), limit, lines.len() as int) is None,
    ensures
        log_fault_from(lines.push(line), parsed.push(Some(record)), limit, k) is None,
    decreases lines.len() - k,
{
    let more_lines = lines.push(line);
    let more = parsed.push(Some(record));
    if k < lines.len() {
        assert(more_lines[k] == lines[k]);
        assert(more[k] == parsed[k]);
        if k > 0 {
            assert(more[k - 1] == parsed[k - 1]);
        }
        assert(record_fault(more_lines, more, limit, k) == record_fault(lines, parsed, limit, k));
        longer_log(lines, parsed, limit, record, line, k + 1);
    } else {
        assert(log_fault_from(more_lines, more, limit, k + 1) is None);
    }
}

} // verus!
