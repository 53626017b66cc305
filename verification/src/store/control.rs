//! How many file operations may run at once, and how large a log may grow.

use vstd::prelude::*;

verus! {

/// Limits of a file store. The bytes of a record count its newline.
#[derive(Clone, Copy, Debug, PartialEq, Eq, Structural)]
pub struct FileStoreConfig {
    pub max_record_bytes: usize,
    pub max_log_bytes: usize,
    pub max_io_jobs: usize,
}

impl FileStoreConfig {
    pub open spec fn is_workable(self) -> bool {
        &&& 0 < self.max_record_bytes <= self.max_log_bytes
        &&& self.max_log_bytes < usize::MAX
        &&& self.max_io_jobs > 0
    }

    /// Whether a store can be opened with these limits.
    pub fn workable(&self) -> (answer: bool)
        ensures
            answer == self.is_workable(),
    {
        self.max_record_bytes > 0 && self.max_log_bytes >= self.max_record_bytes
            && self.max_log_bytes < usize::MAX && self.max_io_jobs > 0
    }
}

#[derive(Clone, Copy, Debug, PartialEq, Eq, Structural)]
pub struct FileStoreStatus {
    pub accepting: bool,
    pub in_flight: usize,
    pub max_io_jobs: usize,
}

/// Why an operation is not let in.
#[derive(Clone, Copy, Debug, PartialEq, Eq, Structural)]
pub enum Refusal {
    Closed,
    Busy,
}

/// The operations of a store that are under way.
#[derive(Debug, PartialEq, Eq)]
pub struct StoreControl {
    accepting: bool,
    in_flight: usize,
    max_io_jobs: usize,
}

impl StoreControl {
    pub closed spec fn view(&self) -> FileStoreStatus {
        FileStoreStatus {
            accepting: self.accepting,
            in_flight: self.in_flight,
            max_io_jobs: self.max_io_jobs,
        }
    }

    #[verifier::type_invariant]
    spec fn wf(self) -> bool {
        self.in_flight <= self.max_io_jobs
    }

    pub fn new(max_io_jobs: usize) -> (control: Self)
        ensures
            control@ == (FileStoreStatus { accepting: true, in_flight: 0, max_io_jobs }),
    {
        StoreControl { accepting: true, in_flight: 0, max_io_jobs }
    }

    pub fn status(&self) -> (status: FileStoreStatus)
        ensures
            status == self@,
    {
        FileStoreStatus {
            accepting: self.accepting,
            in_flight: self.in_flight,
            max_io_jobs: self.max_io_jobs,
        }
    }

    /// Lets an operation in.
    pub fn enter(&mut self) -> (result: Result<(), Refusal>)
        ensures
            if !old(self)@.accepting {
                result == Err::<(), Refusal>(Refusal::Closed) && final(self)@ == old(self)@
            } else if old(self)@.in_flight >= old(self)@.max_io_jobs {
                result == Err::<(), Refusal>(Refusal::Busy) && final(self)@ == old(self)@
            } else {
                result is Ok && final(self)@ == (FileStoreStatus {
                    in_flight: (old(self)@.in_flight + 1) as usize,
                    ..old(self)@
                })
            },
    {
        if !self.accepting {
            return Err(Refusal::Closed);
        }
        if self.in_flight >= self.max_io_jobs {
            return Err(Refusal::Busy);
        }
        self.in_flight = self.in_flight + 1;
        Ok(())
    }

    /// An operation is over. The answer is whether it was the last.
    pub fn leave(&mut self) -> (drained: bool)
        requires
            old(self)@.in_flight > 0,
        ensures
            final(self)@ == (FileStoreStatus {
                in_flight: (old(self)@.in_flight - 1) as usize,
                ..old(self)@
            }),
            drained == (final(self)@.in_flight == 0),
    {
        proof {
            use_type_invariant(&*self);
        }
        self.in_flight = self.in_flight - 1;
        self.in_flight == 0
    }

    /// Lets nothing in any more. The answer is whether nothing is under way.
    pub fn close(&mut self) -> (drained: bool)
        ensures
            final(self)@ == (FileStoreStatus { accepting: false, ..old(self)@ }),
            drained == (old(self)@.in_flight == 0),
    {
        proof {
            use_type_invariant(&*self);
        }
        self.accepting = false;
        self.in_flight == 0
    }
}

/// Where and why a log cannot be read.
#[derive(Clone, Copy, Debug, PartialEq, Eq, Structural)]
pub enum LogFault {
    /// The log is larger than the store takes.
    LogTooLarge { limit: u64 },
    /// A record is larger than the store takes.
    RecordTooLarge { limit: u64 },
    /// The last record is cut off.
    Unterminated { record: u64 },
}

/// The first line that is too long or cut off, from the `k`th on.
pub open spec fn line_fault(lines: Seq<Seq<u8>>, limit: usize, k: int) -> Option<LogFault>
    decreases lines.len() - k,
{
    if k < 0 || k >= lines.len() {
        None
    } else if let Some(fault) = line_fault_at(lines[k], limit, k) {
        Some(fault)
    } else {
        line_fault(lines, limit, k + 1)
    }
}

/// Why a line cannot be a record, if it cannot.
pub open spec fn line_fault_at(line: Seq<u8>, limit: usize, k: int) -> Option<LogFault> {
    if line.len() > limit {
        Some(LogFault::RecordTooLarge { limit: limit as u64 })
    } else if line.len() == 0 || line.last() != crate::store::lines::NEWLINE {
        Some(LogFault::Unterminated { record: (k + 1) as u64 })
    } else {
        None
    }
}

/// Checks one line of a log. Lines are counted from one.
pub fn check_line(line: &Vec<u8>, limit: usize, index: usize) -> (fault: Option<LogFault>)
    requires
        index < u64::MAX,
    ensures
        fault == line_fault_at(line@, limit, index as int),
{
    if line.len() > limit {
        return Some(LogFault::RecordTooLarge { limit: limit as u64 });
    }
    if line.len() == 0 || line[line.len() - 1] != crate::store::lines::NEWLINE {
        return Some(LogFault::Unterminated { record: index as u64 + 1 });
    }
    None
}

/// Whether one more record of that size still fits the log.
pub fn fits_log(log_bytes: usize, record_bytes: usize, limit: usize) -> (answer: bool)
    ensures
        answer == (log_bytes + record_bytes <= limit),
{
    match log_bytes.checked_add(record_bytes) {
        Some(total) => total <= limit,
        None => false,
    }
}

} // verus!
