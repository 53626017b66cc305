//! Spans of time, exact to the nanosecond.

use vstd::prelude::*;

verus! {

pub const NANOS_PER_SEC: u32 = 1_000_000_000;

/// A length of time in whole seconds and the nanoseconds beyond them.
#[derive(Clone, Copy, Debug, PartialEq, Eq, Structural)]
pub struct Duration {
    secs: u64,
    nanos: u32,
}

impl Duration {
    /// The span in nanoseconds.
    pub closed spec fn length(self) -> nat {
        self.secs as nat * 1_000_000_000 + self.nanos as nat
    }

    pub closed spec fn spec_secs(self) -> u64 {
        self.secs
    }

    pub closed spec fn spec_nanos(self) -> u32 {
        self.nanos
    }

    #[verifier::type_invariant]
    pub closed spec fn normal(self) -> bool {
        self.nanos < 1_000_000_000
    }

    /// `secs` seconds and `nanos` nanoseconds, or nothing unless the latter are
    /// less than a second.
    pub fn new(secs: u64, nanos: u32) -> (span: Option<Duration>)
        ensures
            span is Some <==> nanos < NANOS_PER_SEC,
            span matches Some(d) ==> d.spec_secs() == secs && d.spec_nanos() == nanos && d.length()
                == secs as nat * 1_000_000_000 + nanos as nat,
    {
        if nanos < NANOS_PER_SEC {
            Some(Duration { secs, nanos })
        } else {
            None
        }
    }

    pub fn zero() -> (span: Duration)
        ensures
            span.length() == 0,
    {
        Duration { secs: 0, nanos: 0 }
    }

    /// Spans of one length are one value.
    pub(crate) fn same_length(&self, other: &Duration) -> (answer: bool)
        ensures
            answer == (self.length() == other.length()),
            answer ==> *self == *other,
    {
        proof {
            use_type_invariant(self);
            use_type_invariant(other);
        }
        self.secs == other.secs && self.nanos == other.nanos
    }

    pub fn from_secs(secs: u64) -> (span: Duration)
        ensures
            span.length() == secs as nat * 1_000_000_000,
            span.spec_secs() == secs,
            span.spec_nanos() == 0,
    {
        Duration { secs, nanos: 0 }
    }

    pub fn secs(&self) -> (secs: u64)
        ensures
            secs == self.spec_secs(),
            secs as nat == self.length() / 1_000_000_000,
    {
        proof {
            use_type_invariant(self);
            Duration::lemma_parts(*self);
        }
        self.secs
    }

    pub fn nanos(&self) -> (nanos: u32)
        ensures
            nanos == self.spec_nanos(),
            nanos as nat == self.length() % 1_000_000_000,
            nanos < NANOS_PER_SEC,
    {
        proof {
            use_type_invariant(self);
            Duration::lemma_parts(*self);
        }
        self.nanos
    }

    proof fn lemma_parts(d: Duration)
        requires
            d.normal(),
        ensures
            d.secs as nat == d.length() / 1_000_000_000,
            d.nanos as nat == d.length() % 1_000_000_000,
    {
    }

    /// Whole microseconds of the span.
    pub fn as_micros(&self) -> (micros: u128)
        ensures
            micros as nat == self.length() / 1000,
    {
        proof {
            use_type_invariant(self);
        }
        self.secs as u128 * 1_000_000 + (self.nanos / 1000) as u128
    }

    /// Whether this span is shorter than `other`.
    pub fn shorter_than(&self, other: &Duration) -> (answer: bool)
        ensures
            answer == (self.length() < other.length()),
    {
        proof {
            use_type_invariant(self);
            use_type_invariant(other);
        }
        self.secs < other.secs || (self.secs == other.secs && self.nanos < other.nanos)
    }

    /// The shorter of two spans.
    pub fn min(self, other: Duration) -> (shorter: Duration)
        ensures
            shorter == if other.length() < self.length() {
                other
            } else {
                self
            },
    {
        if other.shorter_than(&self) {
            other
        } else {
            self
        }
    }

    /// The sum, or nothing where the seconds overflow.
    pub fn checked_add(self, other: Duration) -> (sum: Option<Duration>)
        ensures
            sum is Some <==> self.length() + other.length() < 0x1_0000_0000_0000_0000 * 1_000_000_000,
            sum matches Some(d) ==> d.length() == self.length() + other.length(),
    {
        proof {
            use_type_invariant(&self);
            use_type_invariant(&other);
        }
        let total: u32 = self.nanos + other.nanos;
        let (carry, nanos): (u64, u32) = if total >= NANOS_PER_SEC {
            (1, (total - NANOS_PER_SEC) as u32)
        } else {
            (0, total)
        };
        match self.secs.checked_add(other.secs) {
            None => None,
            Some(secs) => match secs.checked_add(carry) {
                None => None,
                Some(secs) => Some(Duration { secs, nanos }),
            },
        }
    }

    /// The sum, where it stays within `cap` or nothing is added.
    pub(crate) fn add_within(self, more: Duration, cap: &Duration) -> (sum: Duration)
        requires
            more.length() == 0 || self.length() + more.length() <= cap.length(),
        ensures
            sum.length() == self.length() + more.length(),
    {
        proof {
            use_type_invariant(&self);
            use_type_invariant(cap);
        }
        match self.checked_add(more) {
            Some(sum) => sum,
            None => {
                assert(false);
                self
            },
        }
    }

    /// The sum, or the longest span where it is longer still.
    pub fn saturating_add(self, other: Duration) -> (sum: Duration)
        ensures
            sum.length() == if self.length() + other.length() < 0x1_0000_0000_0000_0000 * 1_000_000_000 {
                self.length() + other.length()
            } else {
                (0x1_0000_0000_0000_0000 * 1_000_000_000 - 1) as nat
            },
    {
        match self.checked_add(other) {
            Some(sum) => sum,
            None => Duration { secs: u64::MAX, nanos: 999_999_999 },
        }
    }

    /// The difference, or nothing where `other` is longer.
    pub fn checked_sub(self, other: Duration) -> (rest: Option<Duration>)
        ensures
            rest is Some <==> other.length() <= self.length(),
            rest matches Some(d) ==> d.length() == self.length() - other.length(),
    {
        proof {
            use_type_invariant(&self);
            use_type_invariant(&other);
        }
        if self.shorter_than(&other) {
            return None;
        }
        if self.nanos >= other.nanos {
            Some(Duration { secs: self.secs - other.secs, nanos: self.nanos - other.nanos })
        } else {
            Some(
                Duration {
                    secs: self.secs - other.secs - 1,
                    nanos: self.nanos + NANOS_PER_SEC - other.nanos,
                },
            )
        }
    }

    /// The difference, zero where `other` is longer.
    pub fn saturating_sub(self, other: Duration) -> (rest: Duration)
        ensures
            rest.length() == if other.length() <= self.length() {
                (self.length() - other.length()) as nat
            } else {
                0
            },
    {
        match self.checked_sub(other) {
            Some(rest) => rest,
            None => Duration { secs: 0, nanos: 0 },
        }
    }
}

} // verus!
