//! Spans of time with nanosecond precision.

use vstd::prelude::*;

verus! {

/// Nanoseconds in one second.
pub const NANOS_PER_SEC: u128 = 1_000_000_000;

/// The longest span that can be held: `u64::MAX` whole seconds and
/// 999_999_999 nanoseconds.
pub const MAX_NANOS: u128 = 18_446_744_073_709_551_615_999_999_999;

/// What a sum of nanoseconds becomes when it is capped at [`MAX_NANOS`].
pub open spec fn saturate(nanos: nat) -> nat {
    if nanos > MAX_NANOS {
        MAX_NANOS as nat
    } else {
        nanos
    }
}

/// A span of time, or a reading of a monotonic clock taken as the span since
/// the clock's origin. Its view is the number of nanoseconds.
#[derive(Clone, Copy, Debug, PartialEq, Eq, Structural)]
pub struct TimeSpan {
    nanos: u128,
}

impl View for TimeSpan {
    type V = nat;

    closed spec fn view(&self) -> nat {
        self.nanos as nat
    }
}

impl TimeSpan {
    #[verifier::type_invariant]
    spec fn bounded(self) -> bool {
        self.nanos <= MAX_NANOS
    }

    /// The empty span.
    pub fn zero() -> (span: TimeSpan)
        ensures
            span@ == 0,
    {
        TimeSpan { nanos: 0 }
    }

    /// A span of `secs` whole seconds.
    pub fn from_secs(secs: u64) -> (span: TimeSpan)
        ensures
            span@ == secs * NANOS_PER_SEC,
    {
        TimeSpan { nanos: (secs as u128) * NANOS_PER_SEC }
    }

    /// A span of `millis` milliseconds.
    pub fn from_millis(millis: u64) -> (span: TimeSpan)
        ensures
            span@ == millis * 1_000_000,
    {
        TimeSpan { nanos: (millis as u128) * 1_000_000 }
    }

    /// A span of `nanos` nanoseconds, capped at [`MAX_NANOS`].
    pub fn from_nanos(nanos: u128) -> (span: TimeSpan)
        ensures
            span@ == saturate(nanos as nat),
    {
        if nanos > MAX_NANOS {
            TimeSpan { nanos: MAX_NANOS }
        } else {
            TimeSpan { nanos }
        }
    }

    /// The span in nanoseconds.
    pub fn as_nanos(&self) -> (nanos: u128)
        ensures
            nanos == self@,
            nanos <= MAX_NANOS,
    {
        proof {
            use_type_invariant(self);
        }
        self.nanos
    }

    /// The whole seconds of the span.
    pub fn as_secs(&self) -> (secs: u64)
        ensures
            secs == self@ / (NANOS_PER_SEC as nat),
    {
        proof {
            use_type_invariant(self);
        }
        (self.nanos / NANOS_PER_SEC) as u64
    }

    /// The part of the span below one second, in nanoseconds.
    pub fn subsec_nanos(&self) -> (nanos: u32)
        ensures
            nanos == self@ % (NANOS_PER_SEC as nat),
    {
        (self.nanos % NANOS_PER_SEC) as u32
    }

    /// Whether the span is empty.
    pub fn is_zero(&self) -> (zero: bool)
        ensures
            zero == (self@ == 0),
    {
        self.nanos == 0
    }

    /// Whether this span is at least as long as `other`.
    pub fn at_least(&self, other: &TimeSpan) -> (reached: bool)
        ensures
            reached == (self@ >= other@),
    {
        self.nanos >= other.nanos
    }

    /// Whether this span is strictly longer than `other`.
    pub fn longer_than(&self, other: &TimeSpan) -> (longer: bool)
        ensures
            longer == (self@ > other@),
    {
        self.nanos > other.nanos
    }

    /// The sum of two spans, capped at [`MAX_NANOS`].
    pub fn saturating_add(&self, other: &TimeSpan) -> (sum: TimeSpan)
        ensures
            sum@ == saturate(self@ + other@),
    {
        proof {
            use_type_invariant(self);
            use_type_invariant(other);
        }
        let total: u128 = self.nanos + other.nanos;
        if total > MAX_NANOS {
            TimeSpan { nanos: MAX_NANOS }
        } else {
            TimeSpan { nanos: total }
        }
    }

    /// The time from `earlier` to this reading; empty when `earlier` is the
    /// later of the two.
    pub fn saturating_sub(&self, earlier: &TimeSpan) -> (span: TimeSpan)
        ensures
            span@ == if self@ >= earlier@ {
                self@ - earlier@
            } else {
                0
            },
    {
        proof {
            use_type_invariant(self);
        }
        if self.nanos >= earlier.nanos {
            TimeSpan { nanos: self.nanos - earlier.nanos }
        } else {
            TimeSpan { nanos: 0 }
        }
    }

    /// The span divided in `parts` equal parts, rounded down to a nanosecond.
    pub fn div_u64(&self, parts: u64) -> (span: TimeSpan)
        requires
            parts > 0,
        ensures
            span@ == self@ / (parts as nat),
    {
        proof {
            use_type_invariant(self);
        }
        TimeSpan { nanos: self.nanos / (parts as u128) }
    }
}

} // verus!
