//! A span of time measured in whole nanoseconds, with the range and the
//! saturation behaviour of `std::time::Duration`.

use vstd::prelude::*;

verus! {

/// Nanoseconds in one second.
pub const NANOS_PER_SEC: u128 = 1_000_000_000;

/// Nanoseconds in one millisecond.
pub const NANOS_PER_MILLI: u128 = 1_000_000;

/// The longest representable span: `u64::MAX` seconds plus 999_999_999 nanoseconds.
pub const MAX_SPAN_NANOS: u128 = 18_446_744_073_709_551_615_999_999_999;

/// Caps a nanosecond count at the longest representable span.
pub open spec fn saturate(n: int) -> nat {
    if n > MAX_SPAN_NANOS {
        MAX_SPAN_NANOS as nat
    } else if n < 0 {
        0
    } else {
        n as nat
    }
}

/// A non-negative span of time; its view is the number of nanoseconds it holds.
#[derive(Clone, Copy, Debug, PartialEq, Eq, Structural)]
pub struct TimeSpan {
    nanos: u128,
}

impl TimeSpan {
    #[verifier::type_invariant]
    spec fn in_range(self) -> bool {
        self.nanos <= MAX_SPAN_NANOS
    }
}

impl View for TimeSpan {
    type V = nat;

    closed spec fn view(&self) -> nat {
        self.nanos as nat
    }
}

impl TimeSpan {
    /// Every span lies within the representable range.
    pub fn as_nanos(&self) -> (n: u128)
        ensures
            n == self@,
            n <= MAX_SPAN_NANOS,
    {
        proof {
            use_type_invariant(self);
        }
        self.nanos
    }

    /// The empty span.
    pub fn zero() -> (s: TimeSpan)
        ensures
            s@ == 0,
    {
        TimeSpan { nanos: 0 }
    }

    /// A span of `nanos` nanoseconds.
    pub fn from_nanos(nanos: u128) -> (s: TimeSpan)
        requires
            nanos <= MAX_SPAN_NANOS,
        ensures
            s@ == nanos,
    {
        TimeSpan { nanos }
    }

    /// A span of `secs` whole seconds.
    pub fn from_secs(secs: u64) -> (s: TimeSpan)
        ensures
            s@ == secs * NANOS_PER_SEC,
    {
        assert(secs * NANOS_PER_SEC <= MAX_SPAN_NANOS) by (nonlinear_arith)
            requires
                secs <= u64::MAX,
        ;
        TimeSpan { nanos: secs as u128 * NANOS_PER_SEC }
    }

    /// A span of `millis` milliseconds.
    pub fn from_millis(millis: u64) -> (s: TimeSpan)
        ensures
            s@ == millis * NANOS_PER_MILLI,
    {
        assert(millis * NANOS_PER_MILLI <= MAX_SPAN_NANOS) by (nonlinear_arith)
            requires
                millis <= u64::MAX,
        ;
        TimeSpan { nanos: millis as u128 * NANOS_PER_MILLI }
    }

    /// The whole seconds in this span.
    pub fn as_secs(&self) -> (s: u64)
        ensures
            s == self@ / (NANOS_PER_SEC as nat),
    {
        proof {
            use_type_invariant(self);
        }
        (self.nanos / NANOS_PER_SEC) as u64
    }

    /// The whole milliseconds in this span.
    pub fn as_millis(&self) -> (ms: u128)
        ensures
            ms == self@ / (NANOS_PER_MILLI as nat),
    {
        self.nanos / NANOS_PER_MILLI
    }

    /// The nanoseconds beyond the whole seconds of this span.
    pub fn subsec_nanos(&self) -> (n: u32)
        ensures
            n == self@ % (NANOS_PER_SEC as nat),
    {
        (self.nanos % NANOS_PER_SEC) as u32
    }

    /// Whether this span is empty.
    pub fn is_zero(&self) -> (b: bool)
        ensures
            b == (self@ == 0),
    {
        self.nanos == 0
    }

    /// Multiplies by `rhs`, saturating at the longest representable span.
    pub fn saturating_mul(&self, rhs: u32) -> (s: TimeSpan)
        ensures
            s@ == saturate(self@ * rhs),
    {
        proof {
            use_type_invariant(self);
        }
        assert(self.nanos * rhs <= u128::MAX) by (nonlinear_arith)
            requires
                self.nanos <= MAX_SPAN_NANOS,
                rhs <= u32::MAX,
        ;
        let product = self.nanos * rhs as u128;
        if product > MAX_SPAN_NANOS {
            TimeSpan { nanos: MAX_SPAN_NANOS }
        } else {
            TimeSpan { nanos: product }
        }
    }

    /// Adds `rhs`, saturating at the longest representable span.
    pub fn saturating_add(&self, rhs: TimeSpan) -> (s: TimeSpan)
        ensures
            s@ == saturate(self@ + rhs@ as int),
    {
        proof {
            use_type_invariant(self);
            use_type_invariant(&rhs);
        }
        let sum = self.nanos + rhs.nanos;
        if sum > MAX_SPAN_NANOS {
            TimeSpan { nanos: MAX_SPAN_NANOS }
        } else {
            TimeSpan { nanos: sum }
        }
    }

    /// The shorter of the two spans.
    pub fn min(&self, other: TimeSpan) -> (s: TimeSpan)
        ensures
            s@ == if self@ <= other@ { self@ } else { other@ },
    {
        if self.nanos <= other.nanos {
            *self
        } else {
            other
        }
    }

    /// Whether this span is no longer than `other`.
    pub fn le(&self, other: &TimeSpan) -> (b: bool)
        ensures
            b == (self@ <= other@),
    {
        self.nanos <= other.nanos
    }
}

} // verus!
