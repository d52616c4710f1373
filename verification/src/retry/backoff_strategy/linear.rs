use vstd::prelude::*;

use crate::retry::backoff_strategy::BackoffStrategy;
use crate::time::{saturate, TimeSpan, NANOS_PER_MILLI};

verus! {

/// Waits the base span multiplied by the number of attempts made so far.
pub struct LinearBackoff {
    backoff: TimeSpan,
}

/// The factor by which the base span is multiplied for `attempt`: the attempt
/// number truncated to 32 bits.
pub open spec fn linear_factor(attempt: nat) -> nat {
    attempt % 0x1_0000_0000
}

impl LinearBackoff {
    /// The base span of this strategy.
    pub closed spec fn backoff(self) -> TimeSpan {
        self.backoff
    }

    pub fn new(initial_backoff: TimeSpan) -> (l: Self)
        ensures
            l.backoff() == initial_backoff,
    {
        Self { backoff: initial_backoff }
    }

    pub fn from_millis(millis: u64) -> (l: Self)
        ensures
            l.backoff()@ == millis * NANOS_PER_MILLI,
    {
        Self { backoff: TimeSpan::from_millis(millis) }
    }
}

impl BackoffStrategy for LinearBackoff {
    open spec fn backoff_for(self, attempt: nat) -> nat {
        saturate((self.backoff()@ * linear_factor(attempt)) as int)
    }

    open spec fn advances_to(self, attempt: nat, next: Self) -> bool {
        next == self
    }

    fn next_backoff(&mut self, attempt: usize) -> (backoff: TimeSpan) {
        let factor = (attempt as u64 % 0x1_0000_0000) as u32;
        self.backoff.saturating_mul(factor)
    }
}

} // verus!
