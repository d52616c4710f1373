use vstd::prelude::*;

use crate::retry::backoff_strategy::BackoffStrategy;
use crate::time::{TimeSpan, NANOS_PER_MILLI};

verus! {

/// Waits the same span before every retry.
pub struct ConstantBackoff {
    backoff: TimeSpan,
}

impl ConstantBackoff {
    /// The span this strategy waits before every retry.
    pub closed spec fn backoff(self) -> TimeSpan {
        self.backoff
    }

    pub fn new(backoff: TimeSpan) -> (c: ConstantBackoff)
        ensures
            c.backoff() == backoff,
    {
        Self { backoff }
    }

    pub fn from_millis(millis: u64) -> (c: ConstantBackoff)
        ensures
            c.backoff()@ == millis * NANOS_PER_MILLI,
    {
        Self { backoff: TimeSpan::from_millis(millis) }
    }
}

impl BackoffStrategy for ConstantBackoff {
    open spec fn backoff_for(self, attempt: nat) -> nat {
        self.backoff()@
    }

    open spec fn advances_to(self, attempt: nat, next: Self) -> bool {
        next == self
    }

    fn next_backoff(&mut self, _attempt: usize) -> (backoff: TimeSpan) {
        self.backoff
    }
}

} // verus!
