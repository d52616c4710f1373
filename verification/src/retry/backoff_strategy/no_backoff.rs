use vstd::prelude::*;

use crate::retry::backoff_strategy::BackoffStrategy;
use crate::time::TimeSpan;

verus! {

/// Retries immediately.
pub struct NoBackoff {}

impl BackoffStrategy for NoBackoff {
    open spec fn backoff_for(self, attempt: nat) -> nat {
        0
    }

    open spec fn advances_to(self, attempt: nat, next: Self) -> bool {
        true
    }

    fn next_backoff(&mut self, _attempt: usize) -> (backoff: TimeSpan) {
        TimeSpan::zero()
    }
}

} // verus!
