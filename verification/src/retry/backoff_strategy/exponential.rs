use vstd::prelude::*;

use crate::retry::backoff_strategy::BackoffStrategy;
use crate::time::{saturate, TimeSpan, MAX_SPAN_NANOS, NANOS_PER_MILLI};

verus! {

/// Doubles the wait after every retry, starting from an initial span.
pub struct ExponentialBackoff {
    backoff: TimeSpan,
}

impl ExponentialBackoff {
    /// The span this strategy waits before the next retry.
    pub closed spec fn backoff(self) -> TimeSpan {
        self.backoff
    }

    pub fn new(initial_backoff: TimeSpan) -> (e: Self)
        ensures
            e.backoff() == initial_backoff,
    {
        Self { backoff: initial_backoff }
    }

    pub fn from_millis(millis: u64) -> (e: Self)
        ensures
            e.backoff()@ == millis * NANOS_PER_MILLI,
    {
        Self { backoff: TimeSpan::from_millis(millis) }
    }
}

impl BackoffStrategy for ExponentialBackoff {
    open spec fn backoff_for(self, attempt: nat) -> nat {
        self.backoff()@
    }

    open spec fn advances_to(self, attempt: nat, next: Self) -> bool {
        next.backoff()@ == saturate((2 * self.backoff()@) as int)
    }

    fn next_backoff(&mut self, _attempt: usize) -> (backoff: TimeSpan) {
        let prev = self.backoff;
        self.backoff = self.backoff.saturating_mul(2);
        prev
    }
}

/// `b` doubled `k` times, that is `b * 2^k`.
pub open spec fn doubled(b: nat, k: nat) -> nat
    decreases k,
{
    if k == 0 {
        b
    } else {
        2 * doubled(b, (k - 1) as nat)
    }
}

/// Every call doubles the wait, whatever the attempt numbers it is given,
/// up to the longest span: in a run of calls on a strategy that starts at
/// `b`, the call made from the `k`-th state (counting from 0) yields
/// `b * 2^k`, capped at the longest span.
pub proof fn exponential_backoff_doubles(states: Seq<ExponentialBackoff>, attempts: Seq<nat>, k: int)
    requires
        states.len() == attempts.len() + 1,
        states[0].backoff()@ <= MAX_SPAN_NANOS,
        forall|i: int| 0 <= i < attempts.len() ==> #[trigger] states[i].advances_to(attempts[i], states[i + 1]),
        0 <= k < states.len(),
    ensures
        states[k].backoff()@ == saturate(doubled(states[0].backoff()@, k as nat) as int),
        forall|a: nat| #[trigger] states[k].backoff_for(a) == saturate(doubled(states[0].backoff()@, k as nat) as int),
    decreases k,
{
    if k > 0 {
        exponential_backoff_doubles(states, attempts, k - 1);
        let j = k - 1;
        assert(states[j].advances_to(attempts[j], states[j + 1]));
        assert(j + 1 == k);
    }
}

} // verus!
