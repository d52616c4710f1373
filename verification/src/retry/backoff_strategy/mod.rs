//! Strategies that decide how long to wait before the next attempt.

pub mod constant;
pub mod exponential;
pub mod jitter;
pub mod linear;
pub mod no_backoff;

use vstd::prelude::*;

use crate::retry::backoff_strategy::jitter::{JitterTy, Jittered};
use crate::time::TimeSpan;

verus! {

pub trait BackoffStrategy: Sized {
    /// The backoff, in nanoseconds, that this strategy yields for `attempt`.
    spec fn backoff_for(self, attempt: nat) -> nat;

    /// Whether `next` is the state this strategy moves to once it has yielded
    /// the backoff for `attempt`.
    spec fn advances_to(self, attempt: nat, next: Self) -> bool;

    /// Calculates the backoff before the next attempt
    /// `attempt` - number of attempts that have been made so far (starting from 1)
    fn next_backoff(&mut self, attempt: usize) -> (backoff: TimeSpan)
        ensures
            backoff@ == old(self).backoff_for(attempt as nat),
            old(self).advances_to(attempt as nat, *final(self)),
    ;

    /// Wraps this strategy so that each backoff is randomised by `ty`.
    fn jittered(self, ty: JitterTy) -> (j: Jittered<Self>)
        ensures
            j.inner == self,
            j.ty == ty,
    {
        Jittered { inner: self, ty }
    }
}

} // verus!
