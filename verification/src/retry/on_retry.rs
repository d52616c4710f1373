//! Hooks called when an attempt has failed and another one is due.

use vstd::prelude::*;

use crate::time::TimeSpan;

verus! {

/// A hook told of each failed attempt that will be retried: the attempt's
/// number (counted from zero), the backoff about to be waited, and the error.
pub trait OnRetry<E>: Sized {
    /// Whether `after` is this hook once it has been told that attempt
    /// `attempt` failed with `error` and that `next_backoff` will be waited.
    /// A hook that says nothing more may end in any state.
    open spec fn told(self, attempt: usize, next_backoff: TimeSpan, error: E, after: Self) -> bool {
        true
    }

    fn on_retry(&mut self, attempt: usize, next_backoff: TimeSpan, error: &E)
        ensures
            old(self).told(attempt, next_backoff, *error, *final(self)),
    ;
}

/// A retry hook that does nothing.
pub struct NoopOnRetry {}

impl<E> OnRetry<E> for NoopOnRetry {
    open spec fn told(self, attempt: usize, next_backoff: TimeSpan, error: E, after: Self) -> bool {
        after == self
    }

    fn on_retry(&mut self, attempt: usize, next_backoff: TimeSpan, error: &E) {
    }
}

} // verus!
