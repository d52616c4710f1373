use vstd::prelude::*;

use crate::retry::backoff_strategy::BackoffStrategy;

verus! {

/// A strategy whose backoffs are scaled by a random factor. The scaling is
/// done in floating point by the code that runs the retries; this type
/// records the inner strategy and the kind of jitter.
pub struct Jittered<BS: BackoffStrategy> {
    pub inner: BS,
    pub ty: JitterTy,
}

/// How a backoff is randomised.
#[derive(Clone, Copy, Debug, PartialEq, Eq, Structural)]
pub enum JitterTy {
    /// Uniformly between zero and the backoff.
    Full,
    /// Uniformly between half the backoff and the backoff.
    Equal,
}

} // verus!

verus! {

impl<BS: BackoffStrategy> Jittered<BS> {
    /// Advances the inner strategy and returns the backoff it yields for
    /// `attempt`, before any jitter is applied.
    pub fn next_base_backoff(&mut self, attempt: usize) -> (backoff: crate::time::TimeSpan)
        ensures
            backoff@ == old(self).inner.backoff_for(attempt as nat),
            old(self).inner.advances_to(attempt as nat, final(self).inner),
            final(self).ty == old(self).ty,
    {
        self.inner.next_backoff(attempt)
    }
}

} // verus!
