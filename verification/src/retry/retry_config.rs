use vstd::prelude::*;

use crate::retry::backoff_strategy::{no_backoff::NoBackoff, BackoffStrategy};
use crate::time::TimeSpan;

verus! {

/// How often to retry and how long to wait in between.
pub struct RetryConfig<BS> {
    pub backoff_strategy: BS,
    pub max_delay: Option<TimeSpan>,
    pub max_retries: usize,
}

impl<BS> RetryConfig<BS> {
    pub fn with_strategy<NewBS: BackoffStrategy>(self, backoff_strategy: NewBS) -> (c: RetryConfig<NewBS>)
        ensures
            c.backoff_strategy == backoff_strategy,
            c.max_delay == self.max_delay,
            c.max_retries == self.max_retries,
    {
        RetryConfig { backoff_strategy, max_delay: self.max_delay, max_retries: self.max_retries }
    }
}

impl Default for RetryConfig<NoBackoff> {
    fn default() -> (c: Self)
        ensures
            c.max_delay is None,
            c.max_retries == 1,
    {
        Self { backoff_strategy: NoBackoff {  }, max_delay: None, max_retries: 1 }
    }
}

} // verus!
