//! Retrying a fallible operation with a configurable backoff.
//!
//! A [`Retry`] is built with [`retry`] and the builder methods. Running it is a
//! loop that alternates calling the operation and waiting: the decisions of
//! that loop are made by [`RetryRun::after_attempt`], while the caller performs
//! the calls and the waits.

pub mod backoff_strategy;
pub mod on_retry;
pub mod retry_config;

use vstd::prelude::*;

use crate::retry::backoff_strategy::{no_backoff::NoBackoff, BackoffStrategy};
use crate::retry::on_retry::{NoopOnRetry, OnRetry};
use crate::retry::retry_config::RetryConfig;
use crate::time::TimeSpan;

verus! {

/// An operation `f` to be attempted, with its retry policy and an optional
/// hook called before each wait.
pub struct Retry<F, BS, RF> {
    f: F,
    config: RetryConfig<BS>,
    on_retry: Option<RF>,
}

/// The backoff actually waited: the strategy's backoff, capped by `max_delay`.
pub open spec fn capped_backoff(max_delay: Option<TimeSpan>, backoff: nat) -> nat {
    match max_delay {
        Some(max) => if max@ <= backoff { max@ } else { backoff },
        None => backoff,
    }
}

impl<F, BS, RF> Retry<F, BS, RF> {
    /// The operation to attempt.
    pub closed spec fn operation(self) -> F {
        self.f
    }

    /// The retry policy.
    pub closed spec fn config(self) -> RetryConfig<BS> {
        self.config
    }

    /// The hook called before each wait.
    pub closed spec fn hook(self) -> Option<RF> {
        self.on_retry
    }

    pub fn max_retries(self, max_attempts: usize) -> (r: Self)
        ensures
            r.config().max_retries == max_attempts,
            r.config().max_delay == self.config().max_delay,
            r.config().backoff_strategy == self.config().backoff_strategy,
            r.operation() == self.operation(),
            r.hook() == self.hook(),
    {
        let mut s = self;
        s.config.max_retries = max_attempts;
        s
    }

    pub fn max_delay(self, max_delay: TimeSpan) -> (r: Self)
        ensures
            r.config().max_delay == Some(max_delay),
            r.config().max_retries == self.config().max_retries,
            r.config().backoff_strategy == self.config().backoff_strategy,
            r.operation() == self.operation(),
            r.hook() == self.hook(),
    {
        let mut s = self;
        s.config.max_delay = Some(max_delay);
        s
    }

    pub fn with_strategy<NewBS: BackoffStrategy>(self, strategy: NewBS) -> (r: Retry<F, NewBS, RF>)
        ensures
            r.config().backoff_strategy == strategy,
            r.config().max_delay == self.config().max_delay,
            r.config().max_retries == self.config().max_retries,
            r.operation() == self.operation(),
            r.hook() == self.hook(),
    {
        let config = self.config.with_strategy(strategy);
        Retry { f: self.f, config, on_retry: self.on_retry }
    }

    pub fn with_config(self, config: RetryConfig<BS>) -> (r: Retry<F, BS, RF>)
        ensures
            r.config() == config,
            r.operation() == self.operation(),
            r.hook() == self.hook(),
    {
        Retry { f: self.f, config, on_retry: self.on_retry }
    }

    pub fn on_retry<NewRF>(self, on_retry: NewRF) -> (r: Retry<F, BS, NewRF>)
        ensures
            r.hook() == Some(on_retry),
            r.config() == self.config(),
            r.operation() == self.operation(),
    {
        Retry { f: self.f, config: self.config, on_retry: Some(on_retry) }
    }

    /// Splits the retry into the operation, the run that decides after each
    /// attempt, and the hook.
    pub fn into_parts(self) -> (parts: (F, RetryRun<BS>, Option<RF>))
        ensures
            parts.0 == self.operation(),
            parts.1.config() == self.config(),
            parts.1.attempt() == 0,
            parts.2 == self.hook(),
    {
        (self.f, RetryRun { config: self.config, attempt: 0 }, self.on_retry)
    }
}

/// Starts a retry of `f` with the default policy: one retry, no backoff.
pub fn retry<F>(f: F) -> (r: Retry<F, NoBackoff, NoopOnRetry>)
    ensures
        r.operation() == f,
        r.config().max_retries == 1,
        r.config().max_delay is None,
        r.hook() is None,
{
    Retry { f, config: RetryConfig::default(), on_retry: None::<NoopOnRetry> }
}

/// Whether `after` is the hook `before` once told, a single time, that
/// attempt `attempt` failed with `error` and `backoff` will be waited; with
/// no hook, there is none after either.
pub open spec fn told_once<E, RF: OnRetry<E>>(
    before: Option<RF>,
    attempt: usize,
    backoff: TimeSpan,
    error: E,
    after: Option<RF>,
) -> bool {
    match before {
        Some(h) => after matches Some(h2) && h.told(attempt, backoff, error, h2),
        None => after is None,
    }
}

/// What to do after an attempt.
#[derive(Debug, PartialEq, Eq)]
pub enum RetryStep {
    /// Return the outcome of the attempt just made.
    Finish,
    /// Report that attempt `attempt` failed, wait `backoff`, then attempt again.
    Wait { attempt: usize, backoff: TimeSpan },
}

/// The state of a running retry: its policy and the number of the attempt
/// being made, counted from zero.
pub struct RetryRun<BS> {
    config: RetryConfig<BS>,
    attempt: usize,
}

impl<BS> RetryRun<BS> {
    /// The policy, including the current state of its backoff strategy.
    pub closed spec fn config(self) -> RetryConfig<BS> {
        self.config
    }

    /// The number of the attempt being made, counted from zero.
    pub closed spec fn attempt(self) -> nat {
        self.attempt as nat
    }

    /// The number of the attempt being made, counted from zero.
    pub fn current_attempt(&self) -> (a: usize)
        ensures
            a == self.attempt(),
    {
        self.attempt
    }
}

impl<BS: BackoffStrategy> RetryRun<BS> {
    /// Decides what follows an attempt that `succeeded` or failed: a success
    /// and the last allowed failure end the run; any other failure waits the
    /// strategy's backoff for the next attempt, capped by `max_delay`.
    pub fn after_attempt(&mut self, succeeded: bool) -> (step: RetryStep)
        requires
            old(self).attempt() <= old(self).config().max_retries,
        ensures
            final(self).attempt() <= final(self).config().max_retries,
            final(self).config().max_retries == old(self).config().max_retries,
            final(self).config().max_delay == old(self).config().max_delay,
            succeeded || old(self).attempt() == old(self).config().max_retries ==> {
                &&& step == RetryStep::Finish
                &&& *final(self) == *old(self)
            },
            !succeeded && old(self).attempt() < old(self).config().max_retries ==> {
                &&& step matches RetryStep::Wait { attempt, backoff } && attempt == old(self).attempt()
                    && backoff@ == capped_backoff(
                        old(self).config().max_delay,
                        old(self).config().backoff_strategy.backoff_for(old(self).attempt() + 1),
                    )
                &&& final(self).attempt() == old(self).attempt() + 1
                &&& old(self).config().backoff_strategy.advances_to(
                    old(self).attempt() + 1,
                    final(self).config().backoff_strategy,
                )
            },
    {
        if succeeded || self.attempt >= self.config.max_retries {
            return RetryStep::Finish;
        }
        let attempt = self.attempt;
        let strategy_backoff = self.config.backoff_strategy.next_backoff(attempt + 1);
        let backoff = match self.config.max_delay {
            Some(max) => max.min(strategy_backoff),
            None => strategy_backoff,
        };
        self.attempt = attempt + 1;
        RetryStep::Wait { attempt, backoff }
    }

    /// Decides what follows a failed attempt, as `after_attempt` does, and
    /// tells `hook`, when there is one, of a retry that is due.
    pub fn after_failure<E, RF: OnRetry<E>>(&mut self, hook: &mut Option<RF>, error: &E) -> (step: RetryStep)
        requires
            old(self).attempt() <= old(self).config().max_retries,
        ensures
            final(self).attempt() <= final(self).config().max_retries,
            final(self).config().max_retries == old(self).config().max_retries,
            final(self).config().max_delay == old(self).config().max_delay,
            old(self).attempt() == old(self).config().max_retries ==> {
                &&& step == RetryStep::Finish
                &&& *final(self) == *old(self)
                &&& *final(hook) == *old(hook)
            },
            old(self).attempt() < old(self).config().max_retries ==> {
                &&& step matches RetryStep::Wait { attempt, backoff } && attempt == old(self).attempt()
                    && backoff@ == capped_backoff(
                        old(self).config().max_delay,
                        old(self).config().backoff_strategy.backoff_for(old(self).attempt() + 1),
                    ) && told_once(*old(hook), attempt, backoff, *error, *final(hook))
                &&& final(self).attempt() == old(self).attempt() + 1
                &&& old(self).config().backoff_strategy.advances_to(
                    old(self).attempt() + 1,
                    final(self).config().backoff_strategy,
                )
            },
    {
        let step = self.after_attempt(false);
        match &step {
            RetryStep::Wait { attempt, backoff } => {
                match hook {
                    Some(h) => h.on_retry(*attempt, *backoff, error),
                    None => {},
                }
            },
            RetryStep::Finish => {},
        }
        step
    }

    /// Decides what follows a failed attempt, as `after_failure` does, but
    /// passes the strategy's backoff through `adjust` (a random jitter, say)
    /// before capping it by `max_delay`; the hook is told of the wait that
    /// results.
    pub fn after_failure_adjusted<E, RF: OnRetry<E>, J: Fn(TimeSpan) -> TimeSpan>(
        &mut self,
        hook: &mut Option<RF>,
        error: &E,
        adjust: J,
    ) -> (step: RetryStep)
        requires
            old(self).attempt() <= old(self).config().max_retries,
            forall|t: TimeSpan| adjust.requires((t,)),
        ensures
            final(self).attempt() <= final(self).config().max_retries,
            final(self).config().max_retries == old(self).config().max_retries,
            final(self).config().max_delay == old(self).config().max_delay,
            old(self).attempt() == old(self).config().max_retries ==> {
                &&& step == RetryStep::Finish
                &&& *final(self) == *old(self)
                &&& *final(hook) == *old(hook)
            },
            old(self).attempt() < old(self).config().max_retries ==> {
                &&& step matches RetryStep::Wait { attempt, backoff } && attempt == old(self).attempt() && (exists|
                    raw: TimeSpan,
                    adjusted: TimeSpan,
                |
                    raw@ == old(self).config().backoff_strategy.backoff_for(old(self).attempt() + 1) && #[trigger] adjust.ensures(
                        (raw,),
                        adjusted,
                    ) && backoff@ == capped_backoff(old(self).config().max_delay, adjusted@))
                    && told_once(*old(hook), attempt, backoff, *error, *final(hook))
                &&& final(self).attempt() == old(self).attempt() + 1
                &&& old(self).config().backoff_strategy.advances_to(
                    old(self).attempt() + 1,
                    final(self).config().backoff_strategy,
                )
            },
    {
        if self.attempt >= self.config.max_retries {
            return RetryStep::Finish;
        }
        let attempt = self.attempt;
        let raw = self.config.backoff_strategy.next_backoff(attempt + 1);
        let adjusted = adjust(raw);
        let backoff = match self.config.max_delay {
            Some(max) => max.min(adjusted),
            None => adjusted,
        };
        self.attempt = attempt + 1;
        match hook {
            Some(h) => h.on_retry(attempt, backoff, error),
            None => {},
        }
        RetryStep::Wait { attempt, backoff }
    }
}

} // verus!
