//! The policy for connecting to Postgres and Redis: repeated attempts with
//! an exponentially growing backoff.

use vstd::prelude::*;
use vstd::string::*;

use crate::retry::backoff_strategy::exponential::ExponentialBackoff;
use crate::retry::backoff_strategy::jitter::JitterTy;
use crate::retry::on_retry::NoopOnRetry;
use crate::retry::{retry, Retry};
use crate::time::TimeSpan;

verus! {

/// The attempts made to connect before giving up.
pub const MAX_CONNECTION_ATTEMPTS: usize = 10;

/// The first wait between two connection attempts, in milliseconds.
pub const INITIAL_BACKOFF_MILLIS: u64 = 125;

/// How the waits between connection attempts are randomised.
pub fn connection_jitter() -> (j: JitterTy)
    ensures
        j == JitterTy::Equal,
{
    JitterTy::Equal
}

/// The retry of a connection `operation`: `max_attempts` attempts in all
/// (at least one), waiting an exponentially growing backoff that starts at
/// `initial_backoff`, with no cap.
pub fn connection_retry<F>(operation: F, max_attempts: usize, initial_backoff: TimeSpan) -> (r: Retry<
    F,
    ExponentialBackoff,
    NoopOnRetry,
>)
    ensures
        r.operation() == operation,
        r.config().max_retries == (if max_attempts >= 1 { max_attempts } else { 1 }) - 1,
        r.config().max_delay is None,
        r.config().backoff_strategy.backoff() == initial_backoff,
        r.hook() is None,
{
    let attempts = if max_attempts >= 1 { max_attempts } else { 1 };
    retry(operation).with_strategy(ExponentialBackoff::new(initial_backoff)).max_retries(attempts - 1)
}

/// The error reported when connecting to `service` failed with `error`.
pub fn connection_failed_message(service: &str, error: &str) -> (m: String)
    ensures
        m@ == "Failed to connect to "@ + service@ + ": "@ + error@,
{
    let mut m = String::from_str("Failed to connect to ");
    m.append(service);
    m.append(": ");
    m.append(error);
    m
}

} // verus!
