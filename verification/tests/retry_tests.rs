use std::cell::Cell;
use std::convert::Infallible;

use kurlyk::connections::{connection_retry, MAX_CONNECTION_ATTEMPTS};
use kurlyk::retry::backoff_strategy::constant::ConstantBackoff;
use kurlyk::retry::backoff_strategy::exponential::ExponentialBackoff;
use kurlyk::retry::backoff_strategy::linear::LinearBackoff;
use kurlyk::retry::backoff_strategy::no_backoff::NoBackoff;
use kurlyk::retry::backoff_strategy::BackoffStrategy;
use kurlyk::retry::on_retry::OnRetry;
use kurlyk::retry::{retry, Retry, RetryStep};
use kurlyk::time::TimeSpan;

/// Runs a retry to its end, summing the waits it asks for.
fn run<T, E, F, BS, RF>(r: Retry<F, BS, RF>) -> (Result<T, E>, TimeSpan)
where
    F: FnMut() -> Result<T, E>,
    BS: BackoffStrategy,
    RF: OnRetry<E>,
{
    let (mut f, mut run, mut hook) = r.into_parts();
    let mut waited = TimeSpan::zero();
    loop {
        match f() {
            Ok(value) => {
                assert_eq!(run.after_attempt(true), RetryStep::Finish);
                return (Ok(value), waited);
            }
            Err(error) => match run.after_failure(&mut hook, &error) {
                RetryStep::Finish => return (Err(error), waited),
                RetryStep::Wait { backoff, .. } => waited = waited.saturating_add(backoff),
            },
        }
    }
}

fn run_failing<BS: BackoffStrategy>(strategy: BS, max_retries: usize, max_delay: Option<TimeSpan>) -> TimeSpan {
    let attempts = Cell::new(0usize);
    let operation = retry(|| {
        let attempt = attempts.get();
        attempts.set(attempt + 1);
        Err::<Infallible, _>(attempt)
    })
    .with_strategy(strategy)
    .max_retries(max_retries);
    let (result, waited) = match max_delay {
        Some(max_delay) => run(operation.max_delay(max_delay)),
        None => run(operation),
    };
    assert_eq!(result.unwrap_err(), max_retries);
    assert_eq!(attempts.get(), max_retries + 1);
    waited
}

#[test]
fn success() {
    let counter = Cell::new(0usize);
    let (result, _) = run(
        retry(|| {
            let attempt = counter.get();
            counter.set(attempt + 1);
            Ok::<usize, Infallible>(attempt)
        })
        .max_retries(10),
    );
    assert_eq!(result.unwrap(), 0);
}

#[test]
fn stops_on_success() {
    let counter = Cell::new(0usize);
    const MAX_RETRIES: usize = 10;
    const SUCCEED_AFTER: usize = 5;
    let (result, _) = run(
        retry(|| {
            let attempt = counter.get();
            counter.set(attempt + 1);
            if attempt < SUCCEED_AFTER {
                Err("infallible")
            } else {
                Ok(attempt)
            }
        })
        .max_retries(MAX_RETRIES),
    );
    assert_eq!(result.unwrap(), SUCCEED_AFTER);
}

#[test]
fn max_retries_bounds_attempts() {
    let counter = Cell::new(0usize);
    const RETRIES: usize = 10;
    let (result, _) = run(
        retry(|| {
            let attempt = counter.get();
            counter.set(attempt + 1);
            Err::<Infallible, _>(attempt)
        })
        .max_retries(RETRIES),
    );
    assert_eq!(result.unwrap_err(), RETRIES);
    assert_eq!(counter.get(), RETRIES + 1);
}

#[test]
fn zero_retries_runs_once() {
    let counter = Cell::new(0usize);
    let (result, _) = run(
        retry(|| {
            let attempt = counter.get();
            counter.set(attempt + 1);
            Err::<Infallible, _>(attempt)
        })
        .max_retries(0),
    );
    assert_eq!(result.unwrap_err(), 0);
    assert_eq!(counter.get(), 1);
}

#[test]
fn no_backoff() {
    let elapsed = run_failing(NoBackoff {}, 3, None);
    assert_eq!(elapsed, TimeSpan::zero());
}

#[test]
fn constant_backoff() {
    let elapsed = run_failing(ConstantBackoff::from_millis(100), 3, None);
    assert_eq!(elapsed, TimeSpan::from_millis(300));
}

#[test]
fn linear_backoff() {
    let elapsed = run_failing(LinearBackoff::from_millis(100), 3, None);
    assert_eq!(elapsed, TimeSpan::from_millis(600));
}

#[test]
fn exponential_backoff() {
    let elapsed = run_failing(ExponentialBackoff::from_millis(100), 3, None);
    assert_eq!(elapsed, TimeSpan::from_millis(700));
}

#[test]
fn max_delay_caps_each_backoff() {
    let elapsed = run_failing(LinearBackoff::new(TimeSpan::from_millis(100)), 3, Some(TimeSpan::from_millis(150)));
    assert_eq!(elapsed, TimeSpan::from_millis(400));
}

struct Recorder {
    calls: Vec<(usize, TimeSpan, usize)>,
}

impl OnRetry<usize> for Recorder {
    fn on_retry(&mut self, attempt: usize, next_backoff: TimeSpan, error: &usize) {
        self.calls.push((attempt, next_backoff, *error));
    }
}

#[test]
fn hook_is_told_of_each_retry_but_not_the_last_failure() {
    let counter = Cell::new(0usize);
    let r = retry(|| {
        let attempt = counter.get();
        counter.set(attempt + 1);
        Err::<Infallible, _>(attempt)
    })
    .with_strategy(ConstantBackoff::from_millis(10))
    .max_retries(2)
    .on_retry(Recorder { calls: Vec::new() });
    let (mut f, mut run, mut hook) = r.into_parts();
    loop {
        let error = f().unwrap_err();
        if run.after_failure(&mut hook, &error) == RetryStep::Finish {
            break;
        }
    }
    let calls = hook.unwrap().calls;
    assert_eq!(calls, vec![(0, TimeSpan::from_millis(10), 0), (1, TimeSpan::from_millis(10), 1)]);
}

#[test]
fn default_retry_allows_one_retry() {
    let counter = Cell::new(0usize);
    let (result, waited) = run(retry(|| {
        let attempt = counter.get();
        counter.set(attempt + 1);
        Err::<Infallible, _>(attempt)
    }));
    assert_eq!(result.unwrap_err(), 1);
    assert_eq!(waited, TimeSpan::zero());
}

#[test]
fn connection_retry_makes_the_attempts_asked_for() {
    let counter = Cell::new(0usize);
    let (result, waited) = run(connection_retry(
        || {
            let attempt = counter.get();
            counter.set(attempt + 1);
            Err::<Infallible, _>(attempt)
        },
        MAX_CONNECTION_ATTEMPTS,
        TimeSpan::from_millis(125),
    ));
    assert_eq!(result.unwrap_err(), 9);
    assert_eq!(counter.get(), 10);
    // 125 ms doubled nine times: 125 * (2^9 - 1)
    assert_eq!(waited, TimeSpan::from_millis(125 * 511));
}

#[test]
fn connection_retry_attempts_at_least_once() {
    let counter = Cell::new(0usize);
    let (result, _) = run(connection_retry(
        || {
            let attempt = counter.get();
            counter.set(attempt + 1);
            Err::<Infallible, _>(attempt)
        },
        0,
        TimeSpan::from_millis(125),
    ));
    assert_eq!(result.unwrap_err(), 0);
    assert_eq!(counter.get(), 1);
}

#[test]
fn time_span_saturates() {
    let max = TimeSpan::from_secs(u64::MAX);
    assert_eq!(max.saturating_mul(2).as_secs(), u64::MAX);
    assert_eq!(TimeSpan::from_millis(1500).as_secs(), 1);
    assert_eq!(TimeSpan::from_millis(1500).subsec_nanos(), 500_000_000);
    assert_eq!(TimeSpan::from_millis(100).min(TimeSpan::from_millis(50)), TimeSpan::from_millis(50));
}

#[test]
fn exponential_backoff_doubles_whatever_the_attempt() {
    let mut e = ExponentialBackoff::from_millis(100);
    assert_eq!(e.next_backoff(7), TimeSpan::from_millis(100));
    assert_eq!(e.next_backoff(0), TimeSpan::from_millis(200));
    assert_eq!(e.next_backoff(3), TimeSpan::from_millis(400));
    let mut big = ExponentialBackoff::new(TimeSpan::from_secs(u64::MAX / 2 + 1));
    assert_eq!(big.next_backoff(1), TimeSpan::from_secs(u64::MAX / 2 + 1));
    let capped = big.next_backoff(2);
    assert_eq!(big.next_backoff(3), capped);
    assert!(TimeSpan::from_secs(u64::MAX).le(&capped));
}

#[test]
fn adjusted_backoff_is_capped_after_the_adjustment() {
    let counter = Cell::new(0usize);
    let r = retry(|| {
        let attempt = counter.get();
        counter.set(attempt + 1);
        Err::<Infallible, _>(attempt)
    })
    .with_strategy(LinearBackoff::from_millis(100))
    .max_retries(3)
    .max_delay(TimeSpan::from_millis(350))
    .on_retry(Recorder { calls: Vec::new() });
    let (mut f, mut run, mut hook) = r.into_parts();
    let mut waits = Vec::new();
    loop {
        let error = f().unwrap_err();
        match run.after_failure_adjusted(&mut hook, &error, |b: TimeSpan| b.saturating_mul(2)) {
            RetryStep::Finish => break,
            RetryStep::Wait { backoff, .. } => waits.push(backoff),
        }
    }
    // 100, 200, 300 ms doubled to 200, 400, 600 ms, then capped at 350 ms
    let expected = vec![TimeSpan::from_millis(200), TimeSpan::from_millis(350), TimeSpan::from_millis(350)];
    assert_eq!(waits, expected);
    let told: Vec<TimeSpan> = hook.unwrap().calls.iter().map(|c| c.1).collect();
    assert_eq!(told, expected);
}
