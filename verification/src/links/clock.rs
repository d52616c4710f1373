//! Instants, counted in nanoseconds since the Unix epoch, and the clock.

use vstd::prelude::*;

verus! {

/// Nanoseconds in a second.
pub const NANOS_PER_SECOND: i128 = 1_000_000_000;

/// The instant `secs` seconds and `subsec_nanos` nanoseconds after the Unix
/// epoch, in nanoseconds.
pub open spec fn instant(secs: int, subsec_nanos: int) -> int {
    secs * 1_000_000_000 + subsec_nanos
}

/// The instant `secs` seconds and `subsec_nanos` nanoseconds after the Unix
/// epoch (as `DateTime::timestamp` and `timestamp_subsec_nanos` give them),
/// in nanoseconds.
pub fn instant_nanos(secs: i64, subsec_nanos: u32) -> (n: i128)
    ensures
        n == instant(secs as int, subsec_nanos as int),
{
    assert(-9_223_372_036_854_775_808_000_000_000 <= secs * 1_000_000_000int <= 9_223_372_036_854_775_807_000_000_000)
        by (nonlinear_arith);
    (secs as i128) * NANOS_PER_SECOND + (subsec_nanos as i128)
}

#[verifier::external_type_specification]
#[verifier::external_body]
pub struct ExtSystemTime(std::time::SystemTime);

/// `SystemTime::now()`: the system clock's reading, which nothing ties to
/// anything.
#[verifier::external_body]
fn system_now() -> std::time::SystemTime {
    std::time::SystemTime::now()
}

/// `t.duration_since(UNIX_EPOCH)` as whole seconds and the nanoseconds
/// below a second: `Ok` with how long after the epoch `t` is, or, when `t`
/// is earlier, `Err` with how long before it (the error's `duration()`).
/// Which span comes out is the clock's; what is stated is that the
/// nanoseconds of a `Duration` are below one second.
#[verifier::external_body]
fn since_epoch(t: std::time::SystemTime) -> (r: Result<(u64, u32), (u64, u32)>)
    ensures
        match r {
            Ok(d) => d.1 < 1_000_000_000,
            Err(d) => d.1 < 1_000_000_000,
        },
{
    match t.duration_since(std::time::UNIX_EPOCH) {
        Ok(d) => Ok((d.as_secs(), d.subsec_nanos())),
        Err(e) => Err((e.duration().as_secs(), e.duration().subsec_nanos())),
    }
}

/// The span of `secs` seconds and `subsec_nanos` nanoseconds, in
/// nanoseconds.
fn span_nanos(secs: u64, subsec_nanos: u32) -> (n: i128)
    requires
        subsec_nanos < 1_000_000_000,
    ensures
        n == instant(secs as int, subsec_nanos as int),
        0 <= n < (u64::MAX as int + 1) * 1_000_000_000,
{
    assert(secs * 1_000_000_000int <= 18_446_744_073_709_551_615_000_000_000) by (nonlinear_arith);
    (secs as i128) * NANOS_PER_SECOND + (subsec_nanos as i128)
}

/// The current instant, in nanoseconds since the Unix epoch: negative when
/// the system clock reads a time before the epoch. Which instant that is,
/// the clock decides.
pub fn now_nanos() -> (n: i128)
    ensures
        -(u64::MAX as int + 1) * 1_000_000_000 < n < (u64::MAX as int + 1) * 1_000_000_000,
{
    match since_epoch(system_now()) {
        Ok((secs, nanos)) => span_nanos(secs, nanos),
        Err((secs, nanos)) => {
            let n = span_nanos(secs, nanos);
            -n
        },
    }
}

} // verus!
