//! The clock of the executor, counted in ticks since power-on.
use vstd::prelude::*;

verus! {

/// Ticks in a second, as set for the `embassy-time` crate by its
/// `tick-hz-1_000_000` feature.
pub const TICK_HZ: u64 = 1_000_000;

/// Calls `embassy_time::Duration::from_secs`. Trusted: a second is `TICK_HZ` ticks.
#[verifier::external_body]
fn embassy_from_secs(seconds: u64) -> (ticks: u64)
    requires
        seconds * TICK_HZ <= u64::MAX,
    ensures
        ticks == seconds * TICK_HZ,
{
    embassy_time::Duration::from_secs(seconds).as_ticks()
}

/// Calls `embassy_time::Duration::from_millis`. Trusted: a millisecond is the
/// thousandth part of `TICK_HZ` ticks.
#[verifier::external_body]
fn embassy_from_millis(millis: u64) -> (ticks: u64)
    requires
        millis * (TICK_HZ / 1000) <= u64::MAX,
    ensures
        ticks == millis * (TICK_HZ / 1000),
{
    embassy_time::Duration::from_millis(millis).as_ticks()
}

/// Whether `seconds` have passed from the reading `since` of the clock to the
/// reading `now`.
pub fn seconds_passed(now: u64, since: u64, seconds: u64) -> (passed: bool)
    requires
        since <= now,
        seconds * TICK_HZ <= u64::MAX,
    ensures
        passed == (now - since >= seconds * TICK_HZ),
{
    now - since >= embassy_from_secs(seconds)
}

/// Whether `millis` milliseconds have passed from the reading `since` of the
/// clock to the reading `now`.
pub fn millis_passed(now: u64, since: u64, millis: u64) -> (passed: bool)
    requires
        since <= now,
        millis * (TICK_HZ / 1000) <= u64::MAX,
    ensures
        passed == (now - since >= millis * (TICK_HZ / 1000)),
{
    now - since >= embassy_from_millis(millis)
}

} // verus!
