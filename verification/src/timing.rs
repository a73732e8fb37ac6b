//! Time values taken from the standard library and the clock.
use vstd::prelude::*;
use std::time::Duration;

verus! {

/// What `Duration::from_millis` gives for `ms` milliseconds.
pub uninterp spec fn duration_of_millis(ms: u64) -> Duration;

/// What `Duration::from_secs` gives for `secs` seconds.
pub uninterp spec fn duration_of_secs(n: u64) -> Duration;

/// A span of `ms` milliseconds (`Duration::from_millis`).
#[verifier::external_body]
pub fn millis(ms: u64) -> (d: Duration)
    ensures
        d == duration_of_millis(ms),
{
    Duration::from_millis(ms)
}

/// A span of `secs` seconds (`Duration::from_secs`).
#[verifier::external_body]
pub fn seconds(n: u64) -> (d: Duration)
    ensures
        d == duration_of_secs(n),
{
    Duration::from_secs(n)
}

} // verus!
