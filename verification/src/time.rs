//! The two calls into `std::time::Duration` that the library makes. The type
//! itself is known to Verus only as an opaque value.

use std::time::Duration;
use vstd::prelude::*;

verus! {

/// What `Duration::from_millis` returns for `ms` milliseconds.
pub uninterp spec fn millis_duration(ms: u64) -> Duration;

/// What `Duration::as_millis` returns: the whole milliseconds in `d`.
pub uninterp spec fn whole_millis(d: Duration) -> u128;

/// Calls `Duration::from_millis`. Trusted: the result is named
/// `millis_duration(ms)`, and it holds exactly `ms` whole milliseconds, as
/// the documentation of `from_millis` and `as_millis` states.
#[verifier::external_body]
pub(crate) fn duration_from_millis(ms: u64) -> (d: Duration)
    ensures
        d == millis_duration(ms),
        whole_millis(d) == ms,
{
    Duration::from_millis(ms)
}

/// Calls `Duration::as_millis`. Trusted: the result is named
/// `whole_millis(d)`, and a duration made from `ms` milliseconds holds
/// exactly `ms` whole milliseconds, as the documentation of both functions
/// states.
#[verifier::external_body]
pub(crate) fn duration_as_millis(d: &Duration) -> (r: u128)
    ensures
        r == whole_millis(*d),
        forall|ms: u64| *d == millis_duration(ms) ==> r == ms,
{
    d.as_millis()
}

} // verus!
