//! The monotonic clock that cooldowns and charge times are measured on.

use vstd::prelude::*;
use web_time::{Duration, Instant};

verus! {

/// `web_time::Instant`, a reading of the monotonic clock. Nothing inside it
/// is visible to the proofs.
#[verifier::external_type_specification]
#[verifier::external_body]
pub struct ExInstant(web_time::Instant);

/// Calls `Instant::now`. The reading depends on when the call is made, so
/// nothing is claimed of it.
#[verifier::external_body]
pub(crate) fn now() -> (reading: Instant) {
    Instant::now()
}

/// Calls `Instant::elapsed`: the time that has passed since `since`. It
/// depends on when the call is made, so nothing is claimed of it.
#[verifier::external_body]
pub(crate) fn elapsed(since: &Instant) -> (passed: Duration) {
    since.elapsed()
}

/// Calls `Duration::as_millis`: the whole milliseconds in `span`. The inside
/// of a `Duration` is not visible to the proofs, so nothing is claimed of
/// the number.
#[verifier::external_body]
pub(crate) fn whole_millis(span: &Duration) -> (ms: u128) {
    span.as_millis()
}

/// The whole milliseconds that have passed since `since`, held at the top
/// of `u64`. They depend on when the call is made, so nothing is claimed.
pub fn millis_since(since: &Instant) -> (ms: u64) {
    let span = elapsed(since);
    held_at_the_top(whole_millis(&span))
}

/// A count of milliseconds as the simulation keeps it: a count too large
/// for 64 bits is held at the largest that fits.
pub open spec fn held(ms: u128) -> u64 {
    if ms > u64::MAX {
        u64::MAX
    } else {
        ms as u64
    }
}

/// Computes [`held`].
pub fn held_at_the_top(ms: u128) -> (kept: u64)
    ensures
        kept == held(ms),
{
    if ms > u64::MAX as u128 {
        u64::MAX
    } else {
        ms as u64
    }
}

} // verus!
