//! The store's monotonic clock: a trusted edge around `std::time::Instant`.
//! Instants are opaque to the verifier; a store carries the origin instant
//! it was created at and measures every later reading against it, so the
//! clock can never move backward under wall-clock adjustments.

use vstd::prelude::*;

verus! {

/// `std::time::Instant` is declared here so a store can carry the origin
/// of its monotonic clock; its values are opaque to the verifier.
#[verifier::external_type_specification]
#[verifier::external_body]
pub struct ExInstant(std::time::Instant);

/// Relies on `std::time::Instant::now`: a reading of the monotonic clock.
/// Nothing is promised of the result; which instant comes back depends on
/// when the call runs.
#[verifier::external_body]
pub(crate) fn now_instant() -> std::time::Instant {
    std::time::Instant::now()
}

/// Relies on `std::time::Instant::elapsed`: the time since `origin` on the
/// monotonic clock, in whole milliseconds. Nothing is promised of the
/// result; it depends on when the call runs.
#[verifier::external_body]
pub(crate) fn elapsed_millis(origin: &std::time::Instant) -> u64 {
    origin.elapsed().as_millis() as u64
}

} // verus!
