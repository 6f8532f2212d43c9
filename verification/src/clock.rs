//! The session clock: one start instant, read through elapsed-time queries.

use vstd::prelude::*;

verus! {

/// `std::time::Instant`, of which the verifier sees nothing but the name.
#[verifier::external_type_specification]
#[verifier::external_body]
pub struct ExInstant(std::time::Instant);

/// `std::time::Instant::now`: the moment of the call. Nothing is claimed of it.
#[verifier::external_body]
pub(crate) fn now() -> std::time::Instant {
    std::time::Instant::now()
}

/// `std::time::Instant::elapsed`: the time gone by since `start`. Nothing is
/// claimed of it.
#[verifier::external_body]
pub(crate) fn elapsed(start: &std::time::Instant) -> std::time::Duration {
    start.elapsed()
}

/// `std::time::Duration::as_nanos`: the whole nanoseconds in `span`. Nothing
/// is claimed of the number.
#[verifier::external_body]
pub(crate) fn whole_nanos(span: &std::time::Duration) -> u128 {
    span.as_nanos()
}

} // verus!
