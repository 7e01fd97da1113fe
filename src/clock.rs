use vstd::prelude::*;

verus! {

#[verifier::external_type_specification]
#[verifier::external_body]
pub struct ExInstant(std::time::Instant);

/// Relies on std::time::Instant::now.
#[verifier::external_body]
pub(crate) fn now() -> std::time::Instant {
    std::time::Instant::now()
}

/// Relies on std::time::Instant::elapsed: milliseconds since `start`.
#[verifier::external_body]
pub(crate) fn elapsed_ms(start: &std::time::Instant) -> u128 {
    start.elapsed().as_millis()
}

} // verus!
