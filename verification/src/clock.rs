//! The search engine's wall clock: the timeout is checked against a
//! monotonic instant taken when the search starts.  Nothing is promised
//! of the values — elapsed time depends on the machine — so the engine's
//! contracts never rely on them; the timeout only decides when the
//! search gives up.

use vstd::prelude::*;

verus! {

#[verifier::external_type_specification]
#[verifier::external_body]
pub struct ExInstant(std::time::Instant);

/// Relies on `std::time::Instant::now`: an opaque monotonic timestamp.
#[verifier::external_body]
pub fn now_instant() -> std::time::Instant {
    std::time::Instant::now()
}

/// Relies on `std::time::Instant::elapsed`: whole seconds since `start`;
/// the value depends on the wall clock, so nothing is stated of it.
#[verifier::external_body]
pub fn elapsed_secs(start: &std::time::Instant) -> u64 {
    start.elapsed().as_secs()
}

} // verus!
