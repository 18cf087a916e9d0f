//! Moments in time, as the standard library's monotonic clock gives them.
use std::time::Duration;
use std::time::Instant;
use vstd::prelude::*;

verus! {

/// The standard library's monotonic instant, carried through unopened.
#[verifier::external_type_specification]
#[verifier::external_body]
pub struct ExInstant(Instant);

/// `Instant` is `Copy`, so its `clone` gives back the same instant.
pub assume_specification[ <std::time::Instant as std::clone::Clone>::clone ](i: &std::time::Instant) -> (r: std::time::Instant)
    ensures
        r == *i,
;

/// Calls `Instant::now`. Nothing is claimed of the moment it returns: it
/// depends on the clock.
#[verifier::external_body]
pub fn instant_now() -> (r: Instant) {
    Instant::now()
}

/// Calls `Instant::elapsed`. Nothing is claimed of the duration it returns:
/// it depends on the clock.
#[verifier::external_body]
pub fn elapsed_since(start: &Instant) -> (r: Duration) {
    start.elapsed()
}

/// Calls `Duration::as_millis`, the number of whole milliseconds in a duration.
/// Nothing is claimed of the number: the duration is not opened here.
#[verifier::external_body]
pub fn whole_millis(duration: &Duration) -> (r: u128) {
    duration.as_millis()
}

/// The whole milliseconds that have passed since `start`, cut to 64 bits.
pub fn millis_since(start: &Instant) -> (r: u64) {
    let elapsed = elapsed_since(start);
    let millis = whole_millis(&elapsed);
    millis as u64
}

} // verus!
