use vstd::prelude::*;

verus! {

/// std's monotonic clock reading, carried through as an opaque value.
#[verifier::external_type_specification]
#[verifier::external_body]
pub struct ExInstant(std::time::Instant);

/// Calls `std::time::Instant::now`. Nothing is claimed of the reading: it
/// depends on the clock.
#[verifier::external_body]
pub(crate) fn instant_now() -> std::time::Instant {
    std::time::Instant::now()
}

/// `Instant` is `Copy`; its `Clone::clone` (std documents `Clone` on `Copy`
/// types as a bitwise copy) gives back the same reading.
pub assume_specification[ <std::time::Instant as Clone>::clone ](instant: &std::time::Instant) -> (copy: std::time::Instant)
    ensures
        copy == *instant,
;

} // verus!
