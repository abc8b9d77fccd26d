//! The crate's one source of randomness: `rand`'s thread-local generator,
//! carried as an opaque handle.

use vstd::prelude::*;

verus! {

#[verifier::external_type_specification]
#[verifier::external_body]
pub struct ExThreadRng(rand::rngs::ThreadRng);

/// Relies on `rand::RngCore::next_u32` for `rand::rngs::ThreadRng`: it
/// returns a pseudo-random 32-bit value; nothing is promised of the value.
#[verifier::external_body]
pub(crate) fn next_random_u32(rng: &mut rand::rngs::ThreadRng) -> u32 {
    rand::RngCore::next_u32(rng)
}

} // verus!
