//! The source of random bytes for the `Rand` instruction.

use rand::rngs::StdRng;
use rand::Rng;
use vstd::prelude::*;

verus! {

/// `rand::rngs::StdRng`, the seedable generator the host hands to the
/// machine. Nothing is known of what a value of it holds.
#[verifier::external_type_specification]
#[verifier::external_body]
pub struct ExStdRng(rand::rngs::StdRng);

/// Draws one byte with `rand::Rng::random`. Nothing is promised of the
/// byte: any of the 256 values may come back, and the generator moves on.
#[verifier::external_body]
pub(crate) fn random_byte(rng: &mut StdRng) -> (random: u8) {
    rng.random()
}

} // verus!
