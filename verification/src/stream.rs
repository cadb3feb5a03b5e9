//! The seeded random stream behind the generator: rand_chacha's ChaCha20
//! generator, declared for the verifier and reached through small trusted
//! wrappers. Nothing is assumed of the drawn values themselves; every
//! property of the generated transaction is proved for every outcome.

use vstd::prelude::*;

verus! {

#[verifier::external_type_specification]
#[verifier::external_body]
pub struct ExChaCha20Rng(rand_chacha::ChaCha20Rng);

/// Relies on rand_core's `Rng::next_u32` for `ChaCha20Rng`: advances the
/// stream and returns its next 32-bit word.
#[verifier::external_body]
pub(crate) fn stream_next_u32(rng: &mut rand_chacha::ChaCha20Rng) -> u32 {
    rand::Rng::next_u32(rng)
}

/// Relies on rand_core's `Rng::next_u64` for `ChaCha20Rng`: advances the
/// stream and returns its next 64-bit word.
#[verifier::external_body]
pub(crate) fn stream_next_u64(rng: &mut rand_chacha::ChaCha20Rng) -> u64 {
    rand::Rng::next_u64(rng)
}

/// Relies on rand_core's `Rng::fill_bytes` for `ChaCha20Rng`: fills the
/// whole buffer with drawn bytes, advancing the stream.
#[verifier::external_body]
pub(crate) fn stream_bytes(rng: &mut rand_chacha::ChaCha20Rng, n: usize) -> (r: Vec<u8>)
    ensures
        r@.len() == n,
{
    let mut buf = vec![0u8; n];
    rand::Rng::fill_bytes(rng, buf.as_mut_slice());
    buf
}

} // verus!
