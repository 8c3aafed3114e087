//! Randomness, from the rand crate's thread-local generator.

use vstd::prelude::*;

use rand::RngCore;

verus! {

/// Relies on rand::thread_rng: a random number; nothing is known of it.
#[verifier::external_body]
pub(crate) fn random_u64() -> u64 {
    rand::thread_rng().next_u64()
}

/// Relies on rand::thread_rng and RngCore::fill_bytes: 64 random bytes;
/// nothing is known of them.
#[verifier::external_body]
pub(crate) fn random_report_data() -> [u8; 64] {
    let mut data = [0u8; 64];
    rand::thread_rng().fill_bytes(&mut data);
    data
}

} // verus!
