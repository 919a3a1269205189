//! Randomness from the thread-local generator of `rand`.
use vstd::prelude::*;
use rand::{Rng, RngCore};

verus! {

/// `rand::thread_rng().gen_range(0..=upper)`: a value in 0..=upper; which
/// one depends on the generator.
#[verifier::external_body]
pub(crate) fn random_index(upper: usize) -> (r: usize)
    ensures
        r <= upper,
{
    rand::thread_rng().gen_range(0..=upper)
}

/// `rand::thread_rng().fill_bytes` on 32 bytes: nothing is stated of them.
#[verifier::external_body]
pub(crate) fn random_bytes32() -> (r: [u8; 32]) {
    let mut b = [0u8; 32];
    rand::thread_rng().fill_bytes(&mut b);
    b
}

/// `rand::thread_rng().fill_bytes` on 16 bytes: nothing is stated of them.
#[verifier::external_body]
pub(crate) fn random_bytes16() -> (r: [u8; 16]) {
    let mut b = [0u8; 16];
    rand::thread_rng().fill_bytes(&mut b);
    b
}

} // verus!
