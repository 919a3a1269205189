//! The symmetric primitives the library calls: AES-128 (crate `aes`) and
//! BLAKE2s-256 (crate `blake2`).  Their outputs are named, not described.
use vstd::prelude::*;
use aes::Aes128;
use blake2::{Blake2s256, Digest};
use cipher::generic_array::GenericArray;
use cipher::{BlockEncrypt, KeyInit};

verus! {

/// AES-128 encryption of one 16-byte block under a 16-byte key.
pub uninterp spec fn spec_aes128_encrypt(key: Seq<u8>, block: Seq<u8>) -> Seq<u8>;

/// BLAKE2s with 256-bit output of a byte string.
pub uninterp spec fn spec_blake2s256(data: Seq<u8>) -> Seq<u8>;

/// Encrypts one block with `aes::Aes128` keyed by `key` (`KeyInit::new`
/// followed by `BlockEncrypt::encrypt_block`).  The contract only names the
/// result: it is a function of the key and the block.
#[verifier::external_body]
pub(crate) fn aes128_encrypt(key: &[u8; 16], block: &[u8; 16]) -> (r: [u8; 16])
    ensures
        r@ == spec_aes128_encrypt(key@, block@),
{
    let cipher = Aes128::new(GenericArray::from_slice(key));
    let mut b = GenericArray::clone_from_slice(block);
    cipher.encrypt_block(&mut b);
    b.into()
}

/// `Blake2s256::digest` of the input.  The contract names the 32-byte digest
/// as a function of the input; incremental hashing with `update` calls is the
/// digest of the concatenated updates (the `digest` crate's `Update` contract),
/// so callers hash a concatenation.
#[verifier::external_body]
pub(crate) fn blake2s256(data: &[u8]) -> (r: [u8; 32])
    ensures
        r@ == spec_blake2s256(data@),
{
    Blake2s256::digest(data).into()
}

/// Appends bytes to a byte vector.
pub fn push_bytes(v: &mut Vec<u8>, b: &[u8])
    ensures
        final(v)@ == old(v)@ + b@,
{
    let mut i: usize = 0;
    while i < b.len()
        invariant
            i <= b.len(),
            v@ == old(v)@ + b@.subrange(0, i as int),
        decreases b.len() - i,
    {
        v.push(b[i]);
        i = i + 1;
        assert(v@ =~= old(v)@ + b@.subrange(0, i as int));
    }
    assert(b@.subrange(0, b.len() as int) =~= b@);
}

} // verus!
