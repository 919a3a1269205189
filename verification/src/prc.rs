//! A pseudorandom code: a 16-byte block encoded as its encryptions under
//! four AES-128 keys.
use vstd::prelude::*;
use crate::crypto::{aes128_encrypt, spec_aes128_encrypt};

verus! {

/// Four AES-128 keys.
pub struct PseudorandomCode {
    keys: [[u8; 16]; 4],
}

impl PseudorandomCode {
    /// The i-th key.
    pub closed spec fn key(self, i: int) -> Seq<u8> {
        self.keys[i]@
    }

    /// The code with keys k1, k2, k3, k4.
    pub fn new(k1: [u8; 16], k2: [u8; 16], k3: [u8; 16], k4: [u8; 16]) -> (r: Self)
        ensures
            r.key(0) == k1@,
            r.key(1) == k2@,
            r.key(2) == k3@,
            r.key(3) == k4@,
    {
        PseudorandomCode { keys: [k1, k2, k3, k4] }
    }

    /// Writes the encryptions of m under the four keys to `out`, in order.
    pub fn encode(&self, m: [u8; 16], out: &mut [[u8; 16]; 4])
        ensures
            forall|i: int| 0 <= i < 4 ==> #[trigger] final(out)[i]@ == spec_aes128_encrypt(self.key(i), m@),
    {
        out[0] = aes128_encrypt(&self.keys[0], &m);
        out[1] = aes128_encrypt(&self.keys[1], &m);
        out[2] = aes128_encrypt(&self.keys[2], &m);
        out[3] = aes128_encrypt(&self.keys[3], &m);
    }
}

} // verus!
