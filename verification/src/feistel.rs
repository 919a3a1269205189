//! A 256-bit pseudorandom permutation: a 3-round Feistel network on two
//! 16-byte halves whose round function is AES-128 keyed by a round key,
//! applied to the half XOR the round key.
use vstd::prelude::*;
use crate::crypto::{aes128_encrypt, spec_aes128_encrypt};

verus! {

/// Byte-wise XOR of two 16-byte strings.
pub open spec fn xor16(a: Seq<u8>, b: Seq<u8>) -> Seq<u8> {
    Seq::new(16, |i: int| a[i] ^ b[i])
}

/// The round function F_k(x) = AES_k(x XOR k).
pub open spec fn round_f(rk: Seq<u8>, x: Seq<u8>) -> Seq<u8> {
    spec_aes128_encrypt(rk, xor16(x, rk))
}

/// One encryption round: (L, R) -> (R, L XOR F(R)).
pub open spec fn enc_round(rk: Seq<u8>, l: Seq<u8>, r: Seq<u8>) -> (Seq<u8>, Seq<u8>) {
    (r, xor16(l, round_f(rk, r)))
}

/// One decryption round: (L, R) -> (R XOR F(L), L).
pub open spec fn dec_round(rk: Seq<u8>, l: Seq<u8>, r: Seq<u8>) -> (Seq<u8>, Seq<u8>) {
    (xor16(r, round_f(rk, l)), l)
}

/// Encryption rounds with keys[0], ..., keys[k-1], in that order.
pub open spec fn enc_rounds(keys: Seq<Seq<u8>>, k: nat, l: Seq<u8>, r: Seq<u8>) -> (Seq<u8>, Seq<u8>)
    decreases k,
{
    if k == 0 {
        (l, r)
    } else {
        let prev = enc_rounds(keys, (k - 1) as nat, l, r);
        enc_round(keys[k - 1], prev.0, prev.1)
    }
}

/// Decryption rounds with keys[k-1], ..., keys[0], in that order.
pub open spec fn dec_rounds(keys: Seq<Seq<u8>>, k: nat, l: Seq<u8>, r: Seq<u8>) -> (Seq<u8>, Seq<u8>)
    decreases k,
{
    if k == 0 {
        (l, r)
    } else {
        let next = dec_round(keys[k - 1], l, r);
        dec_rounds(keys, (k - 1) as nat, next.0, next.1)
    }
}

/// The permutation on a 32-byte block (left half = bytes 0..16).
pub open spec fn feistel_encrypt(keys: Seq<Seq<u8>>, b: Seq<u8>) -> Seq<u8> {
    let out = enc_rounds(keys, 3, b.subrange(0, 16), b.subrange(16, 32));
    out.0 + out.1
}

/// The inverse permutation on a 32-byte block.
pub open spec fn feistel_decrypt(keys: Seq<Seq<u8>>, b: Seq<u8>) -> Seq<u8> {
    let out = dec_rounds(keys, 3, b.subrange(0, 16), b.subrange(16, 32));
    out.0 + out.1
}

/// The round keys derived from a master key: AES_master([i || 0..0]) for i = 1, 2, 3.
pub open spec fn prp_keys(master: Seq<u8>) -> Seq<Seq<u8>> {
    seq![
        spec_aes128_encrypt(master, key_index_block(1)),
        spec_aes128_encrypt(master, key_index_block(2)),
        spec_aes128_encrypt(master, key_index_block(3)),
    ]
}

/// The 16-byte block [i, 0, ..., 0] from which round key i is derived.
pub open spec fn key_index_block(i: u8) -> Seq<u8> {
    Seq::new(16, |j: int| if j == 0 { i } else { 0u8 })
}

proof fn lemma_xor16_twice(a: Seq<u8>, f: Seq<u8>)
    requires
        a.len() == 16,
    ensures
        xor16(xor16(a, f), f) == a,
{
    assert forall|i: int| 0 <= i < 16 implies #[trigger] xor16(xor16(a, f), f)[i] == a[i] by {
        let x: u8 = a[i];
        let y: u8 = f[i];
        assert((x ^ y) ^ y == x) by (bit_vector);
    }
    assert(xor16(xor16(a, f), f) =~= a);
}

proof fn lemma_enc_rounds_len(keys: Seq<Seq<u8>>, k: nat, l: Seq<u8>, r: Seq<u8>)
    requires
        l.len() == 16,
        r.len() == 16,
    ensures
        enc_rounds(keys, k, l, r).0.len() == 16,
        enc_rounds(keys, k, l, r).1.len() == 16,
    decreases k,
{
    if k > 0 {
        lemma_enc_rounds_len(keys, (k - 1) as nat, l, r);
    }
}

proof fn lemma_dec_rounds_len(keys: Seq<Seq<u8>>, k: nat, l: Seq<u8>, r: Seq<u8>)
    requires
        l.len() == 16,
        r.len() == 16,
    ensures
        dec_rounds(keys, k, l, r).0.len() == 16,
        dec_rounds(keys, k, l, r).1.len() == 16,
    decreases k,
{
    if k > 0 {
        let next = dec_round(keys[k - 1], l, r);
        lemma_dec_rounds_len(keys, (k - 1) as nat, next.0, next.1);
    }
}

proof fn lemma_dec_enc_rounds(keys: Seq<Seq<u8>>, k: nat, l: Seq<u8>, r: Seq<u8>)
    requires
        l.len() == 16,
        r.len() == 16,
    ensures
        ({
            let e = enc_rounds(keys, k, l, r);
            dec_rounds(keys, k, e.0, e.1) == (l, r)
        }),
    decreases k,
{
    if k > 0 {
        let prev = enc_rounds(keys, (k - 1) as nat, l, r);
        lemma_enc_rounds_len(keys, (k - 1) as nat, l, r);
        lemma_xor16_twice(prev.0, round_f(keys[k - 1], prev.1));
        lemma_dec_enc_rounds(keys, (k - 1) as nat, l, r);
    }
}

proof fn lemma_enc_dec_rounds(keys: Seq<Seq<u8>>, k: nat, l: Seq<u8>, r: Seq<u8>)
    requires
        l.len() == 16,
        r.len() == 16,
    ensures
        ({
            let d = dec_rounds(keys, k, l, r);
            enc_rounds(keys, k, d.0, d.1) == (l, r)
        }),
    decreases k,
{
    if k > 0 {
        let next = dec_round(keys[k - 1], l, r);
        lemma_enc_dec_rounds(keys, (k - 1) as nat, next.0, next.1);
        lemma_xor16_twice(r, round_f(keys[k - 1], l));
    }
}

/// Encryption keeps the length of the block.
pub proof fn lemma_feistel_encrypt_len(keys: Seq<Seq<u8>>, b: Seq<u8>)
    requires
        b.len() == 32,
    ensures
        feistel_encrypt(keys, b).len() == 32,
{
    lemma_enc_rounds_len(keys, 3, b.subrange(0, 16), b.subrange(16, 32));
}

/// Decryption keeps the length of the block.
pub proof fn lemma_feistel_decrypt_len(keys: Seq<Seq<u8>>, b: Seq<u8>)
    requires
        b.len() == 32,
    ensures
        feistel_decrypt(keys, b).len() == 32,
{
    lemma_dec_rounds_len(keys, 3, b.subrange(0, 16), b.subrange(16, 32));
}

/// Decryption undoes encryption: for every key schedule and every 32-byte
/// block b, decrypt(encrypt(b)) = b.
pub proof fn lemma_feistel_decrypt_encrypt(keys: Seq<Seq<u8>>, b: Seq<u8>)
    requires
        b.len() == 32,
    ensures
        feistel_decrypt(keys, feistel_encrypt(keys, b)) == b,
{
    let l = b.subrange(0, 16);
    let r = b.subrange(16, 32);
    let e = enc_rounds(keys, 3, l, r);
    lemma_enc_rounds_len(keys, 3, l, r);
    lemma_dec_enc_rounds(keys, 3, l, r);
    let c = e.0 + e.1;
    assert(c.subrange(0, 16) =~= e.0);
    assert(c.subrange(16, 32) =~= e.1);
    assert(l + r =~= b);
}

/// Encryption undoes decryption: for every key schedule and every 32-byte
/// block b, encrypt(decrypt(b)) = b.
pub proof fn lemma_feistel_encrypt_decrypt(keys: Seq<Seq<u8>>, b: Seq<u8>)
    requires
        b.len() == 32,
    ensures
        feistel_encrypt(keys, feistel_decrypt(keys, b)) == b,
{
    let l = b.subrange(0, 16);
    let r = b.subrange(16, 32);
    let d = dec_rounds(keys, 3, l, r);
    lemma_dec_rounds_len(keys, 3, l, r);
    lemma_enc_dec_rounds(keys, 3, l, r);
    let c = d.0 + d.1;
    assert(c.subrange(0, 16) =~= d.0);
    assert(c.subrange(16, 32) =~= d.1);
    assert(l + r =~= b);
}

fn xor_block(a: &[u8; 16], b: &[u8; 16]) -> (r: [u8; 16])
    ensures
        r@ == xor16(a@, b@),
{
    let mut out = [0u8; 16];
    let mut i: usize = 0;
    while i < 16
        invariant
            i <= 16,
            forall|j: int| 0 <= j < i ==> out[j] == a[j] ^ b[j],
        decreases 16 - i,
    {
        out[i] = a[i] ^ b[i];
        i = i + 1;
    }
    assert(out@ =~= xor16(a@, b@));
    out
}

fn round_function(rk: &[u8; 16], x: &[u8; 16]) -> (r: [u8; 16])
    ensures
        r@ == round_f(rk@, x@),
{
    let t = xor_block(x, rk);
    aes128_encrypt(rk, &t)
}

fn split_block(block: &[u8; 32]) -> (r: ([u8; 16], [u8; 16]))
    ensures
        r.0@ == block@.subrange(0, 16),
        r.1@ == block@.subrange(16, 32),
{
    let mut l = [0u8; 16];
    let mut r = [0u8; 16];
    let mut i: usize = 0;
    while i < 16
        invariant
            i <= 16,
            forall|j: int| 0 <= j < i ==> l[j] == block[j] && r[j] == block[j + 16],
        decreases 16 - i,
    {
        l[i] = block[i];
        r[i] = block[i + 16];
        i = i + 1;
    }
    assert(l@ =~= block@.subrange(0, 16));
    assert(r@ =~= block@.subrange(16, 32));
    (l, r)
}

fn join_block(l: &[u8; 16], r: &[u8; 16]) -> (b: [u8; 32])
    ensures
        b@ == l@ + r@,
{
    let mut b = [0u8; 32];
    let mut i: usize = 0;
    while i < 16
        invariant
            i <= 16,
            forall|j: int| 0 <= j < i ==> b[j] == l[j] && b[j + 16] == r[j],
        decreases 16 - i,
    {
        b[i] = l[i];
        b[i + 16] = r[i];
        i = i + 1;
    }
    assert(b@ =~= l@ + r@);
    b
}

/// A 256-bit PRP as a 3-round Feistel network with AES-128 as round function.
pub struct FeistelPrp256 {
    round_keys: [[u8; 16]; 3],
}

impl FeistelPrp256 {
    /// The three round keys.
    pub closed spec fn keys(self) -> Seq<Seq<u8>> {
        seq![self.round_keys[0]@, self.round_keys[1]@, self.round_keys[2]@]
    }

    /// Derives round key i (i = 0, 1, 2) as AES_master([i + 1, 0, ..., 0]).
    pub fn new(master: &[u8; 16]) -> (r: Self)
        ensures
            r.keys() == prp_keys(master@),
    {
        let mut round_keys = [[0u8; 16]; 3];
        let mut i: usize = 0;
        while i < 3
            invariant
                i <= 3,
                forall|j: int|
                    0 <= j < i ==> (#[trigger] round_keys[j])@ == spec_aes128_encrypt(
                        master@,
                        key_index_block((j + 1) as u8),
                    ),
            decreases 3 - i,
        {
            let mut buf = [0u8; 16];
            buf[0] = (i + 1) as u8;
            assert(buf@ =~= key_index_block((i + 1) as u8));
            round_keys[i] = aes128_encrypt(master, &buf);
            i = i + 1;
        }
        let r = FeistelPrp256 { round_keys };
        assert(r.keys() =~= seq![
            spec_aes128_encrypt(master@, key_index_block(1)),
            spec_aes128_encrypt(master@, key_index_block(2)),
            spec_aes128_encrypt(master@, key_index_block(3)),
        ]);
        r
    }

    /// Encrypts one 32-byte block in place.
    pub fn encrypt_block(&self, block: &mut [u8; 32])
        ensures
            final(block)@ == feistel_encrypt(self.keys(), old(block)@),
    {
        let ghost keys = self.keys();
        let (l0, r0) = split_block(block);
        let mut l = l0;
        let mut r = r0;
        let mut k: usize = 0;
        while k < 3
            invariant
                k <= 3,
                keys == self.keys(),
                (l@, r@) == enc_rounds(keys, k as nat, l0@, r0@),
            decreases 3 - k,
        {
            let f = round_function(&self.round_keys[k], &r);
            let nr = xor_block(&l, &f);
            assert(keys[k as int] == self.round_keys[k as int]@);
            l = r;
            r = nr;
            k = k + 1;
        }
        *block = join_block(&l, &r);
    }

    /// Decrypts one 32-byte block in place by running the rounds in reverse.
    pub fn decrypt_block(&self, block: &mut [u8; 32])
        ensures
            final(block)@ == feistel_decrypt(self.keys(), old(block)@),
    {
        let ghost keys = self.keys();
        let (l0, r0) = split_block(block);
        let mut l = l0;
        let mut r = r0;
        let mut k: usize = 3;
        while k > 0
            invariant
                k <= 3,
                keys == self.keys(),
                dec_rounds(keys, k as nat, l@, r@) == dec_rounds(keys, 3, l0@, r0@),
            decreases k,
        {
            let f = round_function(&self.round_keys[k - 1], &l);
            let nl = xor_block(&r, &f);
            assert(keys[k - 1] == self.round_keys[k - 1]@);
            r = l;
            l = nl;
            k = k - 1;
        }
        *block = join_block(&l, &r);
    }
}

} // verus!
