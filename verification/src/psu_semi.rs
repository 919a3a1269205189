//! One-sided PSU from a shuffled OPRF over Montgomery points, with the
//! receiver blinding in place and the sender's per-item proofs computed on
//! Montgomery points.
use vstd::prelude::*;
use crate::aok::{is_permutation, is_permutation_pair};
use crate::aok::random_permutation;
use crate::crypto::{blake2s256, push_bytes, spec_blake2s256};
use crate::curve::{
    group_order, mont_mul_clamped, mont_mul_scalar, scalar_from_u64, scalar_mul, scalar_random,
    scalar_reduce, scalar_sub,
    spec_mont_mul_clamped, spec_mont_mul_scalar,
};
use crate::field::{bytes_to_field, le_nat};
use crate::onesided::{
    fresh_secret, hash_and_raise, high_half, is_hashed_and_raised, is_secret_of_clamped,
    low_half, mark_common_points, shuffle_and_raise, spec_clamp, ItemProofs,
};
pub use crate::onesided::{duplex, Duplex};

verus! {

/// The sender (semi-honest one-sided PSU).
pub struct Sender {
    input: Vec<u8>,
    n: usize,
    sk_8: [u8; 32],
    sk: [u8; 32],
    pi: Vec<usize>,
}

impl Sender {
    #[verifier::type_invariant]
    spec fn inv(self) -> bool {
        &&& is_secret_of_clamped(self.sk@, self.sk_8@)
        &&& forall|k: int| 0 <= k < self.pi.len() ==> #[trigger] self.pi[k] < self.pi.len()
        &&& is_permutation(self.pi@)
    }

    pub closed spec fn spec_input(self) -> Seq<u8> {
        self.input@
    }

    pub closed spec fn spec_n(self) -> usize {
        self.n
    }

    pub closed spec fn spec_sk_8(self) -> Seq<u8> {
        self.sk_8@
    }

    pub closed spec fn spec_sk(self) -> nat {
        le_nat(self.sk@)
    }

    pub closed spec fn spec_pi(self) -> Seq<usize> {
        self.pi@
    }

    /// The number of receiver points the sender permutes.
    pub fn recv_size(&self) -> (r: usize)
        ensures
            r == self.spec_pi().len(),
    {
        self.pi.len()
    }

    /// A sender with a fresh clamped key k and secret k/8, and a random
    /// permutation of the receiver's `recv_size` points.
    pub fn new(input: Vec<u8>, n: usize, recv_size: usize) -> (r: Self)
        ensures
            r.spec_input() == input@,
            r.spec_n() == n,
            exists|b: Seq<u8>| b.len() == 32 && r.spec_sk_8() == spec_clamp(b),
            r.spec_sk() < group_order(),
            (r.spec_sk() * 8) % group_order() == le_nat(r.spec_sk_8()) % group_order(),
            exists|inv: Seq<usize>| is_permutation_pair(r.spec_pi(), inv, recv_size as nat),
    {
        let (sk_8, sk) = fresh_secret();
        let (pi, inv) = random_permutation(recv_size);
        let ghost inv_s = inv@;
        assert(is_permutation_pair(pi@, inv_s, recv_size as nat));
        let r = Sender { input, n, sk_8, sk, pi };
        assert(is_permutation_pair(r.spec_pi(), inv@, recv_size as nat));
        assert(is_permutation(r.spec_pi()));
        r
    }

    /// The sender's first message H(x)^k, and the hashed items H(x).
    pub fn gen(&self) -> (r: (Vec<[u8; 32]>, Vec<[u8; 32]>))
        ensures
            is_hashed_and_raised(self.spec_input(), self.spec_sk_8(), r.0@, r.1@),
    {
        hash_and_raise(&self.input, &self.sk_8, self.n)
    }

    /// The receiver's points, permuted and multiplied by k/8.
    pub fn blind_and_shuffle(&self, receiver_points: &[[u8; 32]]) -> (r: Vec<[u8; 32]>)
        requires
            receiver_points.len() >= self.spec_pi().len(),
        ensures
            is_permutation(self.spec_pi()),
            r.len() == self.spec_pi().len(),
            forall|k: int|
                0 <= k < r.len() ==> #[trigger] r[k]@ == spec_mont_mul_scalar(
                    receiver_points[self.spec_pi()[k] as int]@,
                    self.spec_sk(),
                ),
    {
        proof {
            use_type_invariant(self);
        }
        shuffle_and_raise(receiver_points, &self.pi, &self.sk)
    }

    /// A proof of knowledge of the key over the sender's Montgomery points:
    /// this protocol sends none, so nothing is computed.
    pub fn gen_proof_of_knowledge(&self, sender_mont: &Vec<[u8; 32]>) {
    }
}

/// The receiver (semi-honest one-sided PSU).
pub struct Receiver {
    input: Vec<u8>,
    n: usize,
    sk_8: [u8; 32],
    sk: [u8; 32],
}

impl Receiver {
    #[verifier::type_invariant]
    spec fn inv(self) -> bool {
        is_secret_of_clamped(self.sk@, self.sk_8@)
    }

    pub closed spec fn spec_input(self) -> Seq<u8> {
        self.input@
    }

    pub closed spec fn spec_n(self) -> usize {
        self.n
    }

    pub closed spec fn spec_sk_8(self) -> Seq<u8> {
        self.sk_8@
    }

    pub closed spec fn spec_sk(self) -> nat {
        le_nat(self.sk@)
    }

    /// A receiver with a fresh clamped key k' and secret k'/8.
    pub fn new(input: Vec<u8>, n: usize) -> (r: Self)
        ensures
            r.spec_input() == input@,
            r.spec_n() == n,
            exists|b: Seq<u8>| b.len() == 32 && r.spec_sk_8() == spec_clamp(b),
            r.spec_sk() < group_order(),
            (r.spec_sk() * 8) % group_order() == le_nat(r.spec_sk_8()) % group_order(),
    {
        let (sk_8, sk) = fresh_secret();
        Receiver { input, n, sk_8, sk }
    }

    /// The receiver's message H(y)^k' for each item y.
    pub fn gen(&self) -> (r: Vec<[u8; 32]>)
        ensures
            exists|original: Seq<[u8; 32]>|
                #[trigger] is_hashed_and_raised(self.spec_input(), self.spec_sk_8(), r@, original),
    {
        let (points, original) = hash_and_raise(&self.input, &self.sk_8, self.n);
        assert(is_hashed_and_raised(self.spec_input(), self.spec_sk_8(), points@, original@));
        points
    }

    /// Multiplies each sender point by k'/8, in place.
    pub fn blind(&self, sender_points: &mut Vec<[u8; 32]>)
        ensures
            final(sender_points).len() == old(sender_points).len(),
            forall|i: int|
                0 <= i < old(sender_points).len() ==> #[trigger] final(sender_points)[i]@
                    == spec_mont_mul_scalar(old(sender_points)[i]@, self.spec_sk()),
    {
        proof {
            use_type_invariant(self);
        }
        let mut i: usize = 0;
        while i < sender_points.len()
            invariant
                i <= sender_points.len(),
                sender_points.len() == old(sender_points).len(),
                le_nat(self.sk@) < group_order(),
                forall|m: int|
                    0 <= m < i ==> #[trigger] sender_points[m]@ == spec_mont_mul_scalar(
                        old(sender_points)[m]@,
                        le_nat(self.sk@),
                    ),
                forall|m: int|
                    i <= m < sender_points.len() ==> #[trigger] sender_points[m] == old(
                        sender_points,
                    )[m],
            decreases sender_points.len() - i,
        {
            let p = mont_mul_scalar(&sender_points[i], &self.sk);
            sender_points.set(i, p);
            i = i + 1;
        }
    }

    /// For each (blinded) sender point, whether it occurs among the shuffled points.
    pub fn compare(&self, sender_points: &[[u8; 32]], shuffled: &[[u8; 32]]) -> (r: Vec<bool>)
        ensures
            r.len() == sender_points.len(),
            forall|i: int|
                0 <= i < sender_points.len() ==> #[trigger] r[i] == exists|j: int|
                    0 <= j < shuffled.len() && bytes_to_field(#[trigger] shuffled[j]@)
                        == bytes_to_field(sender_points[i]@),
    {
        mark_common_points(sender_points, shuffled)
    }
}

/// Sets bytes 16..32 to zero.
pub fn clear_high_bits(arr: &mut [u8; 32])
    ensures
        final(arr)@ == old(arr)@.subrange(0, 16) + Seq::new(16, |i: int| 0u8),
{
    let mut i: usize = 16;
    while i < 32
        invariant
            16 <= i <= 32,
            forall|j: int| 0 <= j < 16 ==> arr[j] == old(arr)[j],
            forall|j: int| 16 <= j < i ==> arr[j] == 0,
        decreases 32 - i,
    {
        arr[i] = 0u8;
        i = i + 1;
    }
    assert(arr@ =~= old(arr)@.subrange(0, 16) + Seq::new(16, |i: int| 0u8));
}

/// The digest H(x) || H(x)^k || `mul_clamped(H(x), r_8)` on Montgomery points.
pub open spec fn mont_proof_digest(original: Seq<u8>, point: Seq<u8>, r_8: Seq<u8>) -> Seq<u8> {
    spec_blake2s256(original + point + spec_mont_mul_clamped(original, r_8))
}

/// The sender's proof for one item on Montgomery points: the challenge c
/// (16 bytes) and the response z = r - c k (its low and high 16 bytes).
pub fn proof_item_mont(
    original: &[u8; 32],
    point: &[u8; 32],
    r_8: &[u8; 32],
    r: &[u8; 32],
    sk: &[u8; 32],
) -> (res: ([u8; 16], [u8; 16], [u8; 16]))
    requires
        le_nat(r@) < group_order(),
        le_nat(sk@) < group_order(),
    ensures
        res.0@ == mont_proof_digest(original@, point@, r_8@).subrange(0, 16),
        le_nat(res.1@ + res.2@) == (le_nat(r@) + group_order() - ((le_nat(
            mont_proof_digest(original@, point@, r_8@).subrange(0, 16) + Seq::new(16, |i: int| 0u8),
        ) % group_order()) * le_nat(sk@)) % group_order()) % (group_order() as int),
{
    let t = mont_mul_clamped(original, r_8);
    let mut transcript: Vec<u8> = Vec::with_capacity(96);
    push_bytes(&mut transcript, original);
    push_bytes(&mut transcript, point);
    push_bytes(&mut transcript, &t);
    let mut hc = blake2s256(transcript.as_slice());
    proof {
        assert(transcript@ =~= original@ + point@ + t@);
    }
    let ghost digest = hc@;
    clear_high_bits(&mut hc);
    let c = scalar_reduce(&hc);
    let ck = scalar_mul(&c, sk);
    let z = scalar_sub(r, &ck);
    let c_block = low_half(&hc);
    let z0 = low_half(&z);
    let z1 = high_half(&z);
    proof {
        assert(c_block@ =~= digest.subrange(0, 16));
        assert(z0@ + z1@ =~= z@);
    }
    (c_block, z0, z1)
}

/// c and z are a proof on Montgomery points for the point H(x)^k of H(x)
/// under `sk`, made with the randomness r (value rv) and the key bytes r_8.
pub open spec fn is_mont_item_proof(
    original: Seq<u8>,
    point: Seq<u8>,
    sk: nat,
    c: Seq<u8>,
    z: Seq<u8>,
    r_8: Seq<u8>,
    rv: nat,
) -> bool {
    &&& rv < group_order()
    &&& c == mont_proof_digest(original, point, r_8).subrange(0, 16)
    &&& le_nat(z) == (rv + group_order() - ((le_nat(
        mont_proof_digest(original, point, r_8).subrange(0, 16) + Seq::new(16, |i: int| 0u8),
    ) % group_order()) * sk) % group_order()) % (group_order() as int)
}

/// Some randomness makes c and z a proof for the point H(x)^k of H(x).
pub open spec fn has_mont_item_proof(original: Seq<u8>, point: Seq<u8>, sk: nat, c: Seq<u8>, z: Seq<u8>) -> bool {
    exists|r_8: Seq<u8>, rv: nat| #[trigger] is_mont_item_proof(original, point, sk, c, z, r_8, rv)
}

/// The sender's proofs for its Montgomery points: for each item a random
/// scalar r and, as key bytes for H(x)^r, the encoding of 8 times another
/// random scalar.
pub fn prove_items_mont(sender: &Sender, points: &[[u8; 32]], original: &[[u8; 32]]) -> (r: ItemProofs)
    requires
        points.len() == original.len(),
    ensures
        r.c.len() == original.len(),
        r.z0.len() == original.len(),
        r.z1.len() == original.len(),
        forall|i: int|
            0 <= i < original.len() ==> #[trigger] has_mont_item_proof(
                original[i]@,
                points[i]@,
                sender.spec_sk(),
                r.c[i]@,
                r.z0[i]@ + r.z1[i]@,
            ),
{
    proof {
        use_type_invariant(sender);
    }
    let eight = scalar_from_u64(8);
    let mut c: Vec<[u8; 16]> = Vec::with_capacity(original.len());
    let mut z0: Vec<[u8; 16]> = Vec::with_capacity(original.len());
    let mut z1: Vec<[u8; 16]> = Vec::with_capacity(original.len());
    let ghost mut r8s: Seq<Seq<u8>> = Seq::empty();
    let ghost mut rvs: Seq<nat> = Seq::empty();
    let mut i: usize = 0;
    while i < original.len()
        invariant
            i <= original.len(),
            points.len() == original.len(),
            le_nat(sender.sk@) < group_order(),
            le_nat(eight@) == 8,
            c.len() == i,
            z0.len() == i,
            z1.len() == i,
            r8s.len() == i,
            rvs.len() == i,
            forall|m: int|
                0 <= m < i ==> #[trigger] is_mont_item_proof(
                    original[m]@,
                    points[m]@,
                    le_nat(sender.sk@),
                    c@[m]@,
                    z0@[m]@ + z1@[m]@,
                    r8s[m],
                    rvs[m],
                ),
        decreases original.len() - i,
    {
        let r = scalar_random();
        let s = scalar_random();
        let r_8 = scalar_mul(&s, &eight);
        let (ci, z0i, z1i) = proof_item_mont(&original[i], &points[i], &r_8, &r, &sender.sk);
        c.push(ci);
        z0.push(z0i);
        z1.push(z1i);
        proof {
            r8s = r8s.push(r_8@);
            rvs = rvs.push(le_nat(r@));
        }
        i = i + 1;
    }
    let r = ItemProofs { c, z0, z1 };
    assert forall|k: int| 0 <= k < original.len() implies #[trigger] has_mont_item_proof(
        original[k]@,
        points[k]@,
        sender.spec_sk(),
        r.c[k]@,
        r.z0[k]@ + r.z1[k]@,
    ) by {
        assert(is_mont_item_proof(
            original[k]@,
            points[k]@,
            sender.spec_sk(),
            r.c[k]@,
            r.z0[k]@ + r.z1[k]@,
            r8s[k],
            rvs[k],
        ));
    }
    r
}

} // verus!
