//! Shuffled OPRF over Montgomery points with raw clamped keys.
//!
//! Both parties raise hashed items with `mul_clamped` under a random 32-byte
//! key; the sender also raises the receiver's points under its key and
//! returns them permuted.
use vstd::prelude::*;
use vstd::slice::slice_subrange;
use crate::aok::{is_permutation, is_permutation_pair, random_permutation};
use crate::curve::{mont_mul_clamped, spec_mont_mul_clamped};
use crate::field::bytes_to_field;
use crate::mapping::{hash_to_curve, spec_hash_to_curve};
use crate::onesided::{lemma_item_in_bounds, mark_common_points, num_items};
use crate::random::random_bytes32;
use crate::twosided::block_at;
pub use crate::onesided::{duplex, Duplex};

verus! {

/// A message of points.
pub struct Message {
    pub points: Vec<[u8; 32]>,
}

/// H(x)^k for each item x of the input, k applied with `mul_clamped`.
pub open spec fn is_raised_items(input: Seq<u8>, sk: Seq<u8>, points: Seq<[u8; 32]>) -> bool {
    &&& points.len() == num_items(input)
    &&& forall|i: int|
        0 <= i < num_items(input) ==> #[trigger] points[i]@ == spec_mont_mul_clamped(
            spec_hash_to_curve(block_at(input, i)),
            sk,
        )
}

/// Hashes each item and raises it with `mul_clamped` under `sk`.
fn raise_items(input: &Vec<u8>, sk: &[u8; 32], cap: usize) -> (r: Vec<[u8; 32]>)
    ensures
        is_raised_items(input@, sk@, r@),
{
    let count = input.len() / 16;
    let mut points: Vec<[u8; 32]> = Vec::with_capacity(cap);
    let mut i: usize = 0;
    while i < count
        invariant
            count == input.len() / 16,
            i <= count,
            points.len() == i,
            forall|k: int|
                0 <= k < i ==> #[trigger] points[k]@ == spec_mont_mul_clamped(
                    spec_hash_to_curve(block_at(input@, k)),
                    sk@,
                ),
        decreases count - i,
    {
        proof {
            lemma_item_in_bounds(input.len() as int, i as int);
        }
        let item = slice_subrange(input.as_slice(), 16 * i, 16 * i + 16);
        let hx = hash_to_curve(item);
        points.push(mont_mul_clamped(&hx, sk));
        i = i + 1;
    }
    points
}

/// The sender of the shuffled OPRF.
pub struct Sender {
    input: Vec<u8>,
    n: usize,
    sk: [u8; 32],
    pi: Vec<usize>,
}

impl Sender {
    #[verifier::type_invariant]
    spec fn inv(self) -> bool {
        &&& forall|k: int| 0 <= k < self.pi.len() ==> #[trigger] self.pi[k] < self.pi.len()
        &&& is_permutation(self.pi@)
    }

    pub closed spec fn spec_input(self) -> Seq<u8> {
        self.input@
    }

    pub closed spec fn spec_n(self) -> usize {
        self.n
    }

    pub closed spec fn spec_sk(self) -> Seq<u8> {
        self.sk@
    }

    pub closed spec fn spec_pi(self) -> Seq<usize> {
        self.pi@
    }

    /// The number of receiver points the sender permutes.
    pub fn recv_size(&self) -> (r: usize)
        ensures
            r == self.spec_pi().len(),
    {
        self.pi.len()
    }

    /// A sender with a random 32-byte key and a random permutation of the
    /// receiver's `recv_size` points.
    pub fn new(input: Vec<u8>, n: usize, recv_size: usize) -> (r: Self)
        ensures
            r.spec_input() == input@,
            r.spec_n() == n,
            r.spec_sk().len() == 32,
            exists|inv: Seq<usize>| is_permutation_pair(r.spec_pi(), inv, recv_size as nat),
    {
        let sk = random_bytes32();
        let (pi, inv) = random_permutation(recv_size);
        let ghost inv_s = inv@;
        assert(is_permutation_pair(pi@, inv_s, recv_size as nat));
        let r = Sender { input, n, sk, pi };
        assert(is_permutation_pair(r.spec_pi(), inv@, recv_size as nat));
        assert(is_permutation(r.spec_pi()));
        r
    }

    /// The sender's message H(x)^k.
    pub fn gen(&self) -> (r: Message)
        ensures
            is_raised_items(self.spec_input(), self.spec_sk(), r.points@),
    {
        Message { points: raise_items(&self.input, &self.sk, self.n) }
    }

    /// The receiver's points, permuted and raised under k.
    pub fn blind_and_shuffle(&self, receiver_points: &[[u8; 32]]) -> (r: Message)
        requires
            receiver_points.len() >= self.spec_pi().len(),
        ensures
            is_permutation(self.spec_pi()),
            r.points.len() == self.spec_pi().len(),
            forall|k: int|
                0 <= k < r.points.len() ==> #[trigger] r.points[k]@ == spec_mont_mul_clamped(
                    receiver_points[self.spec_pi()[k] as int]@,
                    self.spec_sk(),
                ),
    {
        proof {
            use_type_invariant(self);
        }
        let mut out: Vec<[u8; 32]> = Vec::with_capacity(self.pi.len());
        let mut k: usize = 0;
        while k < self.pi.len()
            invariant
                k <= self.pi.len(),
                receiver_points.len() >= self.pi.len(),
                forall|m: int| 0 <= m < self.pi.len() ==> #[trigger] self.pi[m] < self.pi.len(),
                out.len() == k,
                forall|m: int|
                    0 <= m < k ==> #[trigger] out[m]@ == spec_mont_mul_clamped(
                        receiver_points[self.pi[m] as int]@,
                        self.sk@,
                    ),
            decreases self.pi.len() - k,
        {
            let idx = self.pi[k];
            out.push(mont_mul_clamped(&receiver_points[idx], &self.sk));
            k = k + 1;
        }
        Message { points: out }
    }
}

/// The receiver of the shuffled OPRF.
pub struct Receiver {
    input: Vec<u8>,
    n: usize,
    sk: [u8; 32],
}

impl Receiver {
    pub closed spec fn spec_input(self) -> Seq<u8> {
        self.input@
    }

    pub closed spec fn spec_n(self) -> usize {
        self.n
    }

    pub closed spec fn spec_sk(self) -> Seq<u8> {
        self.sk@
    }

    /// A receiver with a random 32-byte key.
    pub fn new(input: Vec<u8>, n: usize) -> (r: Self)
        ensures
            r.spec_input() == input@,
            r.spec_n() == n,
            r.spec_sk().len() == 32,
    {
        let sk = random_bytes32();
        Receiver { input, n, sk }
    }

    /// The receiver's message H(y)^k'.
    pub fn gen(&self) -> (r: Message)
        ensures
            is_raised_items(self.spec_input(), self.spec_sk(), r.points@),
    {
        Message { points: raise_items(&self.input, &self.sk, self.n) }
    }

    /// Raises each sender point under k' and discards the product, so the
    /// points are left as they are.
    pub fn blind(&self, sender_points: &mut Vec<[u8; 32]>)
        ensures
            final(sender_points)@ == old(sender_points)@,
    {
        let mut i: usize = 0;
        while i < sender_points.len()
            invariant
                i <= sender_points.len(),
            decreases sender_points.len() - i,
        {
            let _ = mont_mul_clamped(&sender_points[i], &self.sk);
            i = i + 1;
        }
    }

    /// For each sender point, 1 when an equal point (equal field values of
    /// the u-coordinates) occurs among the shuffled points, else 0.
    pub fn compare(&self, sender_points: &[[u8; 32]], shuffled: &[[u8; 32]]) -> (r: Vec<u8>)
        ensures
            r.len() == sender_points.len(),
            forall|i: int|
                0 <= i < sender_points.len() ==> #[trigger] r[i] == if exists|j: int|
                    0 <= j < shuffled.len() && bytes_to_field(#[trigger] shuffled[j]@)
                        == bytes_to_field(sender_points[i]@) {
                    1u8
                } else {
                    0u8
                },
    {
        let marks = mark_common_points(sender_points, shuffled);
        let mut indicator: Vec<u8> = Vec::with_capacity(marks.len());
        let mut i: usize = 0;
        while i < marks.len()
            invariant
                i <= marks.len(),
                indicator.len() == i,
                forall|m: int| 0 <= m < i ==> #[trigger] indicator[m] == if marks[m] {
                    1u8
                } else {
                    0u8
                },
            decreases marks.len() - i,
        {
            indicator.push(if marks[i] { 1u8 } else { 0u8 });
            i = i + 1;
        }
        indicator
    }
}

} // verus!
