//! One-sided-output PSU from a shuffled OPRF over Montgomery points.
//!
//! The sender hashes its items to points H(x) and sends H(x)^k (k clamped);
//! the receiver sends H(y)^k'; the sender returns the receiver's points
//! multiplied by k/8 and shuffled; the receiver multiplies the sender's
//! points by k'/8 and marks which of them occur among the shuffled ones.
use vstd::prelude::*;
use std::sync::mpsc::{channel, Receiver as MpscReceiver, Sender as MpscSender};
use vstd::slice::slice_subrange;
use crate::aok::{is_permutation, is_permutation_pair, random_permutation};
use crate::curve::{
    group_order, mont_mul_clamped, mont_mul_scalar, scalar_invert, scalar_mul, scalar_reduce,
    scalar_sub, spec_mont_mul_clamped, spec_mont_mul_scalar,
};
use crate::field::{
    bytes_to_field, canonical_bytes, le_nat, lemma_le_nat_le_bytes, lemma_pow256_32, FieldElement,
};
use crate::crypto::{blake2s256, push_bytes, spec_blake2s256};
use crate::curve::{
    ed_msm, ed_mul, ed_mul_by_cofactor, ed_mul_clamped, ed_valid, mont_to_edwards, views,
    scalar_add, scalar_values, spec_ed_msm, spec_ed_mul, spec_ed_mul_by_cofactor,
    spec_ed_mul_clamped, spec_ed_valid, spec_mont_to_edwards,
};
use crate::mapping::{hash_to_curve, spec_hash_to_curve};
use crate::random::random_bytes32;
use crate::twosided::block_at;

verus! {

// ---------------------------------------------------------------------------
//  In-process duplex channels
// ---------------------------------------------------------------------------
#[verifier::external_type_specification]
#[verifier::external_body]
#[verifier::reject_recursive_types(T)]
pub struct ExMpscSender<T>(MpscSender<T>);

#[verifier::external_type_specification]
#[verifier::external_body]
#[verifier::reject_recursive_types(T)]
pub struct ExMpscReceiver<T>(MpscReceiver<T>);

/// The sending end of an in-process channel.
#[verifier::reject_recursive_types(T)]
pub struct ChanTx<T> {
    pub sender: MpscSender<T>,
    chan: Ghost<int>,
}

/// The receiving end of an in-process channel.
#[verifier::reject_recursive_types(T)]
pub struct ChanRx<T> {
    pub receiver: MpscReceiver<T>,
    chan: Ghost<int>,
}

impl<T> ChanTx<T> {
    /// The channel that this end belongs to: what is sent here is received
    /// at the receiving end of the same channel.
    pub closed spec fn chan(self) -> int {
        self.chan@
    }
}

impl<T> ChanRx<T> {
    /// The channel that this end belongs to: it receives what is sent at
    /// the sending end of the same channel.
    pub closed spec fn chan(self) -> int {
        self.chan@
    }
}

/// `std::sync::mpsc::channel`: a sender and a receiver of one channel (what
/// is sent on the sender is received, in order, on the receiver), tagged
/// with one channel label.
#[verifier::external_body]
fn mpsc_channel<T>() -> (r: (ChanTx<T>, ChanRx<T>))
    ensures
        r.0.chan() == r.1.chan(),
{
    let (sender, receiver) = channel();
    let label: Ghost<int> = Ghost(0int);
    (ChanTx { sender, chan: label }, ChanRx { receiver, chan: label })
}

/// One endpoint of a pair of channels.
#[verifier::reject_recursive_types(T)]
pub struct Duplex<T> {
    pub tx: ChanTx<T>,
    pub rx: ChanRx<T>,
}

/// Creates a pair of opposite endpoints: `a.tx` feeds `b.rx` and `b.tx`
/// feeds `a.rx`.
pub fn duplex<T>() -> (r: (Duplex<T>, Duplex<T>))
    ensures
        r.0.tx.chan() == r.1.rx.chan(),
        r.1.tx.chan() == r.0.rx.chan(),
{
    let (tx1, rx1) = mpsc_channel();
    let (tx2, rx2) = mpsc_channel();
    (Duplex { tx: tx1, rx: rx2 }, Duplex { tx: tx2, rx: rx1 })
}

// ---------------------------------------------------------------------------
//  Secret keys
// ---------------------------------------------------------------------------
/// curve25519 clamping: clear the low 3 bits and the top bit, set bit 254.
pub open spec fn spec_clamp(b: Seq<u8>) -> Seq<u8> {
    b.update(0, b[0] & 0b1111_1000).update(31, (b[31] & 0b0111_1111) | 0b0100_0000)
}

/// `sk` is the clamped integer divided by 8 modulo l.
pub open spec fn is_secret_of_clamped(sk: Seq<u8>, sk_8: Seq<u8>) -> bool {
    le_nat(sk) < group_order() && (le_nat(sk) * 8) % group_order() == le_nat(sk_8) % group_order()
}

/// curve25519-dalek's `clamp_integer`.
pub fn clamp_integer(bytes: [u8; 32]) -> (r: [u8; 32])
    ensures
        r@ == spec_clamp(bytes@),
{
    let mut b = bytes;
    let b0: u8 = b[0] & 0b1111_1000;
    b[0] = b0;
    let b31: u8 = (b[31] & 0b0111_1111) | 0b0100_0000;
    b[31] = b31;
    assert(b@ =~= spec_clamp(bytes@));
    b
}

proof fn lemma_le_nat_eight()
    ensures
        le_nat(seq![8u8, 0u8, 0u8, 0u8, 0u8, 0u8, 0u8, 0u8, 0u8, 0u8, 0u8, 0u8, 0u8, 0u8, 0u8, 0u8, 0u8, 0u8, 0u8, 0u8, 0u8, 0u8, 0u8, 0u8, 0u8, 0u8, 0u8, 0u8, 0u8, 0u8, 0u8, 0u8]) == 8,
{
    reveal_with_fuel(le_nat, 33);
}

/// (a * i) * 8 = a modulo l when i * 8 = 1 modulo l.
proof fn lemma_div_by_eight(a: nat, i: nat)
    requires
        a < group_order(),
        (i * 8) % group_order() == 1,
    ensures
        (((a * i) % group_order()) * 8) % group_order() == a,
{
    let l = group_order() as int;
    vstd::arithmetic::div_mod::lemma_mul_mod_noop_left((a * i) as int, 8, l);
    assert((a * i) * 8 == a * (i * 8)) by (nonlinear_arith);
    vstd::arithmetic::div_mod::lemma_mul_mod_noop_right(a as int, (i * 8) as int, l);
    vstd::arithmetic::div_mod::lemma_small_mod(a, group_order());
}

/// sk = sk_8 / 8 modulo l (`Scalar::from_bytes_mod_order(sk_8) * Scalar::from(8).invert()`).
pub fn secret_of_clamped(sk_8: &[u8; 32]) -> (sk: [u8; 32])
    ensures
        is_secret_of_clamped(sk@, sk_8@),
{
    let a = scalar_reduce(sk_8);
    let eight: [u8; 32] = [8, 0, 0, 0, 0, 0, 0, 0, 0, 0, 0, 0, 0, 0, 0, 0, 0, 0, 0, 0, 0, 0, 0, 0, 0, 0, 0, 0, 0, 0, 0, 0];
    proof {
        lemma_le_nat_eight();
        assert(eight@ =~= seq![8u8, 0u8, 0u8, 0u8, 0u8, 0u8, 0u8, 0u8, 0u8, 0u8, 0u8, 0u8, 0u8, 0u8, 0u8, 0u8, 0u8, 0u8, 0u8, 0u8, 0u8, 0u8, 0u8, 0u8, 0u8, 0u8, 0u8, 0u8, 0u8, 0u8, 0u8, 0u8]);
    }
    let inv8 = scalar_invert(&eight);
    proof {
        vstd::arithmetic::mul::lemma_mul_is_commutative(le_nat(inv8@) as int, 8);
    }
    let sk = scalar_mul(&a, &inv8);
    proof {
        lemma_div_by_eight(le_nat(a@), le_nat(inv8@));
    }
    sk
}

/// Fresh secret: random bytes, clamped, and the clamped value divided by 8.
pub(crate) fn fresh_secret() -> (r: ([u8; 32], [u8; 32]))
    ensures
        exists|b: Seq<u8>| b.len() == 32 && r.0@ == spec_clamp(b),
        is_secret_of_clamped(r.1@, r.0@),
{
    let buff = random_bytes32();
    let sk_8 = clamp_integer(buff);
    let sk = secret_of_clamped(&sk_8);
    (sk_8, sk)
}

// ---------------------------------------------------------------------------
//  Point helpers
// ---------------------------------------------------------------------------
/// Byte-wise equality of two 32-byte strings.
pub fn bytes32_eq(a: &[u8; 32], b: &[u8; 32]) -> (r: bool)
    ensures
        r == (a@ == b@),
{
    let mut i: usize = 0;
    while i < 32
        invariant
            i <= 32,
            forall|j: int| 0 <= j < i ==> a[j] == b[j],
        decreases 32 - i,
    {
        if a[i] != b[i] {
            assert(a@[i as int] != b@[i as int]);
            return false;
        }
        i = i + 1;
    }
    assert(a@ =~= b@);
    true
}

/// The canonical encoding of the field value of a Montgomery u-coordinate.
fn canonical_point(p: &[u8; 32]) -> (r: [u8; 32])
    ensures
        r@ == canonical_bytes(bytes_to_field(p@)),
{
    FieldElement::from_bytes(p).as_bytes()
}

proof fn lemma_canonical_bytes_injective(x: nat, y: nat)
    requires
        x < crate::field::p(),
        y < crate::field::p(),
        canonical_bytes(x) == canonical_bytes(y),
    ensures
        x == y,
{
    lemma_pow256_32();
    lemma_le_nat_le_bytes(x, 32);
    lemma_le_nat_le_bytes(y, 32);
}

/// Marks, for each sender point, whether an equal point (equal as
/// Montgomery points, i.e. equal field values of the u-coordinates) occurs
/// among the shuffled points.
pub fn mark_common_points(sender_points: &[[u8; 32]], shuffled: &[[u8; 32]]) -> (r: Vec<bool>)
    ensures
        r.len() == sender_points.len(),
        forall|i: int|
            0 <= i < sender_points.len() ==> #[trigger] r[i] == exists|j: int|
                0 <= j < shuffled.len() && bytes_to_field(#[trigger] shuffled[j]@) == bytes_to_field(
                    sender_points[i]@,
                ),
{
    let mut keys: Vec<[u8; 32]> = Vec::with_capacity(shuffled.len());
    let mut j: usize = 0;
    while j < shuffled.len()
        invariant
            j <= shuffled.len(),
            keys.len() == j,
            forall|k: int|
                0 <= k < j ==> #[trigger] keys[k]@ == canonical_bytes(bytes_to_field(shuffled[k]@)),
        decreases shuffled.len() - j,
    {
        keys.push(canonical_point(&shuffled[j]));
        j = j + 1;
    }
    let mut indicator: Vec<bool> = Vec::with_capacity(sender_points.len());
    let mut i: usize = 0;
    while i < sender_points.len()
        invariant
            i <= sender_points.len(),
            keys.len() == shuffled.len(),
            forall|k: int|
                0 <= k < shuffled.len() ==> #[trigger] keys[k]@ == canonical_bytes(
                    bytes_to_field(shuffled[k]@),
                ),
            indicator.len() == i,
            forall|m: int|
                0 <= m < i ==> #[trigger] indicator[m] == exists|j: int|
                    0 <= j < shuffled.len() && bytes_to_field(#[trigger] shuffled[j]@)
                        == bytes_to_field(sender_points[m]@),
        decreases sender_points.len() - i,
    {
        let key = canonical_point(&sender_points[i]);
        let mut found = false;
        let mut k: usize = 0;
        while k < keys.len()
            invariant
                k <= keys.len(),
                keys.len() == shuffled.len(),
                forall|k2: int|
                    0 <= k2 < shuffled.len() ==> #[trigger] keys[k2]@ == canonical_bytes(
                        bytes_to_field(shuffled[k2]@),
                    ),
                key@ == canonical_bytes(bytes_to_field(sender_points[i as int]@)),
                found == exists|j: int|
                    0 <= j < k && bytes_to_field(#[trigger] shuffled[j]@) == bytes_to_field(
                        sender_points[i as int]@,
                    ),
            decreases keys.len() - k,
        {
            let eq = bytes32_eq(&keys[k], &key);
            proof {
                if eq {
                    lemma_canonical_bytes_injective(
                        bytes_to_field(shuffled[k as int]@),
                        bytes_to_field(sender_points[i as int]@),
                    );
                }
            }
            if eq {
                found = true;
            }
            k = k + 1;
        }
        indicator.push(found);
        i = i + 1;
    }
    indicator
}

// ---------------------------------------------------------------------------
//  Semi-honest parties over Montgomery points
// ---------------------------------------------------------------------------
/// The items of an input: its 16-byte blocks (a trailing partial block is ignored).
pub open spec fn num_items(input: Seq<u8>) -> int {
    (input.len() / 16) as int
}

/// The sender's points: H(x) for each item x, and H(x)^k (k = sk_8 clamped).
pub open spec fn is_hashed_and_raised(
    input: Seq<u8>,
    sk_8: Seq<u8>,
    points: Seq<[u8; 32]>,
    original: Seq<[u8; 32]>,
) -> bool {
    &&& original.len() == num_items(input)
    &&& points.len() == num_items(input)
    &&& forall|i: int|
        0 <= i < num_items(input) ==> #[trigger] original[i]@ == spec_hash_to_curve(
            block_at(input, i),
        )
    &&& forall|i: int|
        0 <= i < num_items(input) ==> #[trigger] points[i]@ == spec_mont_mul_clamped(
            original[i]@,
            sk_8,
        )
}

pub(crate) proof fn lemma_item_in_bounds(len: int, i: int)
    requires
        0 <= i < len / 16,
    ensures
        16 * i + 16 <= len,
{
    assert(16 * i + 16 <= len) by (nonlinear_arith)
        requires
            0 <= i < len / 16,
    ;
}

/// Hashes each item to the curve and raises it to the clamped key.
pub(crate) fn hash_and_raise(input: &Vec<u8>, sk_8: &[u8; 32], cap: usize) -> (r: (Vec<[u8; 32]>, Vec<[u8; 32]>))
    ensures
        is_hashed_and_raised(input@, sk_8@, r.0@, r.1@),
{
    let count = input.len() / 16;
    let mut points: Vec<[u8; 32]> = Vec::with_capacity(cap);
    let mut original: Vec<[u8; 32]> = Vec::with_capacity(cap);
    let mut i: usize = 0;
    while i < count
        invariant
            count == input.len() / 16,
            i <= count,
            original.len() == i,
            points.len() == i,
            forall|k: int|
                0 <= k < i ==> #[trigger] original[k]@ == spec_hash_to_curve(block_at(input@, k)),
            forall|k: int|
                0 <= k < i ==> #[trigger] points[k]@ == spec_mont_mul_clamped(original[k]@, sk_8@),
        decreases count - i,
    {
        proof {
            lemma_item_in_bounds(input.len() as int, i as int);
        }
        let item = slice_subrange(input.as_slice(), 16 * i, 16 * i + 16);
        let hx = hash_to_curve(item);
        let y = mont_mul_clamped(&hx, sk_8);
        original.push(hx);
        points.push(y);
        i = i + 1;
    }
    (points, original)
}

/// Multiplies each point by the secret scalar, in order.
pub(crate) fn raise_all(points: &[[u8; 32]], sk: &[u8; 32]) -> (r: Vec<[u8; 32]>)
    requires
        le_nat(sk@) < group_order(),
    ensures
        r.len() == points.len(),
        forall|i: int|
            0 <= i < points.len() ==> #[trigger] r[i]@ == spec_mont_mul_scalar(points[i]@, le_nat(sk@)),
{
    let mut out: Vec<[u8; 32]> = Vec::with_capacity(points.len());
    let mut i: usize = 0;
    while i < points.len()
        invariant
            i <= points.len(),
            le_nat(sk@) < group_order(),
            out.len() == i,
            forall|k: int|
                0 <= k < i ==> #[trigger] out[k]@ == spec_mont_mul_scalar(points[k]@, le_nat(sk@)),
        decreases points.len() - i,
    {
        out.push(mont_mul_scalar(&points[i], sk));
        i = i + 1;
    }
    out
}

/// Picks the points in the order given by the permutation and multiplies
/// each by the secret scalar.
pub(crate) fn shuffle_and_raise(points: &[[u8; 32]], pi: &Vec<usize>, sk: &[u8; 32]) -> (r: Vec<[u8; 32]>)
    requires
        le_nat(sk@) < group_order(),
        forall|k: int| 0 <= k < pi.len() ==> #[trigger] pi[k] < points.len(),
    ensures
        r.len() == pi.len(),
        forall|k: int|
            0 <= k < pi.len() ==> #[trigger] r[k]@ == spec_mont_mul_scalar(
                points[pi[k] as int]@,
                le_nat(sk@),
            ),
{
    let mut out: Vec<[u8; 32]> = Vec::with_capacity(pi.len());
    let mut k: usize = 0;
    while k < pi.len()
        invariant
            k <= pi.len(),
            le_nat(sk@) < group_order(),
            forall|m: int| 0 <= m < pi.len() ==> #[trigger] pi[m] < points.len(),
            out.len() == k,
            forall|m: int|
                0 <= m < k ==> #[trigger] out[m]@ == spec_mont_mul_scalar(
                    points[pi[m] as int]@,
                    le_nat(sk@),
                ),
        decreases pi.len() - k,
    {
        let idx = pi[k];
        out.push(mont_mul_scalar(&points[idx], sk));
        k = k + 1;
    }
    out
}

/// The sender of the one-sided PSU.
pub struct PartySender {
    input: Vec<u8>,
    n: usize,
    sk_8: [u8; 32],
    sk: [u8; 32],
    pi: Vec<usize>,
}

impl PartySender {
    #[verifier::type_invariant]
    spec fn inv(self) -> bool {
        &&& is_secret_of_clamped(self.sk@, self.sk_8@)
        &&& forall|k: int| 0 <= k < self.pi.len() ==> #[trigger] self.pi[k] < self.pi.len()
        &&& is_permutation(self.pi@)
    }

    pub closed spec fn spec_input(self) -> Seq<u8> {
        self.input@
    }

    pub closed spec fn spec_n(self) -> usize {
        self.n
    }

    pub closed spec fn spec_sk_8(self) -> Seq<u8> {
        self.sk_8@
    }

    pub closed spec fn spec_sk(self) -> nat {
        le_nat(self.sk@)
    }

    pub closed spec fn spec_pi(self) -> Seq<usize> {
        self.pi@
    }

    /// The number of receiver points the sender permutes.
    pub fn recv_size(&self) -> (r: usize)
        ensures
            r == self.spec_pi().len(),
    {
        self.pi.len()
    }

    /// A sender with a fresh clamped key k and secret k/8, and a random
    /// permutation of the receiver's `recv_size` points.
    pub fn new(input: Vec<u8>, n: usize, recv_size: usize) -> (r: Self)
        ensures
            r.spec_input() == input@,
            r.spec_n() == n,
            exists|b: Seq<u8>| b.len() == 32 && r.spec_sk_8() == spec_clamp(b),
            r.spec_sk() < group_order(),
            (r.spec_sk() * 8) % group_order() == le_nat(r.spec_sk_8()) % group_order(),
            exists|inv: Seq<usize>| is_permutation_pair(r.spec_pi(), inv, recv_size as nat),
    {
        let (sk_8, sk) = fresh_secret();
        let (pi, inv) = random_permutation(recv_size);
        let ghost inv_s = inv@;
        assert(is_permutation_pair(pi@, inv_s, recv_size as nat));
        let r = PartySender { input, n, sk_8, sk, pi };
        assert(is_permutation_pair(r.spec_pi(), inv@, recv_size as nat));
        assert(is_permutation(r.spec_pi()));
        r
    }

    /// The sender's first message H(x)^k, and the hashed items H(x).
    pub fn gen(&self) -> (r: (Vec<[u8; 32]>, Vec<[u8; 32]>))
        ensures
            is_hashed_and_raised(self.spec_input(), self.spec_sk_8(), r.0@, r.1@),
    {
        hash_and_raise(&self.input, &self.sk_8, self.n)
    }

    /// The receiver's points, permuted and multiplied by k/8.
    pub fn blind_and_shuffle(&self, receiver_points: &[[u8; 32]]) -> (r: Vec<[u8; 32]>)
        requires
            receiver_points.len() >= self.spec_pi().len(),
        ensures
            is_permutation(self.spec_pi()),
            r.len() == self.spec_pi().len(),
            forall|k: int|
                0 <= k < r.len() ==> #[trigger] r[k]@ == spec_mont_mul_scalar(
                    receiver_points[self.spec_pi()[k] as int]@,
                    self.spec_sk(),
                ),
    {
        proof {
            use_type_invariant(self);
        }
        shuffle_and_raise(receiver_points, &self.pi, &self.sk)
    }
}

/// The receiver of the one-sided PSU.
pub struct PartyReceiver {
    input: Vec<u8>,
    n: usize,
    sk_8: [u8; 32],
    sk: [u8; 32],
}

impl PartyReceiver {
    #[verifier::type_invariant]
    spec fn inv(self) -> bool {
        is_secret_of_clamped(self.sk@, self.sk_8@)
    }

    pub closed spec fn spec_input(self) -> Seq<u8> {
        self.input@
    }

    pub closed spec fn spec_n(self) -> usize {
        self.n
    }

    pub closed spec fn spec_sk_8(self) -> Seq<u8> {
        self.sk_8@
    }

    pub closed spec fn spec_sk(self) -> nat {
        le_nat(self.sk@)
    }

    /// A receiver with a fresh clamped key k' and secret k'/8.
    pub fn new(input: Vec<u8>, n: usize) -> (r: Self)
        ensures
            r.spec_input() == input@,
            r.spec_n() == n,
            exists|b: Seq<u8>| b.len() == 32 && r.spec_sk_8() == spec_clamp(b),
            r.spec_sk() < group_order(),
            (r.spec_sk() * 8) % group_order() == le_nat(r.spec_sk_8()) % group_order(),
    {
        let (sk_8, sk) = fresh_secret();
        PartyReceiver { input, n, sk_8, sk }
    }

    /// The receiver's message H(y)^k' for each item y.
    pub fn gen(&self) -> (r: Vec<[u8; 32]>)
        ensures
            exists|original: Seq<[u8; 32]>|
                is_hashed_and_raised(self.spec_input(), self.spec_sk_8(), r@, original),
    {
        let (points, original) = hash_and_raise(&self.input, &self.sk_8, self.n);
        assert(is_hashed_and_raised(self.spec_input(), self.spec_sk_8(), points@, original@));
        points
    }

    /// The sender's points multiplied by k'/8.
    pub fn blind(&self, sender_points: &[[u8; 32]]) -> (r: Vec<[u8; 32]>)
        ensures
            r.len() == sender_points.len(),
            forall|i: int|
                0 <= i < sender_points.len() ==> #[trigger] r[i]@ == spec_mont_mul_scalar(
                    sender_points[i]@,
                    self.spec_sk(),
                ),
    {
        proof {
            use_type_invariant(self);
        }
        raise_all(sender_points, &self.sk)
    }

    /// For each (blinded) sender point, whether it occurs among the shuffled points.
    pub fn compare(&self, sender_points: &[[u8; 32]], shuffled: &[[u8; 32]]) -> (r: Vec<bool>)
        ensures
            r.len() == sender_points.len(),
            forall|i: int|
                0 <= i < sender_points.len() ==> #[trigger] r[i] == exists|j: int|
                    0 <= j < shuffled.len() && bytes_to_field(#[trigger] shuffled[j]@)
                        == bytes_to_field(sender_points[i]@),
    {
        mark_common_points(sender_points, shuffled)
    }
}

// ---------------------------------------------------------------------------
//  Sender-malicious parties over Edwards points (compressed encodings)
// ---------------------------------------------------------------------------
/// The Edwards point of an item: its Montgomery hash converted with sign 0.
pub open spec fn spec_item_edwards(item: Seq<u8>) -> Option<Seq<u8>> {
    spec_mont_to_edwards(spec_hash_to_curve(item), 0)
}

/// Whether every item of an input converts to an Edwards point.
pub open spec fn items_convert(input: Seq<u8>) -> bool {
    forall|i: int| 0 <= i < num_items(input) ==> #[trigger] spec_item_edwards(block_at(input, i)) is Some
}

/// The sender's Edwards points: H(x) and H(x)^k for each item.
pub open spec fn is_hashed_to_edwards(
    input: Seq<u8>,
    sk_8: Seq<u8>,
    points: Seq<[u8; 32]>,
    original: Seq<[u8; 32]>,
) -> bool {
    &&& original.len() == num_items(input)
    &&& points.len() == num_items(input)
    &&& forall|i: int|
        0 <= i < num_items(input) ==> spec_item_edwards(block_at(input, i)) == Some(
            #[trigger] original[i]@,
        ) && spec_ed_valid(original[i]@)
    &&& forall|i: int|
        0 <= i < num_items(input) ==> #[trigger] points[i]@ == spec_ed_mul_clamped(original[i]@, sk_8)
            && spec_ed_valid(points[i]@)
}

/// The receiver's Edwards message: H(y)^k' for each item y.
pub open spec fn is_receiver_message(input: Seq<u8>, sk_8: Seq<u8>, points: Seq<[u8; 32]>) -> bool {
    exists|original: Seq<[u8; 32]>| #[trigger] is_hashed_to_edwards(input, sk_8, points, original)
}

/// Hashes each item to an Edwards point and raises it to the clamped key;
/// `None` when an item's point does not convert.
fn hash_to_edwards_and_raise(input: &Vec<u8>, sk_8: &[u8; 32], cap: usize) -> (r: Option<
    (Vec<[u8; 32]>, Vec<[u8; 32]>),
>)
    ensures
        r is Some <==> items_convert(input@),
        r matches Some(v) ==> is_hashed_to_edwards(input@, sk_8@, v.0@, v.1@),
{
    let count = input.len() / 16;
    let mut points: Vec<[u8; 32]> = Vec::with_capacity(cap);
    let mut original: Vec<[u8; 32]> = Vec::with_capacity(cap);
    let mut i: usize = 0;
    while i < count
        invariant
            count == input.len() / 16,
            i <= count,
            original.len() == i,
            points.len() == i,
            forall|k: int|
                0 <= k < i ==> spec_item_edwards(block_at(input@, k)) == Some(
                    #[trigger] original[k]@,
                ) && spec_ed_valid(original[k]@),
            forall|k: int|
                0 <= k < i ==> #[trigger] points[k]@ == spec_ed_mul_clamped(original[k]@, sk_8@)
                    && spec_ed_valid(points[k]@),
        decreases count - i,
    {
        proof {
            lemma_item_in_bounds(input.len() as int, i as int);
        }
        let item = slice_subrange(input.as_slice(), 16 * i, 16 * i + 16);
        let hm = hash_to_curve(item);
        let hx = match mont_to_edwards(&hm, 0) {
            Some(c) => c,
            None => {
                assert(!(spec_item_edwards(block_at(input@, i as int)) is Some));
                return None;
            },
        };
        let y = ed_mul_clamped(&hx, sk_8);
        original.push(hx);
        points.push(y);
        i = i + 1;
    }
    assert forall|k: int| 0 <= k < num_items(input@) implies #[trigger] spec_item_edwards(
        block_at(input@, k),
    ) is Some by {
        assert(spec_item_edwards(block_at(input@, k)) == Some(original@[k]@));
    }
    Some((points, original))
}

/// Multiplies the points picked by the permutation by the secret scalar;
/// `None` when a picked point does not decompress.
fn shuffle_and_raise_edwards(points: &[[u8; 32]], pi: &Vec<usize>, sk: &[u8; 32]) -> (r: Option<
    Vec<[u8; 32]>,
>)
    requires
        le_nat(sk@) < group_order(),
        forall|k: int| 0 <= k < pi.len() ==> #[trigger] pi[k] < points.len(),
    ensures
        r is Some <==> forall|k: int|
            0 <= k < pi.len() ==> spec_ed_valid(#[trigger] points[pi[k] as int]@),
        r matches Some(v) ==> v.len() == pi.len() && forall|k: int|
            0 <= k < pi.len() ==> #[trigger] v[k]@ == spec_ed_mul(points[pi[k] as int]@, le_nat(sk@)),
{
    let mut out: Vec<[u8; 32]> = Vec::with_capacity(pi.len());
    let mut k: usize = 0;
    while k < pi.len()
        invariant
            k <= pi.len(),
            le_nat(sk@) < group_order(),
            forall|m: int| 0 <= m < pi.len() ==> #[trigger] pi[m] < points.len(),
            out.len() == k,
            forall|m: int| 0 <= m < k ==> spec_ed_valid(#[trigger] points[pi[m] as int]@),
            forall|m: int|
                0 <= m < k ==> #[trigger] out[m]@ == spec_ed_mul(points[pi[m] as int]@, le_nat(sk@)),
        decreases pi.len() - k,
    {
        let idx = pi[k];
        if !ed_valid(&points[idx]) {
            return None;
        }
        out.push(ed_mul(&points[idx], sk));
        k = k + 1;
    }
    Some(out)
}

/// Multiplies each point by the secret scalar, in order; `None` when a
/// point does not decompress.
fn raise_all_edwards(points: &[[u8; 32]], sk: &[u8; 32]) -> (r: Option<Vec<[u8; 32]>>)
    requires
        le_nat(sk@) < group_order(),
    ensures
        r is Some <==> forall|i: int| 0 <= i < points.len() ==> spec_ed_valid(#[trigger] points[i]@),
        r matches Some(v) ==> v.len() == points.len() && forall|i: int|
            0 <= i < points.len() ==> #[trigger] v[i]@ == spec_ed_mul(points[i]@, le_nat(sk@)),
{
    let mut out: Vec<[u8; 32]> = Vec::with_capacity(points.len());
    let mut i: usize = 0;
    while i < points.len()
        invariant
            i <= points.len(),
            le_nat(sk@) < group_order(),
            out.len() == i,
            forall|m: int| 0 <= m < i ==> spec_ed_valid(#[trigger] points[m]@),
            forall|m: int| 0 <= m < i ==> #[trigger] out[m]@ == spec_ed_mul(points[m]@, le_nat(sk@)),
        decreases points.len() - i,
    {
        if !ed_valid(&points[i]) {
            return None;
        }
        out.push(ed_mul(&points[i], sk));
        i = i + 1;
    }
    Some(out)
}

/// Marks, for each sender point, whether the same encoding occurs among the
/// shuffled points.
pub fn mark_equal_points(sender_points: &[[u8; 32]], shuffled: &[[u8; 32]]) -> (r: Vec<bool>)
    ensures
        r.len() == sender_points.len(),
        forall|i: int|
            0 <= i < sender_points.len() ==> #[trigger] r[i] == exists|j: int|
                0 <= j < shuffled.len() && #[trigger] shuffled[j]@ == sender_points[i]@,
{
    let mut indicator: Vec<bool> = Vec::with_capacity(sender_points.len());
    let mut i: usize = 0;
    while i < sender_points.len()
        invariant
            i <= sender_points.len(),
            indicator.len() == i,
            forall|m: int|
                0 <= m < i ==> #[trigger] indicator[m] == exists|j: int|
                    0 <= j < shuffled.len() && #[trigger] shuffled[j]@ == sender_points[m]@,
        decreases sender_points.len() - i,
    {
        let mut found = false;
        let mut k: usize = 0;
        while k < shuffled.len()
            invariant
                k <= shuffled.len(),
                i < sender_points.len(),
                found == exists|j: int| 0 <= j < k && #[trigger] shuffled[j]@ == sender_points[i as int]@,
            decreases shuffled.len() - k,
        {
            if bytes32_eq(&shuffled[k], &sender_points[i]) {
                found = true;
            }
            k = k + 1;
        }
        indicator.push(found);
        i = i + 1;
    }
    indicator
}

/// The sender of the sender-malicious one-sided PSU (Edwards points).
pub struct MsPSender {
    input: Vec<u8>,
    n: usize,
    sk_8: [u8; 32],
    sk: [u8; 32],
    pi: Vec<usize>,
}

impl MsPSender {
    #[verifier::type_invariant]
    spec fn inv(self) -> bool {
        &&& is_secret_of_clamped(self.sk@, self.sk_8@)
        &&& forall|k: int| 0 <= k < self.pi.len() ==> #[trigger] self.pi[k] < self.pi.len()
        &&& is_permutation(self.pi@)
    }

    pub closed spec fn spec_input(self) -> Seq<u8> {
        self.input@
    }

    pub closed spec fn spec_n(self) -> usize {
        self.n
    }

    pub closed spec fn spec_sk_8(self) -> Seq<u8> {
        self.sk_8@
    }

    pub closed spec fn spec_sk(self) -> nat {
        le_nat(self.sk@)
    }

    pub closed spec fn spec_pi(self) -> Seq<usize> {
        self.pi@
    }

    /// The number of items the sender was made for.
    pub fn n(&self) -> (r: usize)
        ensures
            r == self.spec_n(),
    {
        self.n
    }

    /// The number of receiver points the sender permutes.
    pub fn recv_size(&self) -> (r: usize)
        ensures
            r == self.spec_pi().len(),
    {
        self.pi.len()
    }

    /// A sender with a fresh clamped key k and secret k/8, and a random
    /// permutation of the receiver's `recv_size` points.
    pub fn new(input: Vec<u8>, n: usize, recv_size: usize) -> (r: Self)
        ensures
            r.spec_input() == input@,
            r.spec_n() == n,
            exists|b: Seq<u8>| b.len() == 32 && r.spec_sk_8() == spec_clamp(b),
            r.spec_sk() < group_order(),
            (r.spec_sk() * 8) % group_order() == le_nat(r.spec_sk_8()) % group_order(),
            exists|inv: Seq<usize>| is_permutation_pair(r.spec_pi(), inv, recv_size as nat),
    {
        let (sk_8, sk) = fresh_secret();
        let (pi, inv) = random_permutation(recv_size);
        let ghost inv_s = inv@;
        assert(is_permutation_pair(pi@, inv_s, recv_size as nat));
        let r = MsPSender { input, n, sk_8, sk, pi };
        assert(is_permutation_pair(r.spec_pi(), inv@, recv_size as nat));
        assert(is_permutation(r.spec_pi()));
        r
    }

    /// The sender's first message H(x)^k and the points H(x) (both
    /// compressed); `None` when an item's point does not convert.
    pub fn gen(&self) -> (r: Option<(Vec<[u8; 32]>, Vec<[u8; 32]>)>)
        ensures
            r is Some <==> items_convert(self.spec_input()),
            r matches Some(v) ==> is_hashed_to_edwards(self.spec_input(), self.spec_sk_8(), v.0@, v.1@),
    {
        hash_to_edwards_and_raise(&self.input, &self.sk_8, self.n)
    }

    /// The receiver's points, permuted and multiplied by k/8; `None` when a
    /// point does not decompress.
    pub fn blind_and_shuffle(&self, receiver_points: &[[u8; 32]]) -> (r: Option<Vec<[u8; 32]>>)
        requires
            receiver_points.len() >= self.spec_pi().len(),
        ensures
            is_permutation(self.spec_pi()),
            r is Some <==> forall|k: int|
                0 <= k < self.spec_pi().len() ==> spec_ed_valid(
                    #[trigger] receiver_points[self.spec_pi()[k] as int]@,
                ),
            r matches Some(v) ==> v.len() == self.spec_pi().len() && forall|k: int|
                0 <= k < v.len() ==> #[trigger] v[k]@ == spec_ed_mul(
                    receiver_points[self.spec_pi()[k] as int]@,
                    self.spec_sk(),
                ),
    {
        proof {
            use_type_invariant(self);
        }
        shuffle_and_raise_edwards(receiver_points, &self.pi, &self.sk)
    }
}

/// The receiver of the sender-malicious one-sided PSU (Edwards points).
pub struct MsPReceiver {
    input: Vec<u8>,
    n: usize,
    sk_8: [u8; 32],
    sk: [u8; 32],
}

impl MsPReceiver {
    #[verifier::type_invariant]
    spec fn inv(self) -> bool {
        is_secret_of_clamped(self.sk@, self.sk_8@)
    }

    pub closed spec fn spec_input(self) -> Seq<u8> {
        self.input@
    }

    pub closed spec fn spec_n(self) -> usize {
        self.n
    }

    pub closed spec fn spec_sk_8(self) -> Seq<u8> {
        self.sk_8@
    }

    pub closed spec fn spec_sk(self) -> nat {
        le_nat(self.sk@)
    }

    /// A receiver with a fresh clamped key k' and secret k'/8.
    pub fn new(input: Vec<u8>, n: usize) -> (r: Self)
        ensures
            r.spec_input() == input@,
            r.spec_n() == n,
            exists|b: Seq<u8>| b.len() == 32 && r.spec_sk_8() == spec_clamp(b),
            r.spec_sk() < group_order(),
            (r.spec_sk() * 8) % group_order() == le_nat(r.spec_sk_8()) % group_order(),
    {
        let (sk_8, sk) = fresh_secret();
        MsPReceiver { input, n, sk_8, sk }
    }

    /// The receiver's message H(y)^k' (compressed) for each item y; `None`
    /// when an item's point does not convert.
    pub fn gen(&self) -> (r: Option<Vec<[u8; 32]>>)
        ensures
            r is Some <==> items_convert(self.spec_input()),
            r matches Some(v) ==> is_receiver_message(self.spec_input(), self.spec_sk_8(), v@),
    {
        match hash_to_edwards_and_raise(&self.input, &self.sk_8, self.n) {
            Some((points, original)) => {
                assert(is_hashed_to_edwards(self.spec_input(), self.spec_sk_8(), points@, original@));
                assert(is_receiver_message(self.spec_input(), self.spec_sk_8(), points@));
                Some(points)
            },
            None => None,
        }
    }

    /// The sender's points multiplied by k'/8; `None` when one of them does
    /// not decompress.
    pub fn blind(&self, sender_points: &[[u8; 32]]) -> (r: Option<Vec<[u8; 32]>>)
        ensures
            r is Some <==> forall|i: int|
                0 <= i < sender_points.len() ==> spec_ed_valid(#[trigger] sender_points[i]@),
            r matches Some(v) ==> v.len() == sender_points.len() && forall|i: int|
                0 <= i < sender_points.len() ==> #[trigger] v[i]@ == spec_ed_mul(
                    sender_points[i]@,
                    self.spec_sk(),
                ),
    {
        proof {
            use_type_invariant(self);
        }
        raise_all_edwards(sender_points, &self.sk)
    }

    /// For each (blinded) sender point, whether it occurs among the shuffled points.
    pub fn compare(&self, sender_points: &[[u8; 32]], shuffled: &[[u8; 32]]) -> (r: Vec<bool>)
        ensures
            r.len() == sender_points.len(),
            forall|i: int|
                0 <= i < sender_points.len() ==> #[trigger] r[i] == exists|j: int|
                    0 <= j < shuffled.len() && #[trigger] shuffled[j]@ == sender_points[i]@,
    {
        mark_equal_points(sender_points, shuffled)
    }
}

// ---------------------------------------------------------------------------
//  Proofs that the sender used its key, one per item
// ---------------------------------------------------------------------------
/// The digest H(x) || H(x)^k || H(x)^r of a proof, with H(x)^r = `mul_clamped(H(x), r_8)`.
pub open spec fn proof_digest(original: Seq<u8>, point: Seq<u8>, r_8: Seq<u8>) -> Seq<u8> {
    spec_blake2s256(original + point + spec_ed_mul_clamped(original, r_8))
}

/// The challenge of a digest: its low 16 bytes as a scalar.
pub open spec fn challenge_value(digest: Seq<u8>) -> nat {
    le_nat(digest.subrange(0, 16) + Seq::new(16, |i: int| 0u8)) % group_order()
}

/// The sender's proof for one item: the challenge c (16 bytes) and the
/// response z = r - c k (its low and high 16 bytes), where r = r_8 / 8.
pub(crate) fn proof_item(original: &[u8; 32], point: &[u8; 32], r_8: &[u8; 32], r: &[u8; 32], sk: &[u8; 32]) -> (res: (
    [u8; 16],
    [u8; 16],
    [u8; 16],
))
    requires
        spec_ed_valid(original@),
        le_nat(r@) < group_order(),
        le_nat(sk@) < group_order(),
    ensures
        res.0@ == proof_digest(original@, point@, r_8@).subrange(0, 16),
        le_nat(res.1@ + res.2@) == (le_nat(r@) + group_order() - (challenge_value(
            proof_digest(original@, point@, r_8@),
        ) * le_nat(sk@)) % group_order()) % (group_order() as int),
{
    let t = ed_mul_clamped(original, r_8);
    let mut transcript: Vec<u8> = Vec::with_capacity(96);
    push_bytes(&mut transcript, original);
    push_bytes(&mut transcript, point);
    push_bytes(&mut transcript, &t);
    let mut hc = blake2s256(transcript.as_slice());
    proof {
        assert(transcript@ =~= original@ + point@ + t@);
    }
    let ghost digest = hc@;
    clear_high_bits(&mut hc);
    let c = scalar_reduce(&hc);
    let ck = scalar_mul(&c, sk);
    let z = scalar_sub(r, &ck);
    let c_block = low_half(&hc);
    let z0 = low_half(&z);
    let z1 = high_half(&z);
    proof {
        assert(c_block@ =~= digest.subrange(0, 16));
        assert(z0@ + z1@ =~= z@);
    }
    (c_block, z0, z1)
}

/// The first 16 bytes.
pub fn low_half(b: &[u8; 32]) -> (r: [u8; 16])
    ensures
        r@ == b@.subrange(0, 16),
{
    let mut out = [0u8; 16];
    let mut i: usize = 0;
    while i < 16
        invariant
            i <= 16,
            forall|j: int| 0 <= j < i ==> out[j] == b[j],
        decreases 16 - i,
    {
        out[i] = b[i];
        i = i + 1;
    }
    assert(out@ =~= b@.subrange(0, 16));
    out
}

/// The last 16 bytes.
pub fn high_half(b: &[u8; 32]) -> (r: [u8; 16])
    ensures
        r@ == b@.subrange(16, 32),
{
    let mut out = [0u8; 16];
    let mut i: usize = 0;
    while i < 16
        invariant
            i <= 16,
            forall|j: int| 0 <= j < i ==> out[j] == b[j + 16],
        decreases 16 - i,
    {
        out[i] = b[i + 16];
        i = i + 1;
    }
    assert(out@ =~= b@.subrange(16, 32));
    out
}

/// c and z (32 bytes) are a proof for the point H(x)^k of H(x) under the
/// secret k/8 = `sk`, made with the clamped randomness r_8 whose eighth is rv.
pub open spec fn is_item_proof(
    original: Seq<u8>,
    point: Seq<u8>,
    sk: nat,
    c: Seq<u8>,
    z: Seq<u8>,
    r_8: Seq<u8>,
    rv: nat,
) -> bool {
    &&& rv < group_order()
    &&& (rv * 8) % group_order() == le_nat(r_8) % group_order()
    &&& c == proof_digest(original, point, r_8).subrange(0, 16)
    &&& le_nat(z) == (rv + group_order() - (challenge_value(proof_digest(original, point, r_8))
        * sk) % group_order()) % (group_order() as int)
}

/// c and z are a proof for the point H(x)^k of H(x) under the secret k/8 = `sk`,
/// for some clamped randomness.
pub open spec fn has_item_proof(original: Seq<u8>, point: Seq<u8>, sk: nat, c: Seq<u8>, z: Seq<u8>) -> bool {
    exists|r_8: Seq<u8>, rv: nat| #[trigger] is_item_proof(original, point, sk, c, z, r_8, rv)
}

/// What the sender hands over, per item: the challenge and the two halves
/// of the response.
pub struct ItemProofs {
    pub c: Vec<[u8; 16]>,
    pub z0: Vec<[u8; 16]>,
    pub z1: Vec<[u8; 16]>,
}

/// The sender's proofs for its points, with fresh randomness for each;
/// `None` when one of the points H(x) does not decompress.
pub fn prove_items(sender: &MsPSender, points: &[[u8; 32]], original: &[[u8; 32]]) -> (r: Option<ItemProofs>)
    requires
        points.len() == original.len(),
    ensures
        r is Some <==> forall|i: int| 0 <= i < original.len() ==> spec_ed_valid(#[trigger] original[i]@),
        r matches Some(p) ==> {
            &&& p.c.len() == original.len()
            &&& p.z0.len() == original.len()
            &&& p.z1.len() == original.len()
            &&& forall|i: int|
                0 <= i < original.len() ==> #[trigger] has_item_proof(
                    original[i]@,
                    points[i]@,
                    sender.spec_sk(),
                    p.c[i]@,
                    p.z0[i]@ + p.z1[i]@,
                )
        },
{
    let mut k: usize = 0;
    while k < original.len()
        invariant
            k <= original.len(),
            forall|j: int| 0 <= j < k ==> spec_ed_valid(#[trigger] original[j]@),
        decreases original.len() - k,
    {
        if !ed_valid(&original[k]) {
            return None;
        }
        k = k + 1;
    }
    proof {
        use_type_invariant(sender);
    }
    let mut c: Vec<[u8; 16]> = Vec::with_capacity(original.len());
    let mut z0: Vec<[u8; 16]> = Vec::with_capacity(original.len());
    let mut z1: Vec<[u8; 16]> = Vec::with_capacity(original.len());
    let ghost mut r8s: Seq<Seq<u8>> = Seq::empty();
    let ghost mut rvs: Seq<nat> = Seq::empty();
    let mut i: usize = 0;
    while i < original.len()
        invariant
            i <= original.len(),
            points.len() == original.len(),
            forall|m: int| 0 <= m < original.len() ==> spec_ed_valid(#[trigger] original[m]@),
            le_nat(sender.sk@) < group_order(),
            c.len() == i,
            z0.len() == i,
            z1.len() == i,
            r8s.len() == i,
            rvs.len() == i,
            forall|m: int|
                0 <= m < i ==> #[trigger] is_item_proof(
                    original[m]@,
                    points[m]@,
                    le_nat(sender.sk@),
                    c@[m]@,
                    z0@[m]@ + z1@[m]@,
                    r8s[m],
                    rvs[m],
                ),
        decreases original.len() - i,
    {
        let (r_8, r) = fresh_secret();
        let (ci, z0i, z1i) = proof_item(&original[i], &points[i], &r_8, &r, &sender.sk);
        c.push(ci);
        z0.push(z0i);
        z1.push(z1i);
        proof {
            r8s = r8s.push(r_8@);
            rvs = rvs.push(le_nat(r@));
        }
        i = i + 1;
    }
    let r = ItemProofs { c, z0, z1 };
    assert forall|k: int| 0 <= k < original.len() implies #[trigger] has_item_proof(
        original[k]@,
        points[k]@,
        sender.spec_sk(),
        r.c[k]@,
        r.z0[k]@ + r.z1[k]@,
    ) by {
        assert(is_item_proof(
            original[k]@,
            points[k]@,
            sender.spec_sk(),
            r.c[k]@,
            r.z0[k]@ + r.z1[k]@,
            r8s[k],
            rvs[k],
        ));
    }
    Some(r)
}

/// The receiver's recomputation of one proof's digest: g = H(item) as an
/// Edwards point, g^r = (8 g)^z h^c, digest of g || h || g^r.  `None` when g
/// does not convert or h does not decompress.
pub open spec fn spec_item_challenge(
    item: Seq<u8>,
    h: Seq<u8>,
    c: Seq<u8>,
    z0: Seq<u8>,
    z1: Seq<u8>,
) -> Option<Seq<u8>> {
    match spec_item_edwards(item) {
        None => None,
        Some(g) => if !spec_ed_valid(h) {
            None
        } else {
            let cs = le_nat(c + Seq::new(16, |i: int| 0u8)) % group_order();
            let zs = le_nat(z0 + z1) % group_order();
            let gr = spec_ed_msm(seq![zs, cs], seq![spec_ed_mul_by_cofactor(g), h]);
            Some(spec_blake2s256(g + h + gr))
        },
    }
}

/// The receiver's recomputation of the digest of one proof.
pub fn item_challenge(
    item: &[u8; 16],
    h: &[u8; 32],
    c: &[u8; 16],
    z0: &[u8; 16],
    z1: &[u8; 16],
) -> (r: Option<[u8; 32]>)
    ensures
        match r {
            Some(d) => spec_item_challenge(item@, h@, c@, z0@, z1@) == Some(d@),
            None => spec_item_challenge(item@, h@, c@, z0@, z1@) is None,
        },
{
    let hm = hash_to_curve(item);
    let g = match mont_to_edwards(&hm, 0) {
        Some(g) => g,
        None => return None,
    };
    if !ed_valid(h) {
        return None;
    }
    let cs = scalar_reduce(&set_high_bits(c));
    let zs = scalar_reduce(&combine_array(z0, z1));
    let g8 = ed_mul_by_cofactor(&g);
    let scalars: [[u8; 32]; 2] = [zs, cs];
    let bases: [[u8; 32]; 2] = [g8, *h];
    let gr = ed_msm(&scalars, &bases);
    proof {
        assert(scalar_values(scalars@) =~= seq![le_nat(zs@), le_nat(cs@)]);
        assert(views(bases@) =~= seq![g8@, h@]);
    }
    let mut transcript: Vec<u8> = Vec::with_capacity(96);
    push_bytes(&mut transcript, &g);
    push_bytes(&mut transcript, h);
    push_bytes(&mut transcript, &gr);
    proof {
        assert(transcript@ =~= g@ + h@ + gr@);
    }
    Some(blake2s256(transcript.as_slice()))
}

/// The digest as a byte string, when there is one.
pub open spec fn digest_view(o: Option<[u8; 32]>) -> Option<Seq<u8>> {
    match o {
        Some(d) => Some(d@),
        None => None,
    }
}

/// The receiver's recomputed digests, in order, for the first k items that
/// its indicator marks as not held.
pub open spec fn spec_unheld_challenges(
    items: Seq<[u8; 16]>,
    points: Seq<[u8; 32]>,
    indicator: Seq<bool>,
    proofs: ItemProofs,
    k: int,
) -> Seq<Option<Seq<u8>>>
    decreases k,
{
    if k <= 0 {
        Seq::empty()
    } else {
        let prev = spec_unheld_challenges(items, points, indicator, proofs, k - 1);
        let i = k - 1;
        if !indicator[i] {
            prev.push(
                spec_item_challenge(items[i]@, points[i]@, proofs.c@[i]@, proofs.z0@[i]@, proofs.z1@[i]@),
            )
        } else {
            prev
        }
    }
}

/// For each item (as far as items, points, indicator and proofs all reach)
/// that the indicator marks as not held, the digest that the receiver
/// recomputes from the sender's proof for it.
pub fn unheld_challenges(
    items: &[[u8; 16]],
    points: &[[u8; 32]],
    indicator: &[bool],
    proofs: &ItemProofs,
) -> (r: Vec<Option<[u8; 32]>>)
    ensures
        r@.map_values(|o: Option<[u8; 32]>| digest_view(o)) == spec_unheld_challenges(
            items@,
            points@,
            indicator@,
            *proofs,
            min_len(items.len(), points.len(), indicator.len(), *proofs) as int,
        ),
{
    let m = items.len();
    let m = if points.len() < m { points.len() } else { m };
    let m = if indicator.len() < m { indicator.len() } else { m };
    let m = if proofs.c.len() < m { proofs.c.len() } else { m };
    let m = if proofs.z0.len() < m { proofs.z0.len() } else { m };
    let m = if proofs.z1.len() < m { proofs.z1.len() } else { m };
    let mut r: Vec<Option<[u8; 32]>> = Vec::new();
    let mut i: usize = 0;
    while i < m
        invariant
            m == min_len(items.len(), points.len(), indicator.len(), *proofs),
            i <= m,
            r@.map_values(|o: Option<[u8; 32]>| digest_view(o)) == spec_unheld_challenges(
                items@,
                points@,
                indicator@,
                *proofs,
                i as int,
            ),
        decreases m - i,
    {
        let ghost before = r@;
        if !indicator[i] {
            let d = item_challenge(&items[i], &points[i], &proofs.c[i], &proofs.z0[i], &proofs.z1[i]);
            r.push(d);
            proof {
                assert(r@.map_values(|o: Option<[u8; 32]>| digest_view(o)) =~= before.map_values(
                    |o: Option<[u8; 32]>| digest_view(o),
                ).push(digest_view(d)));
            }
        }
        i = i + 1;
    }
    r
}

/// The shortest of the lengths of items, points, indicator and proofs.
pub open spec fn min_len(a: usize, b: usize, c: usize, proofs: ItemProofs) -> usize {
    let m = if b < a { b } else { a };
    let m = if c < m { c } else { m };
    let m = if proofs.c.len() < m { proofs.c.len() } else { m };
    let m = if proofs.z0.len() < m { proofs.z0.len() } else { m };
    if proofs.z1.len() < m { proofs.z1.len() } else { m }
}

// ---------------------------------------------------------------------------
//  Byte-array helpers
// ---------------------------------------------------------------------------
/// Sets bytes 16..32 to zero.
pub fn clear_high_bits(arr: &mut [u8; 32])
    ensures
        final(arr)@ == old(arr)@.subrange(0, 16) + Seq::new(16, |i: int| 0u8),
{
    let mut i: usize = 16;
    while i < 32
        invariant
            16 <= i <= 32,
            forall|j: int| 0 <= j < 16 ==> arr[j] == old(arr)[j],
            forall|j: int| 16 <= j < i ==> arr[j] == 0,
        decreases 32 - i,
    {
        arr[i] = 0;
        i = i + 1;
    }
    assert(arr@ =~= old(arr)@.subrange(0, 16) + Seq::new(16, |i: int| 0u8));
}

/// The 16 bytes followed by 16 zero bytes.
pub fn set_high_bits(arr: &[u8; 16]) -> (r: [u8; 32])
    ensures
        r@ == arr@ + Seq::new(16, |i: int| 0u8),
{
    combine_array(arr, &[0u8; 16])
}

/// The low 16 bytes followed by the high 16 bytes.
pub fn combine_array(low: &[u8; 16], high: &[u8; 16]) -> (r: [u8; 32])
    ensures
        r@ == low@ + high@,
{
    let mut arr32 = [0u8; 32];
    let mut i: usize = 0;
    while i < 16
        invariant
            i <= 16,
            forall|j: int| 0 <= j < i ==> arr32[j] == low[j] && arr32[j + 16] == high[j],
        decreases 16 - i,
    {
        arr32[i] = low[i];
        arr32[i + 16] = high[i];
        i = i + 1;
    }
    assert(arr32@ =~= low@ + high@);
    arr32
}

} // verus!
