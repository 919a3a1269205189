//! The malicious two-sided-output PSU: its parties, and the check of its output.
use vstd::prelude::*;
use std::collections::HashSet;
use vstd::slice::slice_subrange;
use crate::aok::{
    adapted_proof_is_wf, is_permutation, ddh_proof_is_wf, points_valid, adapted_proof_wf, adapted_verify_outcome, all_valid, batched_ddh_prove, batched_ddh_verify,
    ddh_check, flat, has_ddh_proof, indexes, is_adapted_hint, is_adapted_proof, is_inverse,
    is_permutation_pair, prove_shuffle_adapted, prove_shuffle_adapted_preprocess, push_all,
    random_permutation, smul, verify_shuffle_adapted, AdaptedShuffleHint, AdaptedShuffleProof,
    BatchedDDHProof, PublicParams,
};
use crate::channel::Message;
use crate::crypto::{blake2s256, push_bytes, spec_blake2s256};
use crate::curve::{
    ed_mul, ed_mul_base, ed_valid, ed_mul_clamped, group_order, scalar_from_u64, scalar_invert, scalar_mul,
    spec_ed_mul, spec_ed_mul_base, spec_ed_mul_clamped, spec_ed_valid, views,
};
use crate::feistel::{prp_keys, FeistelPrp256};
use crate::field::{le_nat, lemma_le_nat_injective, pow256};
use crate::mapping::{hash_to_point, recover_from_point, spec_hash_to_point, spec_recover_from};
use crate::onesided::{
    bytes32_eq, fresh_secret, is_secret_of_clamped, lemma_item_in_bounds, num_items, spec_clamp,
};

verus! {

broadcast use vstd::std_specs::hash::group_hash_axioms;

/// The k-th 16-byte block of a byte string.
pub open spec fn block_at(s: Seq<u8>, k: int) -> Seq<u8> {
    s.subrange(16 * k, 16 * k + 16)
}

/// Whether b is one of the 16-byte blocks of s.
pub open spec fn has_block(s: Seq<u8>, b: Seq<u8>) -> bool {
    exists|k: int| 0 <= k < s.len() / 16 && #[trigger] block_at(s, k) == b
}

/// Every block of `recovered` is a block of `w` and not a block of `v`,
/// i.e. the recovered items lie in the set difference W \ V.
pub open spec fn spec_correctness_check(v: Seq<u8>, w: Seq<u8>, recovered: Seq<u8>) -> bool {
    forall|k: int|
        0 <= k < recovered.len() / 16 ==> has_block(w, #[trigger] block_at(recovered, k)) && !has_block(
            v,
            block_at(recovered, k),
        )
}

/// The keys (little-endian values) of the first k blocks.
pub open spec fn block_keys(s: Seq<u8>, k: int) -> Set<u128> {
    Set::new(|x: u128| exists|i: int| 0 <= i < k && le_nat(#[trigger] block_at(s, i)) == x)
}

proof fn lemma_le_nat_bound(s: Seq<u8>)
    ensures
        le_nat(s) < pow256(s.len()),
    decreases s.len(),
{
    if s.len() > 0 {
        lemma_le_nat_bound(s.drop_first());
        assert(s[0] + 256 * le_nat(s.drop_first()) < 256 * pow256((s.len() - 1) as nat)) by (nonlinear_arith)
            requires
                s[0] < 256,
                le_nat(s.drop_first()) < pow256((s.len() - 1) as nat),
        ;
    }
}

proof fn lemma_pow256_16()
    ensures
        pow256(16) == 0x1_0000_0000_0000_0000_0000_0000_0000_0000nat,
{
    reveal_with_fuel(pow256, 17);
}

/// The little-endian value of the k-th 16-byte block of s.
fn block_key(s: &Vec<u8>, k: usize) -> (r: u128)
    requires
        16 * k + 16 <= s.len(),
    ensures
        r as nat == le_nat(block_at(s@, k as int)),
{
    let base = 16 * k;
    let mut acc: u128 = 0;
    let mut j: usize = 16;
    proof {
        assert(s@.subrange(base + 16, base + 16) =~= Seq::<u8>::empty());
    }
    while j > 0
        invariant
            j <= 16,
            base == 16 * k,
            base + 16 <= s.len(),
            acc as nat == le_nat(s@.subrange(base + j, base + 16)),
        decreases j,
    {
        let ghost tail = s@.subrange(base + j, base + 16);
        proof {
            lemma_le_nat_bound(tail);
            lemma_pow_256_le(tail.len());
            lemma_pow256_16();
        }
        let b = s[base + j - 1];
        assert(acc * 256 + b < 0x1_0000_0000_0000_0000_0000_0000_0000_0000nat) by (nonlinear_arith)
            requires
                acc < pow256(tail.len()),
                pow256(tail.len()) * 256 <= 0x1_0000_0000_0000_0000_0000_0000_0000_0000nat,
                b < 256,
        ;
        acc = acc * 256 + (b as u128);
        proof {
            let longer = s@.subrange(base + j - 1, base + 16);
            assert(longer.drop_first() =~= tail);
        }
        j = j - 1;
    }
    acc
}

/// 256^n * 256 <= 2^128 for n < 16.
proof fn lemma_pow_256_le(n: nat)
    requires
        n < 16,
    ensures
        pow256(n) * 256 <= 0x1_0000_0000_0000_0000_0000_0000_0000_0000nat,
{
    reveal_with_fuel(pow256, 17);
    lemma_pow256_mono(n, 15);
}

proof fn lemma_pow256_mono(a: nat, b: nat)
    requires
        a <= b,
    ensures
        pow256(a) <= pow256(b),
    decreases b,
{
    if a < b {
        lemma_pow256_mono(a, (b - 1) as nat);
    }
}

/// The set of the keys of the 16-byte blocks of s.
fn block_set(s: &Vec<u8>) -> (r: HashSet<u128>)
    requires
        s.len() % 16 == 0,
    ensures
        r@ == block_keys(s@, (s.len() / 16) as int),
{
    let n = s.len() / 16;
    let mut set: HashSet<u128> = HashSet::new();
    let mut k: usize = 0;
    assert(set@ =~= block_keys(s@, 0));
    while k < n
        invariant
            n == s.len() / 16,
            s.len() % 16 == 0,
            k <= n,
            set@ == block_keys(s@, k as int),
        decreases n - k,
    {
        let key = block_key(s, k);
        set.insert(key);
        proof {
            assert forall|x: u128| #[trigger] set@.contains(x) == block_keys(s@, k + 1).contains(x) by {
                if x == key {
                    assert(le_nat(block_at(s@, k as int)) == x);
                }
            }
            assert(set@ =~= block_keys(s@, k + 1));
        }
        k = k + 1;
    }
    set
}

proof fn lemma_block_len(s: Seq<u8>, k: int)
    requires
        0 <= k < s.len() / 16,
    ensures
        block_at(s, k).len() == 16,
{
    assert(16 * k + 16 <= s.len()) by (nonlinear_arith)
        requires
            0 <= k < s.len() / 16,
    ;
}

/// For a 16-byte block b: b is a block of s iff its key is in the key set.
proof fn lemma_has_block_key(s: Seq<u8>, b: Seq<u8>)
    requires
        b.len() == 16,
    ensures
        has_block(s, b) == block_keys(s, (s.len() / 16) as int).contains(le_nat(b) as u128),
{
    lemma_le_nat_bound(b);
    lemma_pow256_16();
    if block_keys(s, (s.len() / 16) as int).contains(le_nat(b) as u128) {
        let i = choose|i: int|
            0 <= i < s.len() / 16 && le_nat(#[trigger] block_at(s, i)) == le_nat(b) as u128;
        lemma_block_len(s, i);
        lemma_le_nat_injective(block_at(s, i), b);
    }
    if has_block(s, b) {
        let i = choose|i: int| 0 <= i < s.len() / 16 && #[trigger] block_at(s, i) == b;
        assert(le_nat(block_at(s, i)) == le_nat(b) as u128);
    }
}

/// The items common ++ own, each of 16 bytes.
pub open spec fn joined_items(common: Seq<[u8; 16]>, own: Seq<[u8; 16]>) -> Seq<[u8; 16]> {
    common + own
}

/// The items taken in the order perm (block i of the result is item
/// perm[i]), concatenated.
fn arrange_blocks(items: &[[u8; 16]], perm: &[usize]) -> (r: Vec<u8>)
    requires
        indexes(perm@, items.len() as nat),
        16 * perm.len() <= usize::MAX,
    ensures
        r.len() == 16 * perm.len(),
        forall|i: int| 0 <= i < perm.len() ==> #[trigger] block_at(r@, i) == items@[perm@[i] as int]@,
{
    let mut out: Vec<u8> = Vec::new();
    let mut i: usize = 0;
    while i < perm.len()
        invariant
            indexes(perm@, items.len() as nat),
            16 * perm.len() <= usize::MAX,
            i <= perm.len(),
            out.len() == 16 * i,
            forall|k: int| 0 <= k < i ==> #[trigger] block_at(out@, k) == items@[perm@[k] as int]@,
        decreases perm.len() - i,
    {
        let ghost before = out@;
        let item = items[perm[i]];
        push_bytes(&mut out, &item);
        proof {
            assert forall|k: int| 0 <= k < i + 1 implies #[trigger] block_at(out@, k) == items@[perm@[k] as int]@ by {
                if k < i {
                    assert(block_at(out@, k) =~= block_at(before, k));
                } else {
                    assert(block_at(out@, k) =~= item@);
                }
            }
        }
        i = i + 1;
    }
    out
}

/// common ++ own as one list.
fn join_items(common: &[[u8; 16]], own: &[[u8; 16]]) -> (r: Vec<[u8; 16]>)
    ensures
        r@ == joined_items(common@, own@),
{
    let mut v: Vec<[u8; 16]> = Vec::new();
    let mut i: usize = 0;
    while i < common.len()
        invariant
            i <= common.len(),
            v@ == common@.take(i as int),
        decreases common.len() - i,
    {
        v.push(common[i]);
        i = i + 1;
        assert(v@ =~= common@.take(i as int));
    }
    let mut j: usize = 0;
    while j < own.len()
        invariant
            j <= own.len(),
            v@ == common@ + own@.take(j as int),
        decreases own.len() - j,
    {
        v.push(own[j]);
        j = j + 1;
        assert(v@ =~= common@ + own@.take(j as int));
    }
    assert(common@.take(common.len() as int) =~= common@);
    assert(own@.take(own.len() as int) =~= own@);
    v
}

/// Two inputs with a chosen intersection: V holds the common items and
/// `own_v`, arranged by `perm_v` (its item i is item perm_v[i] of
/// common ++ own_v), and W likewise with `own_w` and `perm_w`; each input
/// is its items concatenated.
pub fn assemble_inputs(
    common: &[[u8; 16]],
    own_v: &[[u8; 16]],
    own_w: &[[u8; 16]],
    perm_v: &[usize],
    perm_w: &[usize],
) -> (r: (Vec<u8>, Vec<u8>))
    requires
        common.len() + own_v.len() == perm_v.len(),
        common.len() + own_w.len() == perm_w.len(),
        is_permutation(perm_v@),
        is_permutation(perm_w@),
        16 * perm_v.len() <= usize::MAX,
        16 * perm_w.len() <= usize::MAX,
    ensures
        r.0.len() == 16 * perm_v.len(),
        r.1.len() == 16 * perm_w.len(),
        forall|i: int|
            0 <= i < perm_v.len() ==> #[trigger] block_at(r.0@, i) == joined_items(common@, own_v@)[perm_v@[i] as int]@,
        forall|i: int|
            0 <= i < perm_w.len() ==> #[trigger] block_at(r.1@, i) == joined_items(common@, own_w@)[perm_w@[i] as int]@,
{
    proof {
        let inv_v = choose|inv: Seq<usize>| #[trigger] is_permutation_pair(perm_v@, inv, perm_v@.len());
        let inv_w = choose|inv: Seq<usize>| #[trigger] is_permutation_pair(perm_w@, inv, perm_w@.len());
        assert(is_permutation_pair(perm_v@, inv_v, perm_v@.len()));
        assert(is_permutation_pair(perm_w@, inv_w, perm_w@.len()));
    }
    let items_v = join_items(common, own_v);
    let items_w = join_items(common, own_w);
    let input_v = arrange_blocks(items_v.as_slice(), perm_v);
    let input_w = arrange_blocks(items_w.as_slice(), perm_w);
    (input_v, input_w)
}

/// Checks that the PSU output `recovered_w` only holds items of `input_w`
/// that are not items of `input_v` (all three are sequences of 16-byte items).
pub fn correctness_check(input_v: &Vec<u8>, input_w: &Vec<u8>, recovered_w: &Vec<u8>) -> (r: bool)
    requires
        input_v.len() % 16 == 0,
        input_w.len() % 16 == 0,
        recovered_w.len() % 16 == 0,
    ensures
        r == spec_correctness_check(input_v@, input_w@, recovered_w@),
{
    let set_v = block_set(input_v);
    let set_w = block_set(input_w);
    let n = recovered_w.len() / 16;
    let mut k: usize = 0;
    while k < n
        invariant
            n == recovered_w.len() / 16,
            recovered_w.len() % 16 == 0,
            k <= n,
            set_v@ == block_keys(input_v@, (input_v.len() / 16) as int),
            set_w@ == block_keys(input_w@, (input_w.len() / 16) as int),
            forall|i: int|
                0 <= i < k ==> has_block(input_w@, #[trigger] block_at(recovered_w@, i)) && !has_block(
                    input_v@,
                    block_at(recovered_w@, i),
                ),
        decreases n - k,
    {
        let key = block_key(recovered_w, k);
        proof {
            lemma_block_len(recovered_w@, k as int);
            lemma_has_block_key(input_w@, block_at(recovered_w@, k as int));
            lemma_has_block_key(input_v@, block_at(recovered_w@, k as int));
        }
        if !set_w.contains(&key) {
            return false;
        }
        if set_v.contains(&key) {
            return false;
        }
        k = k + 1;
    }
    true
}

// ---------------------------------------------------------------------------
//  The parties of the malicious two-sided-output PSU
// ---------------------------------------------------------------------------
/// A party of the symmetric two-sided-output PSU.
pub struct Party {
    server: bool,
    input: Vec<u8>,
    n: usize,
    sk_8: [u8; 32],
    sk: [u8; 32],
    sk_inv: [u8; 32],
    sk_8inv: [u8; 32],
    pk: [u8; 32],
    pi: Vec<usize>,
    pi_inv: Vec<usize>,
    hint: AdaptedShuffleHint,
    permut: FeistelPrp256,
}

/// sk_8inv is 1 / (8 sk): the product of the inverse of sk and the inverse of 8.
pub open spec fn is_eighth_inverse(sk_8inv: nat, sk_inv: nat) -> bool {
    exists|inv8: nat| is_inverse(inv8, 8) && #[trigger] smul(sk_inv, inv8) == sk_8inv
}

impl Party {
    #[verifier::type_invariant]
    spec fn inv(self) -> bool {
        &&& is_secret_of_clamped(self.sk@, self.sk_8@)
        &&& le_nat(self.sk_inv@) < group_order()
        &&& le_nat(self.sk@) != 0 ==> is_inverse(le_nat(self.sk_inv@), le_nat(self.sk@))
        &&& le_nat(self.sk_8inv@) < group_order()
        &&& is_eighth_inverse(le_nat(self.sk_8inv@), le_nat(self.sk_inv@))
        &&& self.pk@ == spec_ed_mul_base(le_nat(self.sk@))
        &&& spec_ed_valid(self.pk@)
        &&& is_permutation_pair(self.pi@, self.pi_inv@, self.pi.len() as nat)
        &&& self.hint.wf(self.pi.len() as nat)
        &&& self.pi.len() == self.n
    }

    pub closed spec fn spec_server(self) -> bool {
        self.server
    }

    pub closed spec fn spec_input(self) -> Seq<u8> {
        self.input@
    }

    pub closed spec fn spec_n(self) -> usize {
        self.n
    }

    pub closed spec fn spec_sk_8(self) -> Seq<u8> {
        self.sk_8@
    }

    pub closed spec fn spec_sk(self) -> nat {
        le_nat(self.sk@)
    }

    pub closed spec fn spec_sk_inv(self) -> nat {
        le_nat(self.sk_inv@)
    }

    pub closed spec fn spec_sk_8inv(self) -> nat {
        le_nat(self.sk_8inv@)
    }

    pub closed spec fn spec_pk(self) -> Seq<u8> {
        self.pk@
    }

    pub closed spec fn spec_pi(self) -> Seq<usize> {
        self.pi@
    }

    pub closed spec fn spec_pi_inv(self) -> Seq<usize> {
        self.pi_inv@
    }

    pub closed spec fn spec_hint(self) -> AdaptedShuffleHint {
        self.hint
    }

    pub closed spec fn spec_keys(self) -> Seq<Seq<u8>> {
        self.permut.keys()
    }

    #[verifier::rlimit(40)]
    /// A party with a fresh clamped key k, the secret s = k/8, 1/s and
    /// 1/(8 s), the public key s B, a random permutation of the other
    /// party's items, the PRP keyed by `aes_key`, and the preprocessed
    /// adapted-shuffle hint.
    pub fn new(
        server: bool,
        input: Vec<u8>,
        aes_key: &[u8; 16],
        pp: &PublicParams,
        n: usize,
        n_other: usize,
    ) -> (r: Self)
        requires
            n >= 1,
            n_other == n,
            pp.gens().len() == n,
        ensures
            r.spec_server() == server,
            r.spec_input() == input@,
            r.spec_n() == n,
            exists|b: Seq<u8>| b.len() == 32 && r.spec_sk_8() == spec_clamp(b),
            r.spec_sk() < group_order(),
            (r.spec_sk() * 8) % group_order() == le_nat(r.spec_sk_8()) % group_order(),
            r.spec_sk() != 0 ==> is_inverse(r.spec_sk_inv(), r.spec_sk()),
            is_eighth_inverse(r.spec_sk_8inv(), r.spec_sk_inv()),
            r.spec_pk() == spec_ed_mul_base(r.spec_sk()),
            is_permutation_pair(r.spec_pi(), r.spec_pi_inv(), n_other as nat),
            is_adapted_hint(pp.gens(), r.spec_pi(), r.spec_hint(), n as nat),
            r.spec_keys() == prp_keys(aes_key@),
    {
        let (sk_8, sk) = fresh_secret();
        let sk_inv = scalar_invert(&sk);
        let eight = scalar_from_u64(8);
        let inv8 = scalar_invert(&eight);
        let sk_8inv = scalar_mul(&sk_inv, &inv8);
        let pk = ed_mul_base(&sk);
        let (pi, pi_inv) = random_permutation(n_other);
        let permut = FeistelPrp256::new(aes_key);
        let hint = prove_shuffle_adapted_preprocess(pp, pi.as_slice(), n);
        proof {
            assert(is_eighth_inverse(le_nat(sk_8inv@), le_nat(sk_inv@))) by {
                assert(is_inverse(le_nat(inv8@), 8));
                assert(smul(le_nat(sk_inv@), le_nat(inv8@)) == le_nat(sk_8inv@));
            }
        }
        Party { server, input, n, sk_8, sk, sk_inv, sk_8inv, pk, pi, pi_inv, hint, permut }
    }

    /// Whether this party speaks first in each round.
    pub fn server(&self) -> (r: bool)
        ensures
            r == self.spec_server(),
    {
        self.server
    }

    /// The number of items.
    pub fn n(&self) -> (r: usize)
        ensures
            r == self.spec_n(),
    {
        self.n
    }

    /// The public key s B.
    pub fn pk(&self) -> (r: [u8; 32])
        ensures
            r@ == self.spec_pk(),
            spec_ed_valid(r@),
    {
        proof {
            use_type_invariant(self);
        }
        self.pk
    }

    /// The party's first messages: the points H(x)^k (compressed) of its
    /// items, and sigma = BLAKE2s(pk || points); `None` when an item's point
    /// does not convert.
    pub fn gen(&self) -> (r: Option<([u8; 32], Vec<[u8; 32]>)>)
        ensures
            r is Some <==> items_hash_to_points(self.spec_keys(), self.spec_input()),
            r matches Some(v) ==> is_first_message(
                self.spec_keys(),
                self.spec_input(),
                self.spec_sk_8(),
                self.spec_pk(),
                v.0@,
                v.1@,
            ),
    {
        first_message(self.input.as_slice(), &self.permut, &self.sk_8, &self.pk, self.n)
    }

    /// Whether sigma is the digest of the other party's public key and points.
    pub fn verify_sigma(&self, sigma_other: &[u8; 32], pk_other: &[u8; 32], points_other: &[[u8; 32]]) -> (r: bool)
        ensures
            r == (spec_blake2s256(pk_other@ + flat(views(points_other@))) == sigma_other@),
    {
        sigma_matches(sigma_other, pk_other, points_other)
    }

    /// The other party's points permuted by pi^-1 and raised to s, all
    /// valid, with an adapted shuffle proof of that.
    pub open spec fn shuffle_facts(
        self,
        gens: Seq<[u8; 32]>,
        points_other: Seq<[u8; 32]>,
        shuffled: Seq<[u8; 32]>,
        proof: AdaptedShuffleProof,
    ) -> bool {
        &&& shuffled.len() == points_other.len()
        &&& forall|i: int|
            0 <= i < points_other.len() ==> #[trigger] shuffled[i]@ == spec_ed_mul(
                points_other[self.spec_pi_inv()[i] as int]@,
                self.spec_sk(),
            )
        &&& all_valid(shuffled)
        &&& is_adapted_proof(
            gens,
            self.spec_pk(),
            self.spec_hint(),
            points_other,
            shuffled,
            self.spec_sk(),
            self.spec_pi(),
            proof,
        )
    }

    /// Of the first n shuffled points: the positions of those whose
    /// unblinding with 1/s is not among the other party's points, those
    /// unblinded points, and a batched DDH proof of the unblinding.
    pub open spec fn response_facts(
        self,
        points_shuffled: Seq<[u8; 32]>,
        points_other: Seq<[u8; 32]>,
        n: int,
        unblinded: Seq<[u8; 32]>,
        ind: Seq<u32>,
        ddh: BatchedDDHProof,
    ) -> bool {
        let kept = unblinded_positions(points_shuffled, points_other, self.spec_sk_inv(), n);
        &&& ind == kept
        &&& forall|a: int, b: int| 0 <= a < b < ind.len() ==> #[trigger] ind[a] < #[trigger] ind[b]
        &&& forall|a: int| 0 <= a < ind.len() ==> #[trigger] ind[a] < n
        &&& forall|i: int|
            0 <= i < n ==> (#[trigger] is_position(ind, i) <==> !point_among(
                points_other,
                spec_ed_mul(points_shuffled[i]@, self.spec_sk_inv()),
            ))
        &&& unblinded.len() == kept.len()
        &&& forall|k: int|
            0 <= k < kept.len() ==> #[trigger] unblinded[k]@ == spec_ed_mul(
                points_shuffled[kept[k] as int]@,
                self.spec_sk_inv(),
            )
        &&& has_ddh_proof(
            self.spec_pk(),
            unblinded,
            Seq::new(kept.len(), |k: int| points_shuffled[kept[k] as int]),
            self.spec_sk(),
            ddh,
        )
    }

    /// The other party's points permuted by the inverse permutation and
    /// raised to s, with the adapted shuffle proof of that; `None` when one
    /// of the other party's points does not decompress.
    pub fn blind_shuffle(&self, pp: &PublicParams, points_other: &[[u8; 32]]) -> (r: Option<
        (AdaptedShuffleProof, Vec<[u8; 32]>),
    >)
        requires
            points_other.len() == self.spec_pi().len(),
            pp.gens().len() == points_other.len(),
            points_other.len() >= 1,
        ensures
            is_permutation_pair(self.spec_pi(), self.spec_pi_inv(), points_other.len() as nat),
            r is Some <==> all_valid(points_other@),
            r matches Some(v) ==> self.shuffle_facts(pp.gens(), points_other@, v.1@, v.0),
    {
        proof {
            use_type_invariant(self);
        }
        if !points_valid(points_other) {
            return None;
        }
        let shuffled = shuffle_and_raise_points(points_other, self.pi_inv.as_slice(), &self.sk);
        proof {
            assert(indexes(self.pi@, points_other.len() as nat));
        }
        let proof_shuffle = prove_shuffle_adapted(
            pp,
            &self.pk,
            &self.hint,
            points_other,
            shuffled.as_slice(),
            &self.sk,
            self.pi.as_slice(),
        );
        Some((proof_shuffle, shuffled))
    }

    /// After checking the other party's shuffle proof of this party's
    /// points: the points of the shuffled set unblinded with 1/s that do not
    /// occur among the other party's points, their positions, and a batched
    /// DDH proof of the unblinding; `None` when the shuffle proof fails or a
    /// received encoding does not decode.
    pub fn final_response(
        &self,
        pp: &PublicParams,
        pk_other: &[u8; 32],
        points: &[[u8; 32]],
        points_shuffled: &[[u8; 32]],
        points_other: &[[u8; 32]],
        proof: &AdaptedShuffleProof,
    ) -> (r: Option<(Vec<[u8; 32]>, Vec<u32>, BatchedDDHProof)>)
        requires
            points.len() == self.spec_n(),
            points_shuffled.len() == points.len(),
            pp.gens().len() == points.len(),
            points.len() >= 1,
            points.len() <= u32::MAX,
        ensures
            !shuffle_inputs_decode(pk_other@, points@, points_shuffled@, *proof) ==> r is None,
            shuffle_inputs_decode(pk_other@, points@, points_shuffled@, *proof) ==> exists|a1: nat, a2: nat|
                a1 < group_order() && a2 < group_order() && #[trigger] adapted_verify_outcome(
                    pp.gens(),
                    pk_other@,
                    points@,
                    points_shuffled@,
                    *proof,
                    a1,
                    a2,
                    r is Some,
                ),
            r matches Some(v) ==> self.response_facts(
                points_shuffled@,
                points_other@,
                points.len() as int,
                v.0@,
                v.1@,
                v.2,
            ),
    {
        proof {
            use_type_invariant(self);
        }
        if !(ed_valid(pk_other) && points_valid(points) && points_valid(points_shuffled)
            && adapted_proof_is_wf(proof, points.len())) {
            return None;
        }
        let ok = verify_shuffle_adapted(pp, pk_other, points, points_shuffled, proof);
        if !ok {
            let none: Option<(Vec<[u8; 32]>, Vec<u32>, BatchedDDHProof)> = None;
            assert(ok == (none is Some));
            return none;
        }
        let n = points.len();
        let mut unblinded: Vec<[u8; 32]> = Vec::with_capacity(n);
        let mut shrinked: Vec<[u8; 32]> = Vec::with_capacity(n);
        let mut ind: Vec<u32> = Vec::with_capacity(n);
        let mut i: usize = 0;
        while i < n
            invariant
                n == points.len(),
                n <= u32::MAX,
                points_shuffled.len() == n,
                all_valid(points_shuffled@),
                le_nat(self.sk_inv@) < group_order(),
                i <= n,
                ind@ == unblinded_positions(points_shuffled@, points_other@, le_nat(self.sk_inv@), i as int),
                unblinded.len() == ind.len(),
                shrinked.len() == ind.len(),
                all_valid(unblinded@),
                forall|k: int| 0 <= k < ind.len() ==> #[trigger] ind@[k] < i,
                forall|k: int|
                    0 <= k < ind.len() ==> #[trigger] unblinded@[k]@ == spec_ed_mul(
                        points_shuffled@[ind@[k] as int]@,
                        le_nat(self.sk_inv@),
                    ),
                forall|k: int|
                    0 <= k < ind.len() ==> #[trigger] shrinked@[k] == points_shuffled@[ind@[k] as int],
            decreases n - i,
        {
            let p = ed_mul(&points_shuffled[i], &self.sk_inv);
            let found = contains_point(points_other, &p);
            if !found {
                unblinded.push(p);
                ind.push(i as u32);
                shrinked.push(points_shuffled[i]);
            }
            i = i + 1;
        }
        let ddh = batched_ddh_prove(&self.pk, unblinded.as_slice(), shrinked.as_slice(), &self.sk);
        proof {
            lemma_unblinded_positions_law(points_shuffled@, points_other@, le_nat(self.sk_inv@), n as int);
        }
        proof {
            assert(shrinked@ =~= Seq::new(ind@.len(), |k: int| points_shuffled@[ind@[k] as int]));
        }
        let res = Some((unblinded, ind, ddh));
        assert(ok == (res is Some));
        res
    }

    /// After checking the other party's batched DDH proof: the items
    /// recovered from the other party's unblinded points multiplied by
    /// 1/(8 s), concatenated; `None` when the proof fails or a received
    /// encoding does not decode (a point that does not decompress, a
    /// non-canonical scalar).
    pub fn reveal_items(
        &self,
        pk_other: &[u8; 32],
        unblinded: &[[u8; 32]],
        shrinked: &[[u8; 32]],
        proof: &BatchedDDHProof,
    ) -> (r: Option<Vec<u8>>)
        requires
            shrinked.len() == unblinded.len(),
        ensures
            r is Some <==> reveal_inputs_decode(pk_other@, unblinded@, shrinked@, *proof) && ddh_check(
                pk_other@,
                unblinded@,
                shrinked@,
                *proof,
            ),
            r matches Some(out) ==> out@ == recovered_items(
                self.spec_keys(),
                unblinded@,
                self.spec_sk_8inv(),
                unblinded.len() as int,
            ),
            r matches Some(out) ==> out.len() == 16 * unblinded.len(),
            r matches Some(out) ==> forall|k: int|
                0 <= k < unblinded.len() ==> #[trigger] block_at(out@, k) == spec_recover_from(
                    self.spec_keys(),
                    spec_ed_mul(unblinded@[k]@, self.spec_sk_8inv()),
                    0,
                ),
    {
        proof {
            use_type_invariant(self);
        }
        if !(ed_valid(pk_other) && points_valid(unblinded) && points_valid(shrinked)
            && ddh_proof_is_wf(proof)) {
            return None;
        }
        if !batched_ddh_verify(pk_other, unblinded, shrinked, proof) {
            return None;
        }
        let m = unblinded.len();
        let mut output: Vec<u8> = Vec::new();
        let mut i: usize = 0;
        while i < m
            invariant
                m == unblinded.len(),
                all_valid(unblinded@),
                le_nat(self.sk_8inv@) < group_order(),
                i <= m,
                output@ == recovered_items(self.permut.keys(), unblinded@, le_nat(self.sk_8inv@), i as int),
                output.len() == 16 * i,
                forall|k: int|
                    0 <= k < i ==> #[trigger] block_at(output@, k) == spec_recover_from(
                        self.permut.keys(),
                        spec_ed_mul(unblinded@[k]@, le_nat(self.sk_8inv@)),
                        0,
                    ),
            decreases m - i,
        {
            let q = ed_mul(&unblinded[i], &self.sk_8inv);
            let item = match recover_from_point(&q, &self.permut) {
                Some(item) => item,
                None => {
                    return None;
                },
            };
            let ghost before = output@;
            push_bytes(&mut output, &item);
            proof {
                assert forall|k: int| 0 <= k < i + 1 implies #[trigger] block_at(output@, k) == spec_recover_from(
                    self.permut.keys(),
                    spec_ed_mul(unblinded@[k]@, le_nat(self.sk_8inv@)),
                    0,
                ) by {
                    if k < i {
                        assert(block_at(output@, k) =~= block_at(before, k));
                    } else {
                        assert(block_at(output@, k) =~= item@);
                    }
                }
            }
            i = i + 1;
        }
        Some(output)
    }
}

/// The encodings that `final_response` decodes: the other party's key, the
/// party's points, their shuffle, and the shuffle proof.
pub open spec fn shuffle_inputs_decode(
    pk_other: Seq<u8>,
    points: Seq<[u8; 32]>,
    points_shuffled: Seq<[u8; 32]>,
    proof: AdaptedShuffleProof,
) -> bool {
    &&& spec_ed_valid(pk_other)
    &&& all_valid(points)
    &&& all_valid(points_shuffled)
    &&& adapted_proof_wf(proof, points.len() as nat)
}

/// The encodings that `reveal_items` decodes: the other party's key, the
/// unblinded and shuffled points, and the batched DDH proof.
pub open spec fn reveal_inputs_decode(
    pk_other: Seq<u8>,
    unblinded: Seq<[u8; 32]>,
    shrinked: Seq<[u8; 32]>,
    proof: BatchedDDHProof,
) -> bool {
    &&& spec_ed_valid(pk_other)
    &&& all_valid(unblinded)
    &&& all_valid(shrinked)
    &&& spec_ed_valid(proof._c@)
    &&& le_nat(proof.z@) < group_order()
}

/// Every item of the input hashes to an Edwards point.
pub open spec fn items_hash_to_points(keys: Seq<Seq<u8>>, input: Seq<u8>) -> bool {
    forall|i: int| 0 <= i < num_items(input) ==> #[trigger] spec_hash_to_point(keys, block_at(input, i)) is Some
}

/// The first messages of a party: the points H(x)^k of its items, all
/// decompressing, and sigma = BLAKE2s(pk || points).
pub open spec fn is_first_message(
    keys: Seq<Seq<u8>>,
    input: Seq<u8>,
    sk_8: Seq<u8>,
    pk: Seq<u8>,
    sigma: Seq<u8>,
    points: Seq<[u8; 32]>,
) -> bool {
    &&& points.len() == num_items(input)
    &&& forall|i: int|
        0 <= i < points.len() ==> #[trigger] points[i]@ == spec_ed_mul_clamped(
            spec_hash_to_point(keys, block_at(input, i))->0,
            sk_8,
        )
    &&& all_valid(points)
    &&& sigma == spec_blake2s256(pk + flat(views(points)))
}

/// Hashes the items to points, raises them to the clamped key, and digests
/// pk and the points.
pub(crate) fn first_message(input: &[u8], permut: &FeistelPrp256, sk_8: &[u8; 32], pk: &[u8; 32], cap: usize) -> (r: Option<
    ([u8; 32], Vec<[u8; 32]>),
>)
    ensures
        r is Some <==> items_hash_to_points(permut.keys(), input@),
        r matches Some(v) ==> is_first_message(permut.keys(), input@, sk_8@, pk@, v.0@, v.1@),
{
    let count = input.len() / 16;
    let mut points: Vec<[u8; 32]> = Vec::with_capacity(cap);
    let mut i: usize = 0;
    while i < count
        invariant
            count == input.len() / 16,
            i <= count,
            points.len() == i,
            all_valid(points@),
            forall|k: int|
                0 <= k < i ==> #[trigger] spec_hash_to_point(permut.keys(), block_at(input@, k)) is Some,
            forall|k: int|
                0 <= k < i ==> #[trigger] points@[k]@ == spec_ed_mul_clamped(
                    spec_hash_to_point(permut.keys(), block_at(input@, k))->0,
                    sk_8@,
                ),
        decreases count - i,
    {
        proof {
            lemma_item_in_bounds(input.len() as int, i as int);
        }
        let item = slice_subrange(input, 16 * i, 16 * i + 16);
        let hp = match hash_to_point(item, permut) {
            Some(c) => c,
            None => {
                assert(!(spec_hash_to_point(permut.keys(), block_at(input@, i as int)) is Some));
                return None;
            },
        };
        points.push(ed_mul_clamped(&hp, sk_8));
        i = i + 1;
    }
    let mut t: Vec<u8> = Vec::new();
    push_bytes(&mut t, pk);
    push_all(&mut t, points.as_slice());
    proof {
        assert(t@ =~= pk@ + flat(views(points@)));
    }
    let sigma = blake2s256(t.as_slice());
    Some((sigma, points))
}

/// Whether sigma is the digest of pk and the points.
pub(crate) fn sigma_matches(sigma: &[u8; 32], pk: &[u8; 32], points: &[[u8; 32]]) -> (r: bool)
    ensures
        r == (spec_blake2s256(pk@ + flat(views(points@))) == sigma@),
{
    let mut t: Vec<u8> = Vec::new();
    push_bytes(&mut t, pk);
    push_all(&mut t, points);
    proof {
        assert(t@ =~= pk@ + flat(views(points@)));
    }
    let digest = blake2s256(t.as_slice());
    bytes32_eq(&digest, sigma)
}

/// Points picked by the inverse permutation and raised to the secret.
pub(crate) fn shuffle_and_raise_points(points: &[[u8; 32]], pi_inv: &[usize], sk: &[u8; 32]) -> (r: Vec<[u8; 32]>)
    requires
        all_valid(points@),
        le_nat(sk@) < group_order(),
        forall|i: int| 0 <= i < pi_inv.len() ==> #[trigger] pi_inv@[i] < points.len(),
    ensures
        r.len() == pi_inv.len(),
        all_valid(r@),
        forall|i: int|
            0 <= i < pi_inv.len() ==> #[trigger] r@[i]@ == spec_ed_mul(points@[pi_inv@[i] as int]@, le_nat(sk@)),
{
    let mut shuffled: Vec<[u8; 32]> = Vec::with_capacity(pi_inv.len());
    let mut i: usize = 0;
    while i < pi_inv.len()
        invariant
            i <= pi_inv.len(),
            all_valid(points@),
            le_nat(sk@) < group_order(),
            forall|k: int| 0 <= k < pi_inv.len() ==> #[trigger] pi_inv@[k] < points.len(),
            shuffled.len() == i,
            all_valid(shuffled@),
            forall|k: int|
                0 <= k < i ==> #[trigger] shuffled@[k]@ == spec_ed_mul(points@[pi_inv@[k] as int]@, le_nat(sk@)),
        decreases pi_inv.len() - i,
    {
        let j = pi_inv[i];
        shuffled.push(ed_mul(&points[j], sk));
        i = i + 1;
    }
    shuffled
}

/// The positions i < k whose shuffled point, unblinded with sk_inv, does
/// not occur among the other party's points.
pub open spec fn unblinded_positions(shuffled: Seq<[u8; 32]>, other: Seq<[u8; 32]>, sk_inv: nat, k: int) -> Seq<u32>
    decreases k,
{
    if k <= 0 {
        Seq::empty()
    } else {
        let prev = unblinded_positions(shuffled, other, sk_inv, k - 1);
        if exists|j: int|
            0 <= j < other.len() && #[trigger] other[j]@ == spec_ed_mul(shuffled[k - 1]@, sk_inv) {
            prev
        } else {
            prev.push((k - 1) as u32)
        }
    }
}

/// Whether the point (an encoding) occurs in the list.
pub open spec fn point_among(ps: Seq<[u8; 32]>, p: Seq<u8>) -> bool {
    exists|j: int| 0 <= j < ps.len() && #[trigger] ps[j]@ == p
}

/// Whether i is one of the positions.
pub open spec fn is_position(ind: Seq<u32>, i: int) -> bool {
    exists|a: int| 0 <= a < ind.len() && #[trigger] ind[a] == i
}

/// The kept positions of the first k shuffled points are increasing, below
/// k, and are exactly those whose point unblinded with sk_inv is not among
/// the other party's points.
pub proof fn lemma_unblinded_positions_law(shuffled: Seq<[u8; 32]>, other: Seq<[u8; 32]>, sk_inv: nat, k: int)
    requires
        0 <= k <= 0x1_0000_0000,
    ensures
        ({
            let pos = unblinded_positions(shuffled, other, sk_inv, k);
            &&& forall|a: int, b: int| 0 <= a < b < pos.len() ==> #[trigger] pos[a] < #[trigger] pos[b]
            &&& forall|a: int| 0 <= a < pos.len() ==> #[trigger] pos[a] < k
            &&& forall|i: int|
                0 <= i < k ==> (#[trigger] is_position(pos, i) <==> !point_among(
                    other,
                    spec_ed_mul(shuffled[i]@, sk_inv),
                ))
        }),
    decreases k,
{
    if k > 0 {
        lemma_unblinded_positions_law(shuffled, other, sk_inv, k - 1);
        let prev = unblinded_positions(shuffled, other, sk_inv, k - 1);
        let pos = unblinded_positions(shuffled, other, sk_inv, k);
        let held = point_among(other, spec_ed_mul(shuffled[k - 1]@, sk_inv));
        if held {
            assert(pos == prev);
            assert(!is_position(prev, k - 1));
        } else {
            assert(pos == prev.push((k - 1) as u32));
            assert(pos[prev.len() as int] == k - 1);
            assert forall|i: int| 0 <= i < k implies #[trigger] is_position(pos, i) <==> !point_among(
                other,
                spec_ed_mul(shuffled[i]@, sk_inv),
            ) by {
                if i < k - 1 {
                    if is_position(pos, i) {
                        let a = choose|a: int| 0 <= a < pos.len() && #[trigger] pos[a] == i;
                        assert(a < prev.len());
                        assert(prev[a] == i);
                    }
                    if is_position(prev, i) {
                        let a = choose|a: int| 0 <= a < prev.len() && #[trigger] prev[a] == i;
                        assert(pos[a] == i);
                    }
                } else {
                    assert(pos[prev.len() as int] == i);
                }
            }
        }
    }
}

/// The items recovered from the first k points, each multiplied by s8inv first.
pub open spec fn recovered_items(keys: Seq<Seq<u8>>, points: Seq<[u8; 32]>, s8inv: nat, k: int) -> Seq<u8>
    decreases k,
{
    if k <= 0 {
        Seq::empty()
    } else {
        recovered_items(keys, points, s8inv, k - 1) + spec_recover_from(
            keys,
            spec_ed_mul(points[k - 1]@, s8inv),
            0,
        )
    }
}

/// The items recovered from k points, concatenated, are 16 bytes per
/// point, and the j-th of them is what the j-th point, multiplied by s8inv,
/// gives back.
pub proof fn lemma_recovered_items_blocks(keys: Seq<Seq<u8>>, points: Seq<[u8; 32]>, s8inv: nat, k: int)
    requires
        0 <= k,
    ensures
        recovered_items(keys, points, s8inv, k).len() == 16 * k,
        forall|j: int|
            0 <= j < k ==> #[trigger] block_at(recovered_items(keys, points, s8inv, k), j) == spec_recover_from(
                keys,
                spec_ed_mul(points[j]@, s8inv),
                0,
            ),
    decreases k,
{
    if k > 0 {
        lemma_recovered_items_blocks(keys, points, s8inv, k - 1);
        let prev = recovered_items(keys, points, s8inv, k - 1);
        let last = points[k - 1];
        let item = spec_recover_from(keys, spec_ed_mul(last@, s8inv), 0);
        crate::mapping::lemma_recover_from_len(keys, spec_ed_mul(last@, s8inv), 0);
        assert forall|j: int| 0 <= j < k implies #[trigger] block_at(recovered_items(keys, points, s8inv, k), j)
            == spec_recover_from(keys, spec_ed_mul(points[j]@, s8inv), 0) by {
            if j < k - 1 {
                assert(block_at(prev + item, j) =~= block_at(prev, j));
            } else {
                assert(block_at(prev + item, j) =~= item);
            }
        }
    }
}

/// Whether the point occurs in the list.
fn contains_point(points: &[[u8; 32]], p: &[u8; 32]) -> (r: bool)
    ensures
        r == exists|j: int| 0 <= j < points.len() && #[trigger] points@[j]@ == p@,
{
    let mut k: usize = 0;
    while k < points.len()
        invariant
            k <= points.len(),
            forall|j: int| 0 <= j < k ==> #[trigger] points@[j]@ != p@,
        decreases points.len() - k,
    {
        if bytes32_eq(&points[k], p) {
            return true;
        }
        k = k + 1;
    }
    false
}

/// Law: a party's own first messages pass the other party's check: when
/// sigma is the digest of pk and the points (as `gen` makes it),
/// `verify_sigma` on them answers true.
pub proof fn lemma_own_sigma_verifies(pk: Seq<u8>, points: Seq<[u8; 32]>, sigma: Seq<u8>)
    requires
        sigma == spec_blake2s256(pk + flat(views(points))),
    ensures
        (spec_blake2s256(pk + flat(views(points))) == sigma) == true,
{
}

/// Law: the unblinding scalar 1/(8 s) inverts the clamped key k = 8 s
/// modulo l, for a nonzero secret s (as `Party::new` makes them).
pub proof fn lemma_unblinding_inverts_clamped_key(sk: nat, sk_8: Seq<u8>, sk_inv: nat, sk_8inv: nat)
    requires
        sk < group_order(),
        sk != 0,
        (sk * 8) % group_order() == le_nat(sk_8) % group_order(),
        is_inverse(sk_inv, sk),
        is_eighth_inverse(sk_8inv, sk_inv),
    ensures
        (sk_8inv * le_nat(sk_8)) % group_order() == 1,
{
    let l = group_order() as int;
    let inv8 = choose|inv8: nat| is_inverse(inv8, 8) && #[trigger] smul(sk_inv, inv8) == sk_8inv;
    let k = le_nat(sk_8);
    let a = sk_inv * inv8;
    // sk_8inv * k = (a % l) * k == a * k == a * (k % l) == a * ((sk * 8) % l) == a * (sk * 8)  (mod l)
    vstd::arithmetic::div_mod::lemma_mul_mod_noop_left(a as int, k as int, l);
    vstd::arithmetic::div_mod::lemma_mul_mod_noop_right(a as int, k as int, l);
    vstd::arithmetic::div_mod::lemma_mul_mod_noop_right(a as int, (sk * 8) as int, l);
    // a * (sk * 8) == (sk_inv * sk) * (inv8 * 8)
    assert(a * (sk * 8) == (sk_inv * sk) * (inv8 * 8)) by (nonlinear_arith)
        requires
            a == sk_inv * inv8,
    ;
    vstd::arithmetic::div_mod::lemma_mul_mod_noop_left((sk_inv * sk) as int, (inv8 * 8) as int, l);
    vstd::arithmetic::div_mod::lemma_mul_mod_noop_right(1, (inv8 * 8) as int, l);
}


/// Where a party stands in the rounds of the two-sided protocol, and what it
/// keeps from the rounds before.
pub enum RoundState {
    /// Round 1 is sent: the party's own points.
    AwaitSigma { points: Vec<[u8; 32]> },
    /// Round 2 is sent: own points and the other party's commitment.
    AwaitPoints { points: Vec<[u8; 32]>, right_sigma: [u8; 32] },
    /// Round 3 is sent: own points, the other party's key and points, and
    /// those points shuffled and raised to s.
    AwaitShuffle {
        points: Vec<[u8; 32]>,
        right_pk: [u8; 32],
        right_points: Vec<[u8; 32]>,
        right_shuffled: Vec<[u8; 32]>,
    },
    /// Round 4 is sent: the other party's key and its points shuffled and
    /// raised to s.
    AwaitUnblinded { right_pk: [u8; 32], right_shuffled: Vec<[u8; 32]> },
}

/// What a party does once the other party's message of a round is in.
pub enum RoundStep {
    /// Send the message, and wait in the new state.
    Send(RoundState, Message),
    /// The protocol ends with this output: the other party's items that this
    /// party does not hold.
    Output(Vec<u8>),
    /// The protocol stops: a check failed, or the message is not the one
    /// the round expects.
    Stop,
}

/// A copy of a sequence of points.
fn copy_points(points: &[[u8; 32]]) -> (r: Vec<[u8; 32]>)
    ensures
        r@ == points@,
{
    let mut r: Vec<[u8; 32]> = Vec::with_capacity(points.len());
    let mut i: usize = 0;
    while i < points.len()
        invariant
            i <= points.len(),
            r@ == points@.subrange(0, i as int),
        decreases points.len() - i,
    {
        r.push(points[i]);
        i = i + 1;
        assert(r@ =~= points@.subrange(0, i as int));
    }
    assert(points@.subrange(0, points.len() as int) =~= points@);
    r
}

impl Party {
    /// Round 2: on the other party's commitment, keep it and send the public
    /// key and the party's points.
    pub open spec fn on_sigma(self, points: Seq<[u8; 32]>, right_sigma: [u8; 32], r: RoundStep) -> bool {
        r matches RoundStep::Send(RoundState::AwaitPoints { points: p, right_sigma: s }, Message::Round2((k, q)))
            && p@ == points && s == right_sigma && k@ == self.spec_pk() && q@ == points
    }

    /// Round 3: on the other party's key and points, which must match its
    /// commitment, be as many as the party's own and all decode: send them
    /// shuffled and raised to s with the shuffle proof; else stop.
    pub open spec fn on_points(
        self,
        gens: Seq<[u8; 32]>,
        points: Seq<[u8; 32]>,
        right_sigma: [u8; 32],
        right_pk: [u8; 32],
        right_points: Seq<[u8; 32]>,
        r: RoundStep,
    ) -> bool {
        if spec_blake2s256(right_pk@ + flat(views(right_points))) == right_sigma@ && right_points.len()
            == self.spec_n() && all_valid(right_points) {
            r matches RoundStep::Send(
                RoundState::AwaitShuffle { points: p, right_pk: k, right_points: q, right_shuffled: h },
                Message::Round3((proof, h2)),
            ) && p@ == points && k == right_pk && q@ == right_points && h2@ == h@ && self.shuffle_facts(
                gens,
                right_points,
                h@,
                proof,
            )
        } else {
            r is Stop
        }
    }

    /// Round 4: on the other party's shuffle of the party's points and its
    /// proof: the proof is checked as `final_response` does; when it holds,
    /// send the unblinded points, their positions and the DDH proof; else stop.
    pub open spec fn on_shuffle(
        self,
        gens: Seq<[u8; 32]>,
        points: Seq<[u8; 32]>,
        right_pk: [u8; 32],
        right_points: Seq<[u8; 32]>,
        right_shuffled: Seq<[u8; 32]>,
        proof: AdaptedShuffleProof,
        shuffled: Seq<[u8; 32]>,
        r: RoundStep,
    ) -> bool {
        if points.len() == self.spec_n() && shuffled.len() == points.len() && shuffle_inputs_decode(
            right_pk@,
            points,
            shuffled,
            proof,
        ) {
            &&& r is Send || r is Stop
            &&& exists|a1: nat, a2: nat|
                a1 < group_order() && a2 < group_order() && #[trigger] adapted_verify_outcome(
                    gens,
                    right_pk@,
                    points,
                    shuffled,
                    proof,
                    a1,
                    a2,
                    r is Send,
                )
            &&& r is Send ==> (r matches RoundStep::Send(
                RoundState::AwaitUnblinded { right_pk: k, right_shuffled: h },
                Message::Round4((ddh, u, ind)),
            ) && k == right_pk && h@ == right_shuffled && self.response_facts(
                shuffled,
                right_points,
                points.len() as int,
                u@,
                ind@,
                ddh,
            ))
        } else {
            r is Stop
        }
    }

    /// The end: on the other party's unblinded points, their positions in
    /// the party's shuffle of its points, and its DDH proof: when the
    /// positions are in range and the proof holds, output the recovered
    /// items; else stop.
    pub open spec fn on_unblinded(
        self,
        right_pk: [u8; 32],
        right_shuffled: Seq<[u8; 32]>,
        proof: BatchedDDHProof,
        unblinded: Seq<[u8; 32]>,
        ind: Seq<u32>,
        r: RoundStep,
    ) -> bool {
        if ind.len() == unblinded.len() && forall|k: int|
            0 <= k < ind.len() ==> #[trigger] ind[k] < right_shuffled.len() {
            let shrinked = Seq::new(ind.len(), |k: int| right_shuffled[ind[k] as int]);
            &&& r is Output || r is Stop
            &&& r is Output <==> reveal_inputs_decode(right_pk@, unblinded, shrinked, proof) && ddh_check(
                right_pk@,
                unblinded,
                shrinked,
                proof,
            )
            &&& r matches RoundStep::Output(out) ==> out@ == recovered_items(
                self.spec_keys(),
                unblinded,
                self.spec_sk_8inv(),
                unblinded.len() as int,
            )
            &&& r matches RoundStep::Output(out) ==> out.len() == 16 * unblinded.len()
            &&& r matches RoundStep::Output(out) ==> forall|k: int|
                0 <= k < unblinded.len() ==> #[trigger] block_at(out@, k) == spec_recover_from(
                    self.spec_keys(),
                    spec_ed_mul(unblinded[k]@, self.spec_sk_8inv()),
                    0,
                )
        } else {
            r is Stop
        }
    }

    /// The first state, and the message of round 1: the commitment to the
    /// party's points; `None` when an item's point does not convert.
    pub fn start(&self) -> (r: Option<(RoundState, Message)>)
        ensures
            r is Some <==> items_hash_to_points(self.spec_keys(), self.spec_input()),
            r matches Some(v) ==> (v.0 matches RoundState::AwaitSigma { points } && v.1 matches Message::Round1(
                sigma,
            ) && is_first_message(
                self.spec_keys(),
                self.spec_input(),
                self.spec_sk_8(),
                self.spec_pk(),
                sigma@,
                points@,
            )),
    {
        match self.gen() {
            Some((sigma, points)) => Some((RoundState::AwaitSigma { points }, Message::Round1(sigma))),
            None => None,
        }
    }

    /// One step of the protocol: from the state and the other party's
    /// message of the round, the next state and message, the output, or a
    /// stop.  A message of another round than the state awaits stops.
    #[verifier::rlimit(40)]
    pub fn step(&self, pp: &PublicParams, state: RoundState, received: Message) -> (r: RoundStep)
        requires
            pp.gens().len() == self.spec_n(),
            1 <= self.spec_n() <= u32::MAX,
        ensures
            (match state {
                RoundState::AwaitSigma { points } => match received {
                    Message::Round1(s) => self.on_sigma(points@, s, r),
                    _ => r is Stop,
                },
                RoundState::AwaitPoints { points, right_sigma } => match received {
                    Message::Round2((k, q)) => self.on_points(pp.gens(), points@, right_sigma, k, q@, r),
                    _ => r is Stop,
                },
                RoundState::AwaitShuffle { points, right_pk, right_points, right_shuffled } => match received {
                    Message::Round3((proof, h)) => self.on_shuffle(
                        pp.gens(),
                        points@,
                        right_pk,
                        right_points@,
                        right_shuffled@,
                        proof,
                        h@,
                        r,
                    ),
                    _ => r is Stop,
                },
                RoundState::AwaitUnblinded { right_pk, right_shuffled } => match received {
                    Message::Round4((proof, u, ind)) => self.on_unblinded(
                        right_pk,
                        right_shuffled@,
                        proof,
                        u@,
                        ind@,
                        r,
                    ),
                    _ => r is Stop,
                },
            }),
    {
        match state {
            RoundState::AwaitSigma { points } => match received {
                Message::Round1(s) => self.round_points(points, s),
                _ => RoundStep::Stop,
            },
            RoundState::AwaitPoints { points, right_sigma } => match received {
                Message::Round2((k, q)) => self.round_shuffle(pp, points, right_sigma, k, q),
                _ => RoundStep::Stop,
            },
            RoundState::AwaitShuffle { points, right_pk, right_points, right_shuffled } => match received {
                Message::Round3((proof, h)) => self.round_response(
                    pp,
                    points,
                    right_pk,
                    right_points,
                    right_shuffled,
                    &proof,
                    h,
                ),
                _ => RoundStep::Stop,
            },
            RoundState::AwaitUnblinded { right_pk, right_shuffled } => match received {
                Message::Round4((proof, u, ind)) => self.round_output(right_pk, right_shuffled, &proof, u, ind),
                _ => RoundStep::Stop,
            },
        }
    }

    fn round_points(&self, points: Vec<[u8; 32]>, right_sigma: [u8; 32]) -> (r: RoundStep)
        ensures
            self.on_sigma(points@, right_sigma, r),
    {
        let sent = copy_points(points.as_slice());
        RoundStep::Send(RoundState::AwaitPoints { points, right_sigma }, Message::Round2((self.pk(), sent)))
    }

    fn round_shuffle(
        &self,
        pp: &PublicParams,
        points: Vec<[u8; 32]>,
        right_sigma: [u8; 32],
        right_pk: [u8; 32],
        right_points: Vec<[u8; 32]>,
    ) -> (r: RoundStep)
        requires
            pp.gens().len() == self.spec_n(),
            1 <= self.spec_n(),
        ensures
            self.on_points(pp.gens(), points@, right_sigma, right_pk, right_points@, r),
    {
        proof {
            use_type_invariant(self);
        }
        if !self.verify_sigma(&right_sigma, &right_pk, right_points.as_slice()) || right_points.len() != self.n {
            return RoundStep::Stop;
        }
        match self.blind_shuffle(pp, right_points.as_slice()) {
            Some((proof, right_shuffled)) => {
                let sent = copy_points(right_shuffled.as_slice());
                RoundStep::Send(
                    RoundState::AwaitShuffle { points, right_pk, right_points, right_shuffled },
                    Message::Round3((proof, sent)),
                )
            },
            None => RoundStep::Stop,
        }
    }

    fn round_response(
        &self,
        pp: &PublicParams,
        points: Vec<[u8; 32]>,
        right_pk: [u8; 32],
        right_points: Vec<[u8; 32]>,
        right_shuffled: Vec<[u8; 32]>,
        proof: &AdaptedShuffleProof,
        shuffled: Vec<[u8; 32]>,
    ) -> (r: RoundStep)
        requires
            pp.gens().len() == self.spec_n(),
            1 <= self.spec_n() <= u32::MAX,
        ensures
            self.on_shuffle(
                pp.gens(),
                points@,
                right_pk,
                right_points@,
                right_shuffled@,
                *proof,
                shuffled@,
                r,
            ),
    {
        if points.len() != self.n || shuffled.len() != points.len() {
            return RoundStep::Stop;
        }
        let res = self.final_response(
            pp,
            &right_pk,
            points.as_slice(),
            shuffled.as_slice(),
            right_points.as_slice(),
            proof,
        );
        match res {
            Some((u, ind, ddh)) => {
                let r = RoundStep::Send(
                    RoundState::AwaitUnblinded { right_pk, right_shuffled },
                    Message::Round4((ddh, u, ind)),
                );
                assert(r is Send);
                r
            },
            None => RoundStep::Stop,
        }
    }

    fn round_output(
        &self,
        right_pk: [u8; 32],
        right_shuffled: Vec<[u8; 32]>,
        proof: &BatchedDDHProof,
        unblinded: Vec<[u8; 32]>,
        ind: Vec<u32>,
    ) -> (r: RoundStep)
        ensures
            self.on_unblinded(right_pk, right_shuffled@, *proof, unblinded@, ind@, r),
    {
        if ind.len() != unblinded.len() {
            return RoundStep::Stop;
        }
        let m = ind.len();
        let mut shrinked: Vec<[u8; 32]> = Vec::with_capacity(m);
        let mut i: usize = 0;
        while i < m
            invariant
                m == ind.len(),
                i <= m,
                forall|k: int| 0 <= k < i ==> #[trigger] ind@[k] < right_shuffled.len(),
                shrinked@ == Seq::new(i as nat, |k: int| right_shuffled@[ind@[k] as int]),
            decreases m - i,
        {
            let j = ind[i] as usize;
            if j >= right_shuffled.len() {
                return RoundStep::Stop;
            }
            shrinked.push(right_shuffled[j]);
            i = i + 1;
            assert(shrinked@ =~= Seq::new(i as nat, |k: int| right_shuffled@[ind@[k] as int]));
        }
        match self.reveal_items(&right_pk, unblinded.as_slice(), shrinked.as_slice(), proof) {
            Some(out) => RoundStep::Output(out),
            None => RoundStep::Stop,
        }
    }
}

} // verus!
