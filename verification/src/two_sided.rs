//! A party of the two-sided-output PSU that borrows its input, its shuffle
//! hint and its PRP.  Its last two steps do nothing; `twosided::Party` is
//! the complete party.
use vstd::prelude::*;
use crate::aok::{
    all_valid, indexes, is_adapted_proof, is_inverse, is_permutation_pair, points_valid,
    prove_shuffle_adapted, random_permutation, AdaptedShuffleHint, AdaptedShuffleProof,
    PublicParams,
};
use crate::crypto::spec_blake2s256;
use crate::curve::{ed_mul_base, group_order, scalar_from_u64, scalar_invert, scalar_mul, spec_ed_mul, spec_ed_mul_base, views};
use crate::feistel::FeistelPrp256;
use crate::field::le_nat;
use crate::aok::flat;
use crate::onesided::{fresh_secret, is_secret_of_clamped, spec_clamp};
use crate::twosided::{
    first_message, is_eighth_inverse, is_first_message, items_hash_to_points, shuffle_and_raise_points,
    sigma_matches,
};

verus! {

/// A party that borrows its items, its preprocessed shuffle hint and its PRP.
pub struct Party<'a> {
    input: &'a [u8],
    n: usize,
    sk_8: [u8; 32],
    sk: [u8; 32],
    sk_inv: [u8; 32],
    sk_8inv: [u8; 32],
    pk: [u8; 32],
    pi: Vec<usize>,
    pi_inv: Vec<usize>,
    hint: &'a AdaptedShuffleHint,
    permut: &'a FeistelPrp256,
}

impl<'a> Party<'a> {
    #[verifier::type_invariant]
    spec fn inv(self) -> bool {
        &&& is_secret_of_clamped(self.sk@, self.sk_8@)
        &&& le_nat(self.sk_inv@) < group_order()
        &&& le_nat(self.sk@) != 0 ==> is_inverse(le_nat(self.sk_inv@), le_nat(self.sk@))
        &&& le_nat(self.sk_8inv@) < group_order()
        &&& is_eighth_inverse(le_nat(self.sk_8inv@), le_nat(self.sk_inv@))
        &&& self.pk@ == spec_ed_mul_base(le_nat(self.sk@))
        &&& is_permutation_pair(self.pi@, self.pi_inv@, self.pi.len() as nat)
        &&& self.hint.wf(self.pi.len() as nat)
    }

    pub closed spec fn spec_input(self) -> Seq<u8> {
        self.input@
    }

    pub closed spec fn spec_n(self) -> usize {
        self.n
    }

    pub closed spec fn spec_sk_8(self) -> Seq<u8> {
        self.sk_8@
    }

    pub closed spec fn spec_sk(self) -> nat {
        le_nat(self.sk@)
    }

    pub closed spec fn spec_sk_inv(self) -> nat {
        le_nat(self.sk_inv@)
    }

    pub closed spec fn spec_sk_8inv(self) -> nat {
        le_nat(self.sk_8inv@)
    }

    pub closed spec fn spec_pk(self) -> Seq<u8> {
        self.pk@
    }

    pub closed spec fn spec_pi(self) -> Seq<usize> {
        self.pi@
    }

    pub closed spec fn spec_pi_inv(self) -> Seq<usize> {
        self.pi_inv@
    }

    pub closed spec fn spec_hint(self) -> AdaptedShuffleHint {
        *self.hint
    }

    pub closed spec fn spec_keys(self) -> Seq<Seq<u8>> {
        self.permut.keys()
    }

    /// A party with a fresh clamped key k, s = k/8, 1/s, 1/(8 s), the
    /// public key s B, and a random permutation of the other party's items.
    #[verifier::rlimit(40)]
    pub fn new(
        input: &'a [u8],
        hint: &'a AdaptedShuffleHint,
        permut: &'a FeistelPrp256,
        n: usize,
        n_other: usize,
    ) -> (r: Self)
        requires
            hint.wf(n_other as nat),
        ensures
            r.spec_input() == input@,
            r.spec_n() == n,
            exists|b: Seq<u8>| b.len() == 32 && r.spec_sk_8() == spec_clamp(b),
            r.spec_sk() < group_order(),
            (r.spec_sk() * 8) % group_order() == le_nat(r.spec_sk_8()) % group_order(),
            r.spec_sk() != 0 ==> is_inverse(r.spec_sk_inv(), r.spec_sk()),
            is_eighth_inverse(r.spec_sk_8inv(), r.spec_sk_inv()),
            r.spec_pk() == spec_ed_mul_base(r.spec_sk()),
            is_permutation_pair(r.spec_pi(), r.spec_pi_inv(), n_other as nat),
            r.spec_hint() == *hint,
            r.spec_keys() == permut.keys(),
    {
        let (sk_8, sk) = fresh_secret();
        let sk_inv = scalar_invert(&sk);
        let eight = scalar_from_u64(8);
        let inv8 = scalar_invert(&eight);
        let sk_8inv = scalar_mul(&sk_inv, &inv8);
        let pk = ed_mul_base(&sk);
        let (pi, pi_inv) = random_permutation(n_other);
        proof {
            assert(is_eighth_inverse(le_nat(sk_8inv@), le_nat(sk_inv@))) by {
                assert(is_inverse(le_nat(inv8@), 8));
                assert(crate::aok::smul(le_nat(sk_inv@), le_nat(inv8@)) == le_nat(sk_8inv@));
            }
        }
        Party { input, n, sk_8, sk, sk_inv, sk_8inv, pk, pi, pi_inv, hint, permut }
    }

    /// The public key s B.
    pub fn pk(&self) -> (r: [u8; 32])
        ensures
            r@ == self.spec_pk(),
    {
        self.pk
    }

    /// The party's first messages: sigma = BLAKE2s(pk || points) and the
    /// points H(x)^k; `None` when an item's point does not convert.
    pub fn gen(&self) -> (r: Option<([u8; 32], Vec<[u8; 32]>)>)
        ensures
            r is Some <==> items_hash_to_points(self.spec_keys(), self.spec_input()),
            r matches Some(v) ==> is_first_message(
                self.spec_keys(),
                self.spec_input(),
                self.spec_sk_8(),
                self.spec_pk(),
                v.0@,
                v.1@,
            ),
    {
        first_message(self.input, self.permut, &self.sk_8, &self.pk, self.n)
    }

    /// Whether sigma is the digest of the other party's public key and
    /// points (`n_other` is their expected number).
    pub fn verify_sigma(
        &self,
        sigma_other: &[u8; 32],
        pk_other: &[u8; 32],
        points_other: &Vec<[u8; 32]>,
        n_other: usize,
    ) -> (r: bool)
        ensures
            r == (spec_blake2s256(pk_other@ + flat(views(points_other@))) == sigma_other@),
    {
        sigma_matches(sigma_other, pk_other, points_other.as_slice())
    }

    /// The other party's points permuted by the inverse permutation and
    /// raised to s, with the adapted shuffle proof; `None` when one of the
    /// other party's points does not decompress.
    pub fn blind_shuffle(&self, pp: &PublicParams, points_other: &Vec<[u8; 32]>, n_other: usize) -> (r: Option<
        (AdaptedShuffleProof, Vec<[u8; 32]>),
    >)
        requires
            n_other == points_other.len(),
            n_other == self.spec_pi().len(),
            pp.gens().len() == n_other,
            n_other >= 1,
        ensures
            r is Some <==> all_valid(points_other@),
            r matches Some(v) ==> {
                &&& v.1.len() == n_other
                &&& forall|i: int|
                    0 <= i < n_other ==> #[trigger] v.1@[i]@ == spec_ed_mul(
                        points_other@[self.spec_pi_inv()[i] as int]@,
                        self.spec_sk(),
                    )
                &&& is_adapted_proof(
                    pp.gens(),
                    self.spec_pk(),
                    self.spec_hint(),
                    points_other@,
                    v.1@,
                    self.spec_sk(),
                    self.spec_pi(),
                    v.0,
                )
            },
    {
        proof {
            use_type_invariant(self);
        }
        if !points_valid(points_other.as_slice()) {
            return None;
        }
        let shuffled = shuffle_and_raise_points(points_other.as_slice(), self.pi_inv.as_slice(), &self.sk);
        proof {
            assert(indexes(self.pi@, points_other.len() as nat));
        }
        let proof_shuffle = prove_shuffle_adapted(
            pp,
            &self.pk,
            self.hint,
            points_other.as_slice(),
            shuffled.as_slice(),
            &self.sk,
            self.pi.as_slice(),
        );
        Some((proof_shuffle, shuffled))
    }

    /// The final response of this party: it computes nothing.
    pub fn final_response(
        &self,
        pp: &PublicParams,
        pk_other: &[u8; 32],
        points: &Vec<[u8; 32]>,
        points_shuffle: &Vec<[u8; 32]>,
        proof: &AdaptedShuffleProof,
    ) {
    }

    /// The output of this party: it computes nothing.
    pub fn reveal_items(&self) {
    }
}

} // verus!
