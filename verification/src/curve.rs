//! The group operations of curve25519-dalek that the library calls.
//!
//! Montgomery points are handled as their 32-byte u-coordinates, Edwards
//! points as their 32-byte compressed encodings (`CompressedEdwardsY`; the
//! encodings that `compress` gives are canonical, one per point), and
//! scalars as their canonical 32-byte little-endian encodings.  Each group operation
//! decompresses its operands, calls curve25519-dalek, and compresses the
//! result; its result is named as a function of the encodings.
use vstd::prelude::*;
use curve25519_dalek::constants::EIGHT_TORSION;
use curve25519_dalek::edwards::{CompressedEdwardsY, EdwardsPoint};
use curve25519_dalek::montgomery::MontgomeryPoint;
use curve25519_dalek::scalar::Scalar;
use curve25519_dalek::traits::VartimeMultiscalarMul;
use rand_chacha::ChaCha12Rng;
use rand::SeedableRng;
use crate::field::{bytes_to_field, le_nat, p};

verus! {

/// The order l of the prime-order subgroup.
pub open spec fn group_order() -> nat {
    7237005577332262213973186563042994240857116359379907606001950938285454250989nat
}

/// X25519-style multiplication of a Montgomery u-coordinate by a clamped
/// 32-byte scalar.
pub uninterp spec fn spec_mont_mul_clamped(point: Seq<u8>, scalar: Seq<u8>) -> Seq<u8>;

/// Multiplication of a Montgomery u-coordinate by a scalar (a value below l).
pub uninterp spec fn spec_mont_mul_scalar(point: Seq<u8>, scalar: nat) -> Seq<u8>;

/// `MontgomeryPoint::mul_clamped`: named as a function of the point bytes
/// and the scalar bytes (the result is `MontgomeryPoint::as_affine`, i.e. a
/// canonical field encoding).
#[verifier::external_body]
pub(crate) fn mont_mul_clamped(point: &[u8; 32], scalar: &[u8; 32]) -> (r: [u8; 32])
    ensures
        r@ == spec_mont_mul_clamped(point@, scalar@),
{
    MontgomeryPoint(*point).mul_clamped(*scalar).to_bytes()
}

/// `&MontgomeryPoint * &Scalar` with the scalar given by its canonical bytes
/// (which `Scalar::from_bytes_mod_order` leaves as they are).
#[verifier::external_body]
pub(crate) fn mont_mul_scalar(point: &[u8; 32], scalar: &[u8; 32]) -> (r: [u8; 32])
    requires
        le_nat(scalar@) < group_order(),
    ensures
        r@ == spec_mont_mul_scalar(point@, le_nat(scalar@)),
{
    let s = Scalar::from_bytes_mod_order(*scalar);
    (MontgomeryPoint(*point) * s).to_bytes()
}

/// `Scalar::from_bytes_mod_order` followed by `Scalar::to_bytes`: the
/// canonical encoding of the little-endian value modulo l.
#[verifier::external_body]
pub(crate) fn scalar_reduce(bytes: &[u8; 32]) -> (r: [u8; 32])
    ensures
        le_nat(r@) == le_nat(bytes@) % group_order(),
{
    Scalar::from_bytes_mod_order(*bytes).to_bytes()
}

/// `Scalar * Scalar` on canonical encodings: the product modulo l.
#[verifier::external_body]
pub(crate) fn scalar_mul(a: &[u8; 32], b: &[u8; 32]) -> (r: [u8; 32])
    requires
        le_nat(a@) < group_order(),
        le_nat(b@) < group_order(),
    ensures
        le_nat(r@) == (le_nat(a@) * le_nat(b@)) % group_order(),
{
    (Scalar::from_bytes_mod_order(*a) * Scalar::from_bytes_mod_order(*b)).to_bytes()
}

/// `Scalar::invert` on a canonical encoding: for a nonzero scalar, the
/// inverse modulo l.
#[verifier::external_body]
pub(crate) fn scalar_invert(a: &[u8; 32]) -> (r: [u8; 32])
    requires
        le_nat(a@) < group_order(),
    ensures
        le_nat(r@) < group_order(),
        le_nat(a@) != 0 ==> (le_nat(r@) * le_nat(a@)) % group_order() == 1,
{
    Scalar::from_bytes_mod_order(*a).invert().to_bytes()
}

/// `Scalar + Scalar` on canonical encodings: the sum modulo l.
#[verifier::external_body]
pub(crate) fn scalar_add(a: &[u8; 32], b: &[u8; 32]) -> (r: [u8; 32])
    requires
        le_nat(a@) < group_order(),
        le_nat(b@) < group_order(),
    ensures
        le_nat(r@) == (le_nat(a@) + le_nat(b@)) % group_order(),
{
    (Scalar::from_bytes_mod_order(*a) + Scalar::from_bytes_mod_order(*b)).to_bytes()
}

/// `Scalar - Scalar` on canonical encodings: the difference modulo l.
#[verifier::external_body]
pub(crate) fn scalar_sub(a: &[u8; 32], b: &[u8; 32]) -> (r: [u8; 32])
    requires
        le_nat(a@) < group_order(),
        le_nat(b@) < group_order(),
    ensures
        le_nat(r@) == (le_nat(a@) + group_order() - le_nat(b@)) % (group_order() as int),
{
    (Scalar::from_bytes_mod_order(*a) - Scalar::from_bytes_mod_order(*b)).to_bytes()
}

/// `-Scalar` on a canonical encoding: the negation modulo l.
#[verifier::external_body]
pub(crate) fn scalar_neg(a: &[u8; 32]) -> (r: [u8; 32])
    requires
        le_nat(a@) < group_order(),
    ensures
        le_nat(r@) == (group_order() - le_nat(a@)) % (group_order() as int),
{
    (-Scalar::from_bytes_mod_order(*a)).to_bytes()
}

/// `Scalar::from(u64)`: the canonical encoding of a small integer.
#[verifier::external_body]
pub(crate) fn scalar_from_u64(x: u64) -> (r: [u8; 32])
    ensures
        le_nat(r@) == x,
{
    Scalar::from(x).to_bytes()
}

/// `Scalar::random` with `rand::thread_rng()`: some canonical scalar.
#[verifier::external_body]
pub(crate) fn scalar_random() -> (r: [u8; 32])
    ensures
        le_nat(r@) < group_order(),
{
    Scalar::random(&mut rand::thread_rng()).to_bytes()
}

/// The values of the scalars that `Scalar::random` draws, one after
/// another, from a `ChaCha12Rng` seeded with `seed`.
pub uninterp spec fn spec_seeded_scalars(seed: Seq<u8>, n: nat) -> Seq<nat>;

/// `n` calls of `Scalar::random` on `ChaCha12Rng::from_seed(seed)`: named as
/// a function of the seed and the count; each is canonical.
#[verifier::external_body]
pub(crate) fn seeded_scalars(seed: &[u8; 32], n: usize) -> (r: Vec<[u8; 32]>)
    ensures
        r.len() == n,
        scalar_values(r@) == spec_seeded_scalars(seed@, n as nat),
        forall|i: int| 0 <= i < n ==> le_nat(#[trigger] r[i]@) < group_order(),
{
    let mut rng = ChaCha12Rng::from_seed(*seed);
    (0..n).map(|_| Scalar::random(&mut rng).to_bytes()).collect()
}

// ---------------------------------------------------------------------------
//  Edwards points, handled as their compressed encodings
// ---------------------------------------------------------------------------
/// Whether 32 bytes are the compressed encoding of a curve point
/// (`CompressedEdwardsY::decompress` succeeds).
pub uninterp spec fn spec_ed_valid(c: Seq<u8>) -> bool;

/// The compressed encoding of the fixed-base product s B.
pub uninterp spec fn spec_ed_mul_base(s: nat) -> Seq<u8>;

/// The compressed encoding of s P.
pub uninterp spec fn spec_ed_mul(p: Seq<u8>, s: nat) -> Seq<u8>;

/// The compressed encoding of `P.mul_clamped(k)`.
pub uninterp spec fn spec_ed_mul_clamped(p: Seq<u8>, k: Seq<u8>) -> Seq<u8>;

/// The compressed encoding of P + Q.
pub uninterp spec fn spec_ed_add(p: Seq<u8>, q: Seq<u8>) -> Seq<u8>;

/// The compressed encoding of P - Q.
pub uninterp spec fn spec_ed_sub(p: Seq<u8>, q: Seq<u8>) -> Seq<u8>;

/// The compressed encoding of the multiscalar product sum s_i P_i.
pub uninterp spec fn spec_ed_msm(scalars: Seq<nat>, points: Seq<Seq<u8>>) -> Seq<u8>;

/// The values of canonical scalar encodings.
pub open spec fn scalar_values(s: Seq<[u8; 32]>) -> Seq<nat> {
    s.map_values(|b: [u8; 32]| le_nat(b@))
}

/// The byte strings of 32-byte encodings.
pub open spec fn views(p: Seq<[u8; 32]>) -> Seq<Seq<u8>> {
    p.map_values(|c: [u8; 32]| c@)
}

/// The little-endian values of byte strings.
pub open spec fn byte_values(s: Seq<Seq<u8>>) -> Seq<nat> {
    s.map_values(|b: Seq<u8>| le_nat(b))
}

/// The compressed encoding of 8 P.
pub uninterp spec fn spec_ed_mul_by_cofactor(p: Seq<u8>) -> Seq<u8>;

/// The compressed encoding of P + `EIGHT_TORSION[i]`.
pub uninterp spec fn spec_ed_add_torsion(p: Seq<u8>, i: nat) -> Seq<u8>;

/// The Montgomery u-coordinate of P.
pub uninterp spec fn spec_ed_to_montgomery(p: Seq<u8>) -> Seq<u8>;

/// `MontgomeryPoint::to_edwards(sign)`, compressed.
pub uninterp spec fn spec_mont_to_edwards(u: Seq<u8>, sign: u8) -> Option<Seq<u8>>;

/// Whether `CompressedEdwardsY(c).decompress()` succeeds.
#[verifier::external_body]
pub(crate) fn ed_valid(c: &[u8; 32]) -> (r: bool)
    ensures
        r == spec_ed_valid(c@),
{
    CompressedEdwardsY(*c).decompress().is_some()
}

/// `EdwardsPoint::mul_base`, compressed; a compressed point decompresses.
#[verifier::external_body]
pub(crate) fn ed_mul_base(s: &[u8; 32]) -> (r: [u8; 32])
    requires
        le_nat(s@) < group_order(),
    ensures
        r@ == spec_ed_mul_base(le_nat(s@)),
        spec_ed_valid(r@),
{
    EdwardsPoint::mul_base(&Scalar::from_bytes_mod_order(*s)).compress().to_bytes()
}

/// `&EdwardsPoint * &Scalar` on a decompressed point, compressed.
#[verifier::external_body]
pub(crate) fn ed_mul(p: &[u8; 32], s: &[u8; 32]) -> (r: [u8; 32])
    requires
        spec_ed_valid(p@),
        le_nat(s@) < group_order(),
    ensures
        r@ == spec_ed_mul(p@, le_nat(s@)),
        spec_ed_valid(r@),
{
    let point = CompressedEdwardsY(*p).decompress().unwrap();
    (point * Scalar::from_bytes_mod_order(*s)).compress().to_bytes()
}

/// `EdwardsPoint::mul_clamped` on a decompressed point, compressed.
#[verifier::external_body]
pub(crate) fn ed_mul_clamped(p: &[u8; 32], k: &[u8; 32]) -> (r: [u8; 32])
    requires
        spec_ed_valid(p@),
    ensures
        r@ == spec_ed_mul_clamped(p@, k@),
        spec_ed_valid(r@),
{
    CompressedEdwardsY(*p).decompress().unwrap().mul_clamped(*k).compress().to_bytes()
}

/// `EdwardsPoint + EdwardsPoint` on decompressed points, compressed.
#[verifier::external_body]
pub(crate) fn ed_add(p: &[u8; 32], q: &[u8; 32]) -> (r: [u8; 32])
    requires
        spec_ed_valid(p@),
        spec_ed_valid(q@),
    ensures
        r@ == spec_ed_add(p@, q@),
        spec_ed_valid(r@),
{
    let a = CompressedEdwardsY(*p).decompress().unwrap();
    let b = CompressedEdwardsY(*q).decompress().unwrap();
    (a + b).compress().to_bytes()
}

/// `EdwardsPoint - EdwardsPoint` on decompressed points, compressed.
#[verifier::external_body]
pub(crate) fn ed_sub(p: &[u8; 32], q: &[u8; 32]) -> (r: [u8; 32])
    requires
        spec_ed_valid(p@),
        spec_ed_valid(q@),
    ensures
        r@ == spec_ed_sub(p@, q@),
        spec_ed_valid(r@),
{
    let a = CompressedEdwardsY(*p).decompress().unwrap();
    let b = CompressedEdwardsY(*q).decompress().unwrap();
    (a - b).compress().to_bytes()
}

/// `EdwardsPoint::vartime_multiscalar_mul` on decompressed points and
/// canonical scalars of the same count, compressed.
#[verifier::external_body]
pub(crate) fn ed_msm(scalars: &[[u8; 32]], points: &[[u8; 32]]) -> (r: [u8; 32])
    requires
        scalars.len() == points.len(),
        forall|i: int| 0 <= i < points.len() ==> spec_ed_valid(#[trigger] points[i]@),
        forall|i: int| 0 <= i < scalars.len() ==> le_nat(#[trigger] scalars[i]@) < group_order(),
    ensures
        r@ == spec_ed_msm(scalar_values(scalars@), views(points@)),
        spec_ed_valid(r@),
{
    let s: Vec<Scalar> = scalars.iter().map(|b| Scalar::from_bytes_mod_order(*b)).collect();
    let p: Vec<EdwardsPoint> =
        points.iter().map(|c| CompressedEdwardsY(*c).decompress().unwrap()).collect();
    EdwardsPoint::vartime_multiscalar_mul(s.iter(), p.iter()).compress().to_bytes()
}

/// `EdwardsPoint::mul_by_cofactor` on a decompressed point, compressed.
#[verifier::external_body]
pub(crate) fn ed_mul_by_cofactor(p: &[u8; 32]) -> (r: [u8; 32])
    requires
        spec_ed_valid(p@),
    ensures
        r@ == spec_ed_mul_by_cofactor(p@),
        spec_ed_valid(r@),
{
    CompressedEdwardsY(*p).decompress().unwrap().mul_by_cofactor().compress().to_bytes()
}

/// `EdwardsPoint + EIGHT_TORSION[i]` on a decompressed point, compressed.
#[verifier::external_body]
pub(crate) fn ed_add_torsion(p: &[u8; 32], i: usize) -> (r: [u8; 32])
    requires
        spec_ed_valid(p@),
        i < 8,
    ensures
        r@ == spec_ed_add_torsion(p@, i as nat),
        spec_ed_valid(r@),
{
    (CompressedEdwardsY(*p).decompress().unwrap() + EIGHT_TORSION[i]).compress().to_bytes()
}

/// `EdwardsPoint::to_montgomery` on a decompressed point: the u-coordinate,
/// a canonical field encoding (`FieldElement::as_bytes`).
#[verifier::external_body]
pub(crate) fn ed_to_montgomery(point: &[u8; 32]) -> (r: [u8; 32])
    requires
        spec_ed_valid(point@),
    ensures
        r@ == spec_ed_to_montgomery(point@),
        le_nat(r@) < p(),
        r[31] <= 0x7f,
{
    CompressedEdwardsY(*point).decompress().unwrap().to_montgomery().to_bytes()
}

/// `MontgomeryPoint::to_edwards`, compressed: `None` when u = -1 (the
/// early rejection in its source), a decompressing encoding when `Some`.
#[verifier::external_body]
pub(crate) fn mont_to_edwards(u: &[u8; 32], sign: u8) -> (r: Option<[u8; 32]>)
    ensures
        bytes_to_field(u@) == (p() - 1) as nat ==> r is None,
        match r {
            Some(c) => spec_mont_to_edwards(u@, sign) == Some(c@) && spec_ed_valid(c@),
            None => spec_mont_to_edwards(u@, sign) is None,
        },
{
    match MontgomeryPoint(*u).to_edwards(sign) {
        Some(e) => Some(e.compress().to_bytes()),
        None => None,
    }
}

} // verus!
