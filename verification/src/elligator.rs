//! Elligator-2 maps between field elements and Montgomery u-coordinates of
//! Curve25519 (A = 486662, non-square Z = 2).
//!
//! A Montgomery point is handled as its 32-byte little-endian u-coordinate,
//! exactly the bytes that curve25519-dalek's `MontgomeryPoint` wraps.
use vstd::prelude::*;
use crate::curve::{ed_add_torsion, ed_valid, spec_ed_add_torsion, spec_ed_valid};
use crate::field::{
    bytes_to_field, canonical_bytes, eqm, fadd, fis_negative, fmul, fneg, fsq, fsub,
    le_nat, lemma_canonical_bytes_to_field, lemma_eqm_add, lemma_eqm_mod, lemma_eqm_mul,
    lemma_fmul_eqm, lemma_fneg_value, lemma_fsq_fneg, lemma_sqrt_ratio_i,
    lemma_sqrt_ratio_i_nonsquare, lemma_square_roots, p, spec_sqrt_ratio_i, sqrt_m1, FieldElement,
};

verus! {

/// The Montgomery curve parameter A.
pub open spec fn mont_a() -> nat {
    486662
}

/// The non-square Z used by the map.
pub open spec fn ell_z() -> nat {
    2
}

/// The direct map r -> u on field values.
pub open spec fn spec_elligator_direct(r: nat) -> nat {
    let u = fsq(r);
    let t1 = fmul(ell_z(), u);
    let v = fadd(t1, 1);
    let t2 = fsq(v);
    let t3 = fmul(fsub(fmul(fsq(mont_a()), t1), t2), mont_a());
    let v3 = fmul(t2, v);
    let sq = spec_sqrt_ratio_i(1, fmul(t3, v3));
    let u2 = if sq.0 {
        1
    } else {
        fmul(u, fmul(fneg(ell_z()), sqrt_m1()))
    };
    fmul(fmul(fmul(fmul(fneg(u2), mont_a()), t3), t2), fsq(sq.1))
}

/// Makes a field value nonnegative (even) by negating odd values.
pub open spec fn spec_abs(x: nat) -> nat {
    if fis_negative(x) {
        fneg(x)
    } else {
        x
    }
}

/// The inverse map on field values: `None` when u = -A or when
/// -Z u (u + A) has no inverse square root; otherwise the two
/// nonnegative representatives (u + A) s and u s, where s = sqrt(1 / (-Z u (u + A))).
pub open spec fn spec_elligator_inverse_value(u: nat) -> Option<(nat, nat)> {
    if u == fneg(mont_a()) {
        None
    } else {
        let t = fadd(u, mont_a());
        let zu = fmul(fneg(ell_z()), u);
        let sq = spec_sqrt_ratio_i(1, fmul(zu, t));
        if !sq.0 {
            None
        } else {
            Some((spec_abs(fmul(t, sq.1)), spec_abs(fmul(u, sq.1))))
        }
    }
}

/// The inverse map on a 32-byte Montgomery u-coordinate.
pub open spec fn spec_elligator_inverse(point: Seq<u8>) -> Option<(nat, nat)> {
    spec_elligator_inverse_value(bytes_to_field(point))
}

/// Whether a result is what the inverse map gives for the field value u.
pub open spec fn inverse_value_matches(res: Option<[FieldElement; 2]>, u: nat) -> bool {
    match res {
        None => spec_elligator_inverse_value(u) is None,
        Some(a) => spec_elligator_inverse_value(u) == Some((a[0]@, a[1]@)),
    }
}

/// Whether a result is what the inverse map gives for a 32-byte point.
pub open spec fn inverse_matches(res: Option<[FieldElement; 2]>, point: Seq<u8>) -> bool {
    inverse_value_matches(res, bytes_to_field(point))
}

fn fe_a() -> (r: FieldElement)
    ensures
        r@ == mont_a(),
{
    FieldElement::from_small(486662)
}

fn fe_z() -> (r: FieldElement)
    ensures
        r@ == ell_z(),
{
    FieldElement::from_small(2)
}

/// Sign normalisation: the nonnegative one of x and -x.
fn fe_abs(x: FieldElement) -> (r: FieldElement)
    ensures
        r@ == spec_abs(x@),
{
    if x.is_negative() {
        x.neg()
    } else {
        x
    }
}

/// Elligator-2 direct map: the u-coordinate (32 bytes, canonical) of the
/// Montgomery point that the field element r maps to.
pub fn field_mont_point(r: &FieldElement) -> (res: [u8; 32])
    ensures
        res@ == canonical_bytes(spec_elligator_direct(r@)),
        le_nat(res@) == spec_elligator_direct(r@),
        res[31] <= 0x7f,
{
    let u = r.square();
    let z = fe_z();
    let a = fe_a();
    let a2 = a.square();
    let t1 = z.mul(&u);
    let v = t1.add(&FieldElement::one());
    let t2 = v.square();
    let t3 = a2.mul(&t1).sub(&t2).mul(&a);
    let v3 = t2.mul(&v);
    let (is_sq, inv) = FieldElement::sqrt_ratio_i(&FieldElement::one(), &t3.mul(&v3));
    let zu = z.neg().mul(&FieldElement::sqrt_m1());
    let u2 = if is_sq {
        FieldElement::one()
    } else {
        u.mul(&zu)
    };
    let t1_sq = inv.square();
    let x = u2.neg().mul(&a).mul(&t3).mul(&t2).mul(&t1_sq);
    x.as_bytes()
}

/// Elligator-2 inverse map: the two nonnegative field elements that map to
/// the given Montgomery u-coordinate, or `None` when the point is not in
/// the image of the map.
pub fn mont_point_field(point: &[u8; 32]) -> (res: Option<[FieldElement; 2]>)
    ensures
        inverse_matches(res, point@),
{
    let a = fe_a();
    let z = fe_z();
    let u = FieldElement::from_bytes(point);
    if u.ct_eq(&a.neg()) {
        return None;
    }
    let t = u.add(&a);
    let zu = z.neg().mul(&u);
    let (is_sq, r) = FieldElement::sqrt_ratio_i(&FieldElement::one(), &zu.mul(&t));
    if !is_sq {
        return None;
    }
    let r0 = fe_abs(t.mul(&r));
    let r1 = fe_abs(u.mul(&r));
    Some([r0, r1])
}

/// The direct map computed with precomputed constants (-Z sqrt(-1) and A^2);
/// it gives the same point as `field_mont_point`.
pub fn field_mont_point_optimized(r: &FieldElement) -> (res: [u8; 32])
    ensures
        res@ == canonical_bytes(spec_elligator_direct(r@)),
        le_nat(res@) == spec_elligator_direct(r@),
        res[31] <= 0x7f,
{
    let u_squared = r.square();
    let fe_a = fe_a();
    let a_squared = fe_a.square();
    let zu_const = fe_z().neg().mul(&FieldElement::sqrt_m1());
    let zu = fe_z().mul(&u_squared);
    let v = zu.add(&FieldElement::one());
    let v_squared = v.square();
    let t3 = a_squared.mul(&zu).sub(&v_squared).mul(&fe_a);
    let t1 = v_squared.mul(&v);
    let (is_sq, inv) = FieldElement::sqrt_ratio_i(&FieldElement::one(), &t3.mul(&t1));
    let mut u = u_squared.mul(&zu_const);
    if is_sq {
        u = FieldElement::one();
    }
    let t1_squared = inv.square();
    let x = u.neg().mul(&fe_a).mul(&t3).mul(&v_squared).mul(&t1_squared);
    x.as_bytes()
}

/// The inverse map computed with precomputed constants; it gives the same
/// result as `mont_point_field`.
pub fn mont_point_field_optimized(p: &[u8; 32]) -> (res: Option<[FieldElement; 2]>)
    ensures
        inverse_matches(res, p@),
{
    let u = FieldElement::from_bytes(p);
    let fe_a = fe_a();
    let fe_a_neg = fe_a.neg();
    if u.ct_eq(&fe_a_neg) {
        return None;
    }
    let t = u.add(&fe_a);
    let zu = fe_z().neg().mul(&u);
    let (is_sq, r) = FieldElement::sqrt_ratio_i(&FieldElement::one(), &zu.mul(&t));
    if !is_sq {
        return None;
    }
    let tr = t.mul(&r);
    let ur = u.mul(&r);
    let r0 = if tr.is_negative() {
        tr.neg()
    } else {
        tr
    };
    let r1 = if ur.is_negative() {
        ur.neg()
    } else {
        ur
    };
    Some([r0, r1])
}

/// Applies the direct map to each field element, in order.
pub fn field_mont_points_batch(rs: &[FieldElement]) -> (res: Vec<[u8; 32]>)
    ensures
        res.len() == rs.len(),
        forall|i: int|
            0 <= i < rs.len() ==> #[trigger] res[i]@ == canonical_bytes(spec_elligator_direct(rs[i]@)),
{
    let mut results: Vec<[u8; 32]> = Vec::with_capacity(rs.len());
    let mut i: usize = 0;
    while i < rs.len()
        invariant
            i <= rs.len(),
            results.len() == i,
            forall|j: int|
                0 <= j < i ==> #[trigger] results[j]@ == canonical_bytes(spec_elligator_direct(rs[j]@)),
        decreases rs.len() - i,
    {
        results.push(field_mont_point_optimized(&rs[i]));
        i = i + 1;
    }
    results
}

/// Applies the inverse map to each point, in order.
pub fn mont_points_field_batch(ps: &[[u8; 32]]) -> (res: Vec<Option<[FieldElement; 2]>>)
    ensures
        res.len() == ps.len(),
        forall|i: int| 0 <= i < ps.len() ==> inverse_matches(#[trigger] res[i], ps[i]@),
{
    let mut results: Vec<Option<[FieldElement; 2]>> = Vec::with_capacity(ps.len());
    let mut i: usize = 0;
    while i < ps.len()
        invariant
            i <= ps.len(),
            results.len() == i,
            forall|j: int| 0 <= j < i ==> inverse_matches(#[trigger] results[j], ps[j]@),
        decreases ps.len() - i,
    {
        results.push(mont_point_field_optimized(&ps[i]));
        i = i + 1;
    }
    results
}

/// The direct map followed by the inverse map.
pub fn round_trip_optimized(r: &FieldElement) -> (res: Option<[FieldElement; 2]>)
    ensures
        inverse_value_matches(res, spec_elligator_direct(r@)),
        res matches Some(v) ==> v[0]@ == r@ || v[0]@ == fneg(r@) || v[1]@ == r@ || v[1]@ == fneg(r@),
{
    let p = field_mont_point_optimized(r);
    let res = mont_point_field_optimized(&p);
    proof {
        lemma_canonical_bytes_to_field(p@);
        r.lemma_value_lt_p();
        lemma_elligator_round_trip(r@);
    }
    res
}

/// The eight torsion translates p + T_i of an Edwards point (compressed),
/// in the order of `EIGHT_TORSION`; `None` when p does not decompress.
pub fn enumerate_representatives(p: &[u8; 32]) -> (reps: Option<[[u8; 32]; 8]>)
    ensures
        reps is Some <==> spec_ed_valid(p@),
        reps matches Some(v) ==> forall|i: int|
            0 <= i < 8 ==> #[trigger] v[i]@ == spec_ed_add_torsion(p@, i as nat) && spec_ed_valid(v[i]@),
{
    if !ed_valid(p) {
        return None;
    }
    let mut reps = [[0u8; 32]; 8];
    let mut i: usize = 0;
    while i < 8
        invariant
            i <= 8,
            spec_ed_valid(p@),
            forall|j: int|
                0 <= j < i ==> #[trigger] reps[j]@ == spec_ed_add_torsion(p@, j as nat) && spec_ed_valid(
                    reps[j]@,
                ),
        decreases 8 - i,
    {
        reps[i] = ed_add_torsion(p, i);
        i = i + 1;
    }
    Some(reps)
}

/// The eight torsion translates, computed one by one without a loop; the
/// same as `enumerate_representatives`.
pub fn enumerate_representatives_optimized(p: &[u8; 32]) -> (reps: Option<[[u8; 32]; 8]>)
    ensures
        reps is Some <==> spec_ed_valid(p@),
        reps matches Some(v) ==> forall|i: int|
            0 <= i < 8 ==> #[trigger] v[i]@ == spec_ed_add_torsion(p@, i as nat) && spec_ed_valid(v[i]@),
{
    if !ed_valid(p) {
        return None;
    }
    let reps: [[u8; 32]; 8] = [
        ed_add_torsion(p, 0),
        ed_add_torsion(p, 1),
        ed_add_torsion(p, 2),
        ed_add_torsion(p, 3),
        ed_add_torsion(p, 4),
        ed_add_torsion(p, 5),
        ed_add_torsion(p, 6),
        ed_add_torsion(p, 7),
    ];
    assert forall|i: int| 0 <= i < 8 implies #[trigger] reps[i]@ == spec_ed_add_torsion(p@, i as nat)
        && spec_ed_valid(reps[i]@) by {
        if i == 0 {} else if i == 1 {} else if i == 2 {} else if i == 3 {} else if i == 4 {
        } else if i == 5 {} else if i == 6 {} else {}
    }
    Some(reps)
}


// ---------------------------------------------------------------------------
//  The round trip of the two maps
// ---------------------------------------------------------------------------
/// Whether the direct map of r takes its first branch: the value that it
/// hands to `sqrt_ratio_i` has an inverse square root.
pub open spec fn elligator_direct_is_square(r: nat) -> bool {
    let u = fsq(r);
    let t1 = fmul(ell_z(), u);
    let v = fadd(t1, 1);
    let t2 = fsq(v);
    let t3 = fmul(fsub(fmul(fsq(mont_a()), t1), t2), mont_a());
    let v3 = fmul(t2, v);
    spec_sqrt_ratio_i(1, fmul(t3, v3)).0
}

/// In the first branch, the direct map gives u with u (1 + Z r^2) = -A.
#[verifier::rlimit(80)]
#[verifier::spinoff_prover]
proof fn lemma_direct_square_value(r: nat)
    requires
        r < p(),
        elligator_direct_is_square(r),
    ensures
        eqm(spec_elligator_direct(r) as int * (fmul(ell_z(), fsq(r)) as int + 1), -486662),
{
    let a: int = 486662;
    let u = fsq(r);
    let t1 = fmul(ell_z(), u);
    let v = fadd(t1, 1);
    let t2 = fsq(v);
    let t3 = fmul(fsub(fmul(fsq(mont_a()), t1), t2), mont_a());
    let v3 = fmul(t2, v);
    let xx = fmul(t3, v3);
    let w = spec_sqrt_ratio_i(1, xx).1;
    lemma_sqrt_ratio_i(1, xx);
    assert(fmul(xx, fsq(w)) == 1);
    let n1 = fneg(1);
    lemma_fneg_value(1);
    assert(eqm(n1 as int, -1));
    let e1 = fmul(n1, mont_a());
    let e2 = fmul(e1, t3);
    let e3 = fmul(e2, t2);
    let uu = fmul(e3, fsq(w));
    assert(spec_elligator_direct(r) == uu);
    let (it3, it2, iv, iw, it1, iuu) = (t3 as int, t2 as int, v as int, w as int, t1 as int, uu as int);
    lemma_fmul_eqm(n1, mont_a(), -1, a);
    lemma_fmul_eqm(e1, t3, -1 * a, it3);
    lemma_fmul_eqm(e2, t2, (-1 * a) * it3, it2);
    lemma_fmul_eqm(w, w, iw, iw);
    lemma_fmul_eqm(e3, fsq(w), ((-1 * a) * it3) * it2, iw * iw);
    // x = t3 (t2 v) and x w^2 = 1
    lemma_fmul_eqm(t2, v, it2, iv);
    lemma_fmul_eqm(t3, v3, it3, it2 * iv);
    lemma_fmul_eqm(xx, fsq(w), it3 * (it2 * iv), iw * iw);
    let k = (it3 * (it2 * iv)) * (iw * iw);
    assert(eqm(k, 1));
    // u v = -A k
    lemma_eqm_mul(iuu, (((-1 * a) * it3) * it2) * (iw * iw), iv, iv);
    assert((((-1 * a) * it3) * it2) * (iw * iw) * iv == (-a) * k) by (nonlinear_arith)
        requires
            k == (it3 * (it2 * iv)) * (iw * iw),
    ;
    lemma_eqm_mul(-a, -a, k, 1);
    // v = t1 + 1 modulo p
    lemma_eqm_mod(it1 + 1);
    lemma_eqm_mul(iuu, iuu, iv, it1 + 1);
}

/// With u (1 + Z r^2) = -A and -Z u (u + A) s^2 = 1: ((u + A) s)^2 2A = A Z r^2 (modulo p).
proof fn lemma_inverse_algebra(uu: int, t1: int, s: int)
    requires
        eqm(uu * (t1 + 1), -486662),
        eqm(((-2 * uu) * (uu + 486662)) * (s * s), 1),
    ensures
        eqm(((uu + 486662) * s) * ((uu + 486662) * s) * (2 * 486662), 486662 * t1),
{
    let a: int = 486662;
    let tt = uu + a;
    let kk = ((-2 * uu) * tt) * (s * s);
    let yy = (tt * s) * (tt * s);
    // 2A = -2 u (1 + Z r^2)
    lemma_eqm_mul(-2, -2, uu * (t1 + 1), -a);
    lemma_eqm_mul(yy, yy, -2 * (uu * (t1 + 1)), 2 * a);
    assert(yy * (-2 * (uu * (t1 + 1))) == kk * (tt * (t1 + 1))) by (nonlinear_arith)
        requires
            yy == (tt * s) * (tt * s),
            kk == ((-2 * uu) * tt) * (s * s),
    ;
    lemma_eqm_mul(kk, 1, tt * (t1 + 1), tt * (t1 + 1));
    // (u + A)(1 + Z r^2) = u (1 + Z r^2) + A (1 + Z r^2)
    lemma_eqm_add(uu * (t1 + 1), -a, a * (t1 + 1), a * (t1 + 1));
    assert(tt * (t1 + 1) == uu * (t1 + 1) + a * (t1 + 1)) by (nonlinear_arith)
        requires
            tt == uu + a,
    ;
    assert(-a + a * (t1 + 1) == a * t1) by (nonlinear_arith);
}

/// 2A can be cancelled modulo p.
proof fn lemma_cancel_two_a(q: int, x: int)
    requires
        eqm(q * (2 * 486662), x * (2 * 486662)),
    ensures
        eqm(q, x),
{
    let a: int = 486662;
    let c: int = 56267107921441187406648409978657276953416517020350556190395216576834300776738int;
    assert(((2 * a) * c) % (p() as int) == 1);
    lemma_eqm_mul(q * (2 * a), x * (2 * a), c, c);
    assert(q * (2 * a) * c == q * ((2 * a) * c)) by (nonlinear_arith);
    assert(x * (2 * a) * c == x * ((2 * a) * c)) by (nonlinear_arith);
    lemma_eqm_mul(q, q, (2 * a) * c, 1);
    lemma_eqm_mul(x, x, (2 * a) * c, 1);
}

/// The inverse map's first value squared, from the congruences it satisfies.
#[verifier::rlimit(80)]
#[verifier::spinoff_prover]
proof fn lemma_inverse_first_square(uu: nat, r: nat)
    requires
        uu < p(),
        r < p(),
        eqm(uu as int * (fmul(ell_z(), fsq(r)) as int + 1), -486662),
        spec_sqrt_ratio_i(1, fmul(fmul(fneg(ell_z()), uu), fadd(uu, mont_a()))).0,
    ensures
        fsq(fmul(fadd(uu, mont_a()), spec_sqrt_ratio_i(1, fmul(fmul(fneg(ell_z()), uu), fadd(uu, mont_a()))).1))
            == fsq(r),
{
    let a: int = 486662;
    let u = fsq(r);
    let t1 = fmul(ell_z(), u);
    let t = fadd(uu, mont_a());
    let n2 = fneg(ell_z());
    let zu = fmul(n2, uu);
    let zt = fmul(zu, t);
    let s = spec_sqrt_ratio_i(1, zt).1;
    lemma_sqrt_ratio_i(1, zt);
    assert(fmul(zt, fsq(s)) == 1);
    let ts = fmul(t, s);
    let (iuu, it1, ir, is) = (uu as int, t1 as int, r as int, s as int);
    let tt = iuu + a;
    lemma_fneg_value(2);
    assert(eqm(n2 as int, -2));
    lemma_eqm_mod(tt);
    lemma_fmul_eqm(n2, uu, -2, iuu);
    lemma_fmul_eqm(zu, t, -2 * iuu, tt);
    lemma_fmul_eqm(s, s, is, is);
    lemma_fmul_eqm(zt, fsq(s), (-2 * iuu) * tt, is * is);
    lemma_inverse_algebra(iuu, it1, is);
    lemma_fmul_eqm(t, s, tt, is);
    lemma_fmul_eqm(ts, ts, tt * is, tt * is);
    let q = fsq(ts) as int;
    lemma_eqm_mul(q, (tt * is) * (tt * is), 2 * a, 2 * a);
    lemma_fmul_eqm(r, r, ir, ir);
    lemma_fmul_eqm(ell_z(), u, 2, ir * ir);
    lemma_eqm_mul(a, a, it1, 2 * (ir * ir));
    assert(a * (2 * (ir * ir)) == (ir * ir) * (2 * a)) by (nonlinear_arith);
    lemma_cancel_two_a(q, ir * ir);
    lemma_eqm_mod(q);
}

/// In the first branch of the direct map, when the inverse map gives a
/// pair, its first member squared is r^2.
pub proof fn lemma_elligator_round_trip_squares(r: nat)
    requires
        r < p(),
        elligator_direct_is_square(r),
    ensures
        spec_elligator_inverse_value(spec_elligator_direct(r)) matches Some((x, y)) ==> fsq(x) == fsq(r),
{
    let uu = spec_elligator_direct(r);
    if let Some((x, y)) = spec_elligator_inverse_value(uu) {
        lemma_direct_square_value(r);
        let ts = fmul(fadd(uu, mont_a()), spec_sqrt_ratio_i(1, fmul(fmul(fneg(ell_z()), uu), fadd(uu, mont_a()))).1);
        lemma_inverse_first_square(uu, r);
        assert(x == spec_abs(ts));
        lemma_fsq_fneg(ts);
    }
}

/// sqrt_ratio_i(1, 0) reports no square and returns 0.
proof fn lemma_sqrt_ratio_of_zero()
    ensures
        spec_sqrt_ratio_i(1, 0) == (false, 0nat),
{
    lemma_fneg_value(1);
    lemma_fneg_value(sqrt_m1());
    let v3 = fmul(fsq(0), 0);
    assert(v3 == 0);
    assert(fmul(1, v3) == 0);
    let r = fmul(fmul(1, v3), crate::field::fpow(fmul(1, fmul(fsq(v3), 0)), crate::field::p58()));
    assert(r == 0);
    assert(fmul(0, fsq(r)) == 0);
    assert(fmul(fneg(1), sqrt_m1()) != 0) by {
        let m = p() as int;
        assert(((m - 1) * sqrt_m1()) % m == m - sqrt_m1());
    }
}

/// With u (1 + Z r^2) = -A Z r^2 and -Z u (u + A) s^2 = 1: (u s)^2 2A = A Z r^2 (modulo p).
proof fn lemma_inverse_algebra_second(uu: int, t1: int, s: int)
    requires
        eqm(uu * (t1 + 1), -486662 * t1),
        eqm(((-2 * uu) * (uu + 486662)) * (s * s), 1),
    ensures
        eqm((uu * s) * (uu * s) * (2 * 486662), 486662 * t1),
{
    let a: int = 486662;
    let tt = uu + a;
    let kk = ((-2 * uu) * tt) * (s * s);
    let yy = (uu * s) * (uu * s);
    let w = t1 + 1;
    // (u s)^2 (-2 (u + A)) v = K (u v), with K = 1
    assert(yy * ((-2 * tt) * w) == kk * (uu * w)) by (nonlinear_arith)
        requires
            yy == (uu * s) * (uu * s),
            kk == ((-2 * uu) * tt) * (s * s),
            tt == uu + a,
    ;
    lemma_eqm_mul(kk, 1, uu * w, uu * w);
    // (-2 (u + A)) v = -2 u v - 2 A v = 2 A t1 - 2 A (t1 + 1) = -2A
    lemma_eqm_mul(-2, -2, uu * w, -a * t1);
    lemma_eqm_add(-2 * (uu * w), -2 * (-a * t1), -2 * a * w, -2 * a * w);
    assert((-2 * tt) * w == -2 * (uu * w) + -2 * a * w) by (nonlinear_arith)
        requires
            tt == uu + a,
    ;
    assert(-2 * (-a * t1) + -2 * a * w == -2 * a) by (nonlinear_arith)
        requires
            w == t1 + 1,
    ;
    lemma_eqm_mul(yy, yy, (-2 * tt) * w, -2 * a);
    // yy (-2A) = -A t1, so yy 2A = A t1
    lemma_eqm_mul(yy * (-2 * a), -a * t1, -1, -1);
    assert(yy * (-2 * a) * -1 == yy * (2 * a)) by (nonlinear_arith);
    assert(-a * t1 * -1 == a * t1) by (nonlinear_arith);
}

/// In the second branch (p prime, nonzero ratio), the direct map gives u
/// with u (1 + Z r^2) = -A Z r^2.
#[verifier::rlimit(80)]
#[verifier::spinoff_prover]
proof fn lemma_direct_nonsquare_value(r: nat)
    requires
        r < p(),
        !elligator_direct_is_square(r),
        ({
            let t1 = fmul(ell_z(), fsq(r));
            let v = fadd(t1, 1);
            let t2 = fsq(v);
            let t3 = fmul(fsub(fmul(fsq(mont_a()), t1), t2), mont_a());
            fmul(t3, fmul(t2, v)) != 0
        }),
    ensures
        eqm(
            spec_elligator_direct(r) as int * (fmul(ell_z(), fsq(r)) as int + 1),
            -486662 * fmul(ell_z(), fsq(r)) as int,
        ),
{
    let a: int = 486662;
    let u = fsq(r);
    let t1 = fmul(ell_z(), u);
    let v = fadd(t1, 1);
    let t2 = fsq(v);
    let t3 = fmul(fsub(fmul(fsq(mont_a()), t1), t2), mont_a());
    let v3 = fmul(t2, v);
    let xx = fmul(t3, v3);
    let w = spec_sqrt_ratio_i(1, xx).1;
    lemma_sqrt_ratio_i_nonsquare(xx);
    let i = sqrt_m1();
    assert(fmul(xx, fsq(w)) == i);
    let n2 = fneg(ell_z());
    let zi = fmul(n2, i);
    let u2 = fmul(u, zi);
    let nu2 = fneg(u2);
    let e1 = fmul(nu2, mont_a());
    let e2 = fmul(e1, t3);
    let e3 = fmul(e2, t2);
    let uu = fmul(e3, fsq(w));
    assert(spec_elligator_direct(r) == uu);
    let (ir, it3, it2, iv, iw, it1, iuu, ii) = (
        r as int,
        t3 as int,
        t2 as int,
        v as int,
        w as int,
        t1 as int,
        uu as int,
        i as int,
    );
    // u2 = r^2 (-2 i)
    lemma_fmul_eqm(r, r, ir, ir);
    lemma_fneg_value(2);
    assert(eqm(n2 as int, -2));
    lemma_fmul_eqm(n2, i, -2, ii);
    lemma_fmul_eqm(u, zi, ir * ir, -2 * ii);
    let cu2 = (ir * ir) * (-2 * ii);
    lemma_eqm_mod(0 - u2);
    lemma_eqm_mul(-1, -1, u2 as int, cu2);
    assert(eqm(nu2 as int, -1 * cu2));
    lemma_fmul_eqm(nu2, mont_a(), -1 * cu2, a);
    lemma_fmul_eqm(e1, t3, (-1 * cu2) * a, it3);
    lemma_fmul_eqm(e2, t2, ((-1 * cu2) * a) * it3, it2);
    lemma_fmul_eqm(w, w, iw, iw);
    lemma_fmul_eqm(e3, fsq(w), (((-1 * cu2) * a) * it3) * it2, iw * iw);
    // x w^2 = i with x = t3 (t2 v)
    lemma_fmul_eqm(t2, v, it2, iv);
    lemma_fmul_eqm(t3, v3, it3, it2 * iv);
    lemma_fmul_eqm(xx, fsq(w), it3 * (it2 * iv), iw * iw);
    let k = (it3 * (it2 * iv)) * (iw * iw);
    assert(eqm(k, ii));
    // u v = -u2 A k = 2 r^2 A i^2 = -A (2 r^2)
    lemma_eqm_mul(iuu, ((((-1 * cu2) * a) * it3) * it2) * (iw * iw), iv, iv);
    assert(((((-1 * cu2) * a) * it3) * it2) * (iw * iw) * iv == ((-1 * cu2) * a) * k) by (nonlinear_arith)
        requires
            k == (it3 * (it2 * iv)) * (iw * iw),
    ;
    lemma_eqm_mul((-1 * cu2) * a, (-1 * cu2) * a, k, ii);
    assert(((-1 * cu2) * a) * ii == (2 * (ir * ir) * a) * (ii * ii)) by (nonlinear_arith)
        requires
            cu2 == (ir * ir) * (-2 * ii),
    ;
    assert(eqm(ii * ii, -1)) by {
        assert((ii * ii) % (p() as int) == p() - 1);
    }
    lemma_eqm_mul(2 * (ir * ir) * a, 2 * (ir * ir) * a, ii * ii, -1);
    lemma_fmul_eqm(ell_z(), u, 2, ir * ir);
    lemma_eqm_mul(-a, -a, it1, 2 * (ir * ir));
    assert((2 * (ir * ir) * a) * -1 == -a * (2 * (ir * ir))) by (nonlinear_arith);
    // v = t1 + 1 modulo p
    lemma_eqm_mod(it1 + 1);
    lemma_eqm_mul(iuu, iuu, iv, it1 + 1);
}

/// The inverse map's second value squared, in the second branch.
#[verifier::rlimit(80)]
#[verifier::spinoff_prover]
proof fn lemma_inverse_second_square(uu: nat, r: nat)
    requires
        uu < p(),
        r < p(),
        eqm(uu as int * (fmul(ell_z(), fsq(r)) as int + 1), -486662 * fmul(ell_z(), fsq(r)) as int),
        spec_sqrt_ratio_i(1, fmul(fmul(fneg(ell_z()), uu), fadd(uu, mont_a()))).0,
    ensures
        fsq(fmul(uu, spec_sqrt_ratio_i(1, fmul(fmul(fneg(ell_z()), uu), fadd(uu, mont_a()))).1)) == fsq(r),
{
    let a: int = 486662;
    let u = fsq(r);
    let t1 = fmul(ell_z(), u);
    let t = fadd(uu, mont_a());
    let n2 = fneg(ell_z());
    let zu = fmul(n2, uu);
    let zt = fmul(zu, t);
    let s = spec_sqrt_ratio_i(1, zt).1;
    lemma_sqrt_ratio_i(1, zt);
    assert(fmul(zt, fsq(s)) == 1);
    let us = fmul(uu, s);
    let (iuu, it1, ir, is) = (uu as int, t1 as int, r as int, s as int);
    let tt = iuu + a;
    lemma_fneg_value(2);
    assert(eqm(n2 as int, -2));
    lemma_eqm_mod(tt);
    lemma_fmul_eqm(n2, uu, -2, iuu);
    lemma_fmul_eqm(zu, t, -2 * iuu, tt);
    lemma_fmul_eqm(s, s, is, is);
    lemma_fmul_eqm(zt, fsq(s), (-2 * iuu) * tt, is * is);
    lemma_inverse_algebra_second(iuu, it1, is);
    lemma_fmul_eqm(uu, s, iuu, is);
    lemma_fmul_eqm(us, us, iuu * is, iuu * is);
    let q = fsq(us) as int;
    lemma_eqm_mul(q, (iuu * is) * (iuu * is), 2 * a, 2 * a);
    lemma_fmul_eqm(r, r, ir, ir);
    lemma_fmul_eqm(ell_z(), u, 2, ir * ir);
    lemma_eqm_mul(a, a, it1, 2 * (ir * ir));
    assert(a * (2 * (ir * ir)) == (ir * ir) * (2 * a)) by (nonlinear_arith);
    lemma_cancel_two_a(q, ir * ir);
    lemma_eqm_mod(q);
}

/// The first branch of the round trip: the pair's first member is r or -r.
#[verifier::rlimit(80)]
#[verifier::spinoff_prover]
proof fn lemma_round_trip_first(r: nat)
    requires
        r < p(),
        elligator_direct_is_square(r),
    ensures
        spec_elligator_inverse_value(spec_elligator_direct(r)) matches Some((x, y)) ==> x == r || x == fneg(r),
{
    lemma_elligator_round_trip_squares(r);
    let uu = spec_elligator_direct(r);
    if let Some((x, y)) = spec_elligator_inverse_value(uu) {
        lemma_fneg_value(r);
        let t = fadd(uu, mont_a());
        let s = spec_sqrt_ratio_i(1, fmul(fmul(fneg(ell_z()), uu), t)).1;
        let ts = fmul(t, s);
        assert(x == spec_abs(ts));
        lemma_fneg_value(ts);
        lemma_fsq_fneg(ts);
        lemma_square_roots(ts, r);
        if ts != r {
            lemma_fneg_value(fneg(r));
        }
    }
}

/// When the ratio of the direct map is 0, it gives u = 0, which the
/// inverse map rejects.
#[verifier::rlimit(80)]
#[verifier::spinoff_prover]
proof fn lemma_round_trip_zero_ratio(r: nat)
    requires
        r < p(),
        ({
            let t1 = fmul(ell_z(), fsq(r));
            let v = fadd(t1, 1);
            let t2 = fsq(v);
            let t3 = fmul(fsub(fmul(fsq(mont_a()), t1), t2), mont_a());
            fmul(t3, fmul(t2, v)) == 0
        }),
    ensures
        spec_elligator_inverse_value(spec_elligator_direct(r)) is None,
{
    lemma_sqrt_ratio_of_zero();
    let u = fsq(r);
    let t1 = fmul(ell_z(), u);
    let v = fadd(t1, 1);
    let t2 = fsq(v);
    let t3 = fmul(fsub(fmul(fsq(mont_a()), t1), t2), mont_a());
    let xx = fmul(t3, fmul(t2, v));
    let sq = spec_sqrt_ratio_i(1, xx);
    assert(sq == (false, 0nat));
    let u2 = fmul(u, fmul(fneg(ell_z()), sqrt_m1()));
    let e3 = fmul(fmul(fmul(fneg(u2), mont_a()), t3), t2);
    assert(fsq(0nat) == 0);
    assert(fmul(e3, 0) == 0);
    let uu = spec_elligator_direct(r);
    assert(uu == fmul(e3, fsq(sq.1)));
    assert(uu == 0);
    lemma_fneg_value(mont_a());
    assert(uu != fneg(mont_a()));
    let zu = fmul(fneg(ell_z()), uu);
    assert(zu == 0);
    let zt = fmul(zu, fadd(uu, mont_a()));
    assert(zt == 0);
    assert(!spec_sqrt_ratio_i(1, zt).0);
}

/// The second branch of the round trip: the pair's second member is r or -r.
#[verifier::rlimit(80)]
#[verifier::spinoff_prover]
proof fn lemma_round_trip_second(r: nat)
    requires
        r < p(),
        !elligator_direct_is_square(r),
    ensures
        spec_elligator_inverse_value(spec_elligator_direct(r)) matches Some((x, y)) ==> y == r || y == fneg(r),
{
    let uu = spec_elligator_direct(r);
    let t1 = fmul(ell_z(), fsq(r));
    let v = fadd(t1, 1);
    let t2 = fsq(v);
    let t3 = fmul(fsub(fmul(fsq(mont_a()), t1), t2), mont_a());
    if fmul(t3, fmul(t2, v)) == 0 {
        lemma_round_trip_zero_ratio(r);
    } else if let Some((x, y)) = spec_elligator_inverse_value(uu) {
        lemma_fneg_value(r);
        lemma_direct_nonsquare_value(r);
        lemma_inverse_second_square(uu, r);
        let s = spec_sqrt_ratio_i(1, fmul(fmul(fneg(ell_z()), uu), fadd(uu, mont_a()))).1;
        let us = fmul(uu, s);
        assert(y == spec_abs(us));
        lemma_fneg_value(us);
        lemma_fsq_fneg(us);
        lemma_square_roots(us, r);
        if us != r {
            lemma_fneg_value(fneg(r));
        }
    }
}

/// Round trip of the maps: when the inverse map of the direct map of r
/// gives a pair, one of its members is r or -r.
pub proof fn lemma_elligator_round_trip(r: nat)
    requires
        r < p(),
    ensures
        spec_elligator_inverse_value(spec_elligator_direct(r)) matches Some((x, y)) ==> x == r || x == fneg(r)
            || y == r || y == fneg(r),
{
    if elligator_direct_is_square(r) {
        lemma_round_trip_first(r);
    } else {
        lemma_round_trip_second(r);
    }
}

} // verus!
