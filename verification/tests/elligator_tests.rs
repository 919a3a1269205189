use curve25519_dalek::edwards::CompressedEdwardsY;
use curve25519_dalek::montgomery::MontgomeryPoint;
use curve25519_dalek::scalar::Scalar;
use m2psu::elligator::{
    enumerate_representatives, enumerate_representatives_optimized, field_mont_point,
    field_mont_point_optimized, field_mont_points_batch, mont_point_field,
    mont_point_field_optimized, mont_points_field_batch, round_trip_optimized,
};
use m2psu::field::FieldElement;
use rand::RngCore;

fn fe_eq(a: &FieldElement, b: &FieldElement) -> bool {
    a.as_bytes() == b.as_bytes()
}

fn is_r_or_neg(x: &FieldElement, r: &FieldElement) -> bool {
    fe_eq(x, r) || fe_eq(x, &r.neg())
}

#[test]
fn round_trip_deterministic() {
    let bytes = [7u8; 32];
    let r = FieldElement::from_bytes(&bytes);
    let p = field_mont_point(&r);
    let reps = mont_point_field(&p);
    match reps {
        None => println!("No representatives found"),
        Some(reps_) => {
            assert!(reps_.iter().any(|x| is_r_or_neg(x, &r)));
        }
    }
}

#[test]
fn enumerate_representatives_test() {
    let bytes = [7u8; 32];
    let r = FieldElement::from_bytes(&bytes);
    let p = field_mont_point(&r);
    let e = MontgomeryPoint(p).to_edwards(0u8).unwrap().mul_by_cofactor();
    let inv8 = Scalar::from(8u64).invert();
    let ep = e * inv8;
    let reps = enumerate_representatives(&ep.compress().to_bytes()).unwrap();
    assert!(reps
        .iter()
        .any(|x| CompressedEdwardsY(*x).decompress().unwrap().mul_by_cofactor() == e));
    let mut found = false;
    for i in 0..8 {
        let m = CompressedEdwardsY(reps[i]).decompress().unwrap().to_montgomery();
        if let Some(pair) = mont_point_field(&m.to_bytes()) {
            if is_r_or_neg(&pair[0], &r) || is_r_or_neg(&pair[1], &r) {
                found = true;
            }
        }
    }
    assert!(found);
}

#[test]
fn scalar_mult_test() {
    let l_plus_two_bytes: [u8; 32] = [
        0xef, 0xd3, 0xf5, 0x5c, 0x1a, 0x63, 0x12, 0x58, 0xd6, 0x9c, 0xf7, 0xa2, 0xde, 0xf9, 0xde,
        0x14, 0x00, 0x00, 0x00, 0x00, 0x00, 0x00, 0x00, 0x00, 0x00, 0x00, 0x00, 0x00, 0x00, 0x00,
        0x00, 0x10,
    ];
    let k: Scalar = Scalar::from_bytes_mod_order(l_plus_two_bytes);
    assert_eq!(k, Scalar::from(2u64));
    let bytes = [6u8; 32];
    let r = FieldElement::from_bytes(&bytes);
    let p = field_mont_point(&r);
    let pk = MontgomeryPoint(p) * k;
    let e = MontgomeryPoint(p).to_edwards(0u8).unwrap().mul_by_cofactor();
    let ek = e * k;
    assert_eq!(ek, e + e);
    assert_eq!(ek.to_montgomery(), pk.to_edwards(0u8).unwrap().mul_by_cofactor().to_montgomery());
    let _ = curve25519_dalek::constants::ED25519_BASEPOINT_POINT * k;
}

#[test]
fn round_trip_randomized() {
    let mut rng = rand::thread_rng();
    for _ in 0..1000 {
        let mut bytes = [0u8; 32];
        rng.fill_bytes(&mut bytes);
        let r = FieldElement::from_bytes(&bytes);
        let p = field_mont_point(&r);
        let reps = mont_point_field(&p);
        match reps {
            None => println!("No representatives found"),
            Some(reps_) => {
                assert!(reps_.iter().any(|x| is_r_or_neg(x, &r)));
            }
        }
    }
}

#[test]
fn elligator_correctness_test() {
    let bytes = [7u8; 32];
    let r = FieldElement::from_bytes(&bytes);
    let p1 = field_mont_point_optimized(&r);
    let reps = mont_point_field_optimized(&p1);
    if let Some(reps) = reps {
        assert!(reps.iter().any(|x| is_r_or_neg(x, &r)));
    } else {
        panic!("No preimage exists for the given point");
    }
    let e1 = MontgomeryPoint(p1).to_edwards(0u8).unwrap().mul_by_cofactor();
    let e2 = e1 * Scalar::from(8u64).invert();
    let reps = enumerate_representatives_optimized(&e2.compress().to_bytes()).unwrap();
    assert!(reps
        .iter()
        .any(|x| CompressedEdwardsY(*x).decompress().unwrap().mul_by_cofactor() == e1));
    let mut found = false;
    for i in 0..8 {
        let m = CompressedEdwardsY(reps[i]).decompress().unwrap().to_montgomery();
        match mont_point_field_optimized(&m.to_bytes()) {
            None => continue,
            Some(pair) => {
                if is_r_or_neg(&pair[0], &r) || is_r_or_neg(&pair[1], &r) {
                    found = true;
                }
            }
        }
    }
    assert!(found);
}

#[test]
fn optimized_maps_agree_with_plain_maps() {
    let mut rng = rand::thread_rng();
    for _ in 0..200 {
        let mut bytes = [0u8; 32];
        rng.fill_bytes(&mut bytes);
        let r = FieldElement::from_bytes(&bytes);
        let p = field_mont_point(&r);
        assert_eq!(p, field_mont_point_optimized(&r));
        let a = mont_point_field(&bytes);
        let b = mont_point_field_optimized(&bytes);
        match (a, b) {
            (None, None) => {}
            (Some(x), Some(y)) => {
                assert!(fe_eq(&x[0], &y[0]) && fe_eq(&x[1], &y[1]));
            }
            _ => panic!("the two inverse maps disagree"),
        }
    }
}

#[test]
fn direct_map_matches_dalek_montgomery_curve() {
    // the image of the direct map is a point of the curve: it converts to Edwards with one of the signs
    let mut rng = rand::thread_rng();
    for _ in 0..100 {
        let mut bytes = [0u8; 32];
        rng.fill_bytes(&mut bytes);
        let r = FieldElement::from_bytes(&bytes);
        let p = field_mont_point(&r);
        assert!(p[31] <= 0x7f);
        assert!(MontgomeryPoint(p).to_edwards(0u8).is_some());
    }
}

#[test]
fn enumerate_rejects_an_undecodable_point() {
    // y = 2 is not the y-coordinate of a point of the curve
    let mut bad = [0u8; 32];
    bad[0] = 2;
    assert!(CompressedEdwardsY(bad).decompress().is_none());
    assert!(enumerate_representatives(&bad).is_none());
    assert!(enumerate_representatives_optimized(&bad).is_none());
}

#[test]
fn zero_maps_to_the_two_torsion_point_which_has_no_preimage() {
    let zero = FieldElement::zero();
    let p = field_mont_point(&zero);
    assert_eq!(p, [0u8; 32]);
    assert!(mont_point_field(&p).is_none());
    // -A has no preimage either
    let minus_a = FieldElement::from_small(486662).neg().as_bytes();
    assert!(mont_point_field(&minus_a).is_none());
}

#[test]
fn batch_maps_match_single_maps() {
    let rs: Vec<FieldElement> = (0..20u8).map(|i| FieldElement::from_bytes(&[i; 32])).collect();
    let ps = field_mont_points_batch(&rs);
    assert_eq!(ps.len(), rs.len());
    for (r, p) in rs.iter().zip(ps.iter()) {
        assert_eq!(*p, field_mont_point(r));
    }
    let back = mont_points_field_batch(&ps);
    for (r, b) in rs.iter().zip(back.iter()) {
        let single = round_trip_optimized(r);
        match (b, single) {
            (None, None) => {}
            (Some(x), Some(y)) => assert!(fe_eq(&x[0], &y[0]) && fe_eq(&x[1], &y[1])),
            _ => panic!("batch and single round trips disagree"),
        }
    }
}
