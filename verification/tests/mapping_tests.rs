use blake2::{Blake2s256, Digest};
use curve25519_dalek::edwards::CompressedEdwardsY;
use curve25519_dalek::montgomery::MontgomeryPoint;
use curve25519_dalek::scalar::{clamp_integer, Scalar};
use m2psu::elligator::{enumerate_representatives, field_mont_point_optimized, mont_point_field_optimized};
use m2psu::feistel::FeistelPrp256;
use m2psu::field::FieldElement;
use m2psu::mapping::{hash_to_curve, hash_to_point, hash_to_point_mont, recover_candidate, recover_from_point};
use rand::RngCore;

fn fe_eq(a: &FieldElement, b: &FieldElement) -> bool {
    a.as_bytes() == b.as_bytes()
}

fn inv8() -> Scalar {
    Scalar::from(8u64).invert()
}

fn decompress(c: &[u8; 32]) -> curve25519_dalek::edwards::EdwardsPoint {
    CompressedEdwardsY(*c).decompress().unwrap()
}

#[test]
fn mapping_correctness_test() {
    let bytes = [7u8; 32];
    let r = FieldElement::from_bytes(&bytes);

    let p1 = field_mont_point_optimized(&r);
    let reps = mont_point_field_optimized(&p1);
    if let Some(reps) = reps {
        assert!(reps.iter().any(|x| fe_eq(x, &r) || fe_eq(x, &r.neg())));
    } else {
        panic!("No preimage exists for the given point");
    }

    let e1 = MontgomeryPoint(p1).to_edwards(0u8).unwrap().mul_by_cofactor();
    let e2 = (e1 * inv8()).compress().to_bytes();
    let reps = enumerate_representatives(&e2).unwrap();
    assert!(reps
        .iter()
        .any(|x| CompressedEdwardsY(*x).decompress().unwrap().mul_by_cofactor() == e1));

    let mut found = false;
    for i in 0..8 {
        let m = CompressedEdwardsY(reps[i]).decompress().unwrap().to_montgomery();
        match mont_point_field_optimized(&m.to_bytes()) {
            None => continue,
            Some(pair) => {
                if fe_eq(&pair[0], &r)
                    || fe_eq(&pair[0], &r.neg())
                    || fe_eq(&pair[1], &r)
                    || fe_eq(&pair[1], &r.neg())
                {
                    found = true;
                }
            }
        }
    }
    assert!(found);

    // scalars and clamped integer multiplication
    let k_8 = [8u8; 32];
    let k = Scalar::from_bytes_mod_order(clamp_integer(k_8)) * Scalar::from(8u64).invert();
    let e2_point = decompress(&e2);
    let e2_ = e2_point * k * k * Scalar::from(8u64);
    let e2_8kk = e2_point.mul_clamped(k_8) * k;
    assert_eq!(e2_8kk, e2_);

    // hash to point and recover
    let item = [235u8; 16];
    let permut = FeistelPrp256::new(&[7u8; 16]);
    let point = decompress(&hash_to_point(&item, &permut).unwrap());
    let point2 = (point.mul_by_cofactor() * inv8()).compress().to_bytes();
    let recovered = recover_from_point(&point2, &permut).unwrap();
    assert_eq!(item, recovered);
}

#[test]
fn hash_to_point_and_recover_many_items() {
    let permut = FeistelPrp256::new(&[3u8; 16]);
    let mut rng = rand::thread_rng();
    for _ in 0..20 {
        let mut item = [0u8; 16];
        rng.fill_bytes(&mut item);
        if let Some(point) = hash_to_point(&item, &permut) {
            let blinded = (decompress(&point).mul_by_cofactor() * inv8()).compress().to_bytes();
            assert_eq!(recover_from_point(&blinded, &permut), Some(item));
        }
    }
}

#[test]
fn recover_from_the_montgomery_point_directly() {
    let permut = FeistelPrp256::new(&[9u8; 16]);
    let item = [42u8; 16];
    let u = hash_to_point_mont(&item, &permut);
    let mut out = [0u8; 16];
    // the u-coordinate of the hashed point itself, without any torsion
    assert!(recover_candidate(&u, &permut, &mut out));
    assert_eq!(out, item);
}

#[test]
fn recover_from_an_undecodable_point_is_none() {
    let permut = FeistelPrp256::new(&[9u8; 16]);
    let mut bad = [0u8; 32];
    bad[0] = 2;
    assert_eq!(recover_from_point(&bad, &permut), None);
}

#[test]
fn hash_to_curve_is_the_elligator_image_of_the_digest() {
    let input = b"some input bytes";
    let digest: [u8; 32] = Blake2s256::digest(input).into();
    let expected = field_mont_point_optimized(&FieldElement::from_bytes(&digest));
    assert_eq!(hash_to_curve(input), expected);
    // deterministic
    assert_eq!(hash_to_curve(input), hash_to_curve(input));
    assert_ne!(hash_to_curve(b"another input"), expected);
}
