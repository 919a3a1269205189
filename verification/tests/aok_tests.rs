use curve25519_dalek::edwards::EdwardsPoint;
use curve25519_dalek::scalar::Scalar;
use m2psu::aok::{
    adapted_proof_is_wf, batched_ddh_prove, batched_ddh_verify, commit, commit_determ,
    known_proof_is_wf, parse_power_or_letter, points_valid, prove_shuffle_adapted,
    prove_shuffle_adapted_preprocess, prove_shuffle_known, prove_shuffle_known_preprocess,
    random_permutation, scalar_is_canonical, setup_params, verify_shuffle_adapted,
    verify_shuffle_known, AdaptedShuffleProof, KnownContentProof,
};
use rand::thread_rng;

fn random_scalar() -> Scalar {
    Scalar::random(&mut thread_rng())
}

fn random_point() -> EdwardsPoint {
    EdwardsPoint::mul_base(&random_scalar())
}

#[test]
fn parse_power_of_two() {
    assert_eq!(parse_power_or_letter("2^10"), Ok(1024));
    assert_eq!(parse_power_or_letter("2^0"), Ok(1));
    assert_eq!(parse_power_or_letter("2^31"), Ok(1u32 << 31));
    assert_eq!(parse_power_or_letter("2^ 4 "), Ok(16));
}

#[test]
fn parse_power_errors() {
    assert_eq!(parse_power_or_letter("2^32"), Err("exponent too large for u32"));
    assert_eq!(parse_power_or_letter("2^x"), Err("bad exponent"));
    assert_eq!(parse_power_or_letter("2^"), Err("bad exponent"));
    assert_eq!(parse_power_or_letter("2^-1"), Err("bad exponent"));
}

#[test]
fn parse_decimal_and_hex() {
    assert_eq!(parse_power_or_letter("1000"), Ok(1000));
    assert_eq!(parse_power_or_letter("  42 "), Ok(42));
    assert_eq!(parse_power_or_letter("0x10"), Ok(16));
    assert_eq!(parse_power_or_letter("0xff"), Ok(255));
    assert_eq!(parse_power_or_letter(" 0xFF "), Ok(255));
    assert_eq!(parse_power_or_letter("+7"), Ok(7));
    assert_eq!(parse_power_or_letter("4294967295"), Ok(u32::MAX));
}

#[test]
fn parse_invalid_integers() {
    assert_eq!(parse_power_or_letter(""), Err("not a valid integer"));
    assert_eq!(parse_power_or_letter("abc"), Err("not a valid integer"));
    assert_eq!(parse_power_or_letter("4294967296"), Err("not a valid integer"));
    assert_eq!(parse_power_or_letter("0x"), Err("not a valid integer"));
    assert_eq!(parse_power_or_letter("0xg1"), Err("not a valid integer"));
    assert_eq!(parse_power_or_letter("-5"), Err("not a valid integer"));
    assert_eq!(parse_power_or_letter("N"), Err("not a valid integer"));
}

#[test]
fn random_permutation_is_a_bijection_with_its_inverse() {
    for n in [0usize, 1, 2, 5, 64] {
        let (perm, inv) = random_permutation(n);
        assert_eq!(perm.len(), n);
        assert_eq!(inv.len(), n);
        let mut seen = vec![false; n];
        for i in 0..n {
            assert!(perm[i] < n);
            assert!(!seen[perm[i]]);
            seen[perm[i]] = true;
            assert_eq!(inv[perm[i]], i);
            assert_eq!(perm[inv[i]], i);
        }
    }
}

#[test]
fn commitments_match_dalek() {
    let n = 4;
    let pp = setup_params(n);
    assert_eq!(pp.len(), n);
    assert!(points_valid(pp.generators()));
    let m: Vec<Scalar> = (0..n).map(|_| random_scalar()).collect();
    let r = random_scalar();
    let mb: Vec<[u8; 32]> = m.iter().map(|s| s.to_bytes()).collect();
    let c = commit(&pp, &mb, &r.to_bytes());
    let gens: Vec<EdwardsPoint> = pp
        .generators()
        .iter()
        .map(|g| curve25519_dalek::edwards::CompressedEdwardsY(*g).decompress().unwrap())
        .collect();
    let mut expected = EdwardsPoint::mul_base(&r);
    for (mi, gi) in m.iter().zip(gens.iter()) {
        expected += gi * mi;
    }
    assert_eq!(c, expected.compress().to_bytes());
    let cd = commit_determ(&pp, &mb);
    assert_eq!(cd, (expected - EdwardsPoint::mul_base(&r)).compress().to_bytes());
}

#[test]
fn shuffle_known_content_test() {
    let n = 16;
    let pp = setup_params(n);
    let m: Vec<[u8; 32]> = (0..n).map(|_| random_scalar().to_bytes()).collect();
    let (pi, _) = random_permutation(n);
    let r = random_scalar().to_bytes();
    let m_shuffled: Vec<[u8; 32]> = pi.iter().map(|&i| m[i]).collect();
    let c = commit(&pp, &m_shuffled, &r);
    let hint = prove_shuffle_known_preprocess(&pp, n);
    let proof: KnownContentProof = prove_shuffle_known(&pp, &hint, &m, &c, &pi, &r);
    assert!(known_proof_is_wf(&proof, n));
    assert!(verify_shuffle_known(&pp, &m, &c, &proof), "Valid proof should verify");

    // tamper: add one to the first response
    let mut proof_bad = proof.clone();
    let f0 = Scalar::from_bytes_mod_order(proof_bad.f[0]) + Scalar::ONE;
    proof_bad.f[0] = f0.to_bytes();
    assert!(!verify_shuffle_known(&pp, &m, &c, &proof_bad), "Tampered proof should fail");
}

#[test]
fn shuffle_known_content_rejects_other_commitment() {
    let n = 8;
    let pp = setup_params(n);
    let m: Vec<[u8; 32]> = (0..n).map(|_| random_scalar().to_bytes()).collect();
    let (pi, _) = random_permutation(n);
    let r = random_scalar().to_bytes();
    let m_shuffled: Vec<[u8; 32]> = pi.iter().map(|&i| m[i]).collect();
    let c = commit(&pp, &m_shuffled, &r);
    let hint = prove_shuffle_known_preprocess(&pp, n);
    let proof = prove_shuffle_known(&pp, &hint, &m, &c, &pi, &r);
    let other = commit(&pp, &m, &random_scalar().to_bytes());
    assert!(!verify_shuffle_known(&pp, &m, &other, &proof));
}

fn adapted_instance(n: usize) -> (
    m2psu::aok::PublicParams,
    [u8; 32],
    Vec<[u8; 32]>,
    Vec<[u8; 32]>,
    AdaptedShuffleProof,
) {
    let pp = setup_params(n);
    let m: Vec<EdwardsPoint> = (0..n).map(|_| random_point()).collect();
    let (pi, pi_inv) = random_permutation(n);
    let s = random_scalar();
    let pk = EdwardsPoint::mul_base(&s).compress().to_bytes();
    let m_shuffled: Vec<EdwardsPoint> = pi_inv.iter().map(|&i| m[i] * s).collect();
    let m2: Vec<[u8; 32]> = m.iter().map(|p| p.compress().to_bytes()).collect();
    let m_shuffled2: Vec<[u8; 32]> = m_shuffled.iter().map(|p| p.compress().to_bytes()).collect();
    let hint = prove_shuffle_adapted_preprocess(&pp, &pi, n);
    let proof = prove_shuffle_adapted(&pp, &pk, &hint, &m2, &m_shuffled2, &s.to_bytes(), &pi);
    (pp, pk, m2, m_shuffled2, proof)
}

#[test]
fn test_adapted_shuffle() {
    let n = 16;
    let (pp, pk, m2, m_shuffled2, proof) = adapted_instance(n);
    assert!(adapted_proof_is_wf(&proof, n));
    let result = verify_shuffle_adapted(&pp, &pk, &m2, &m_shuffled2, &proof);
    assert!(result, "Valid proof should verify");
}

#[test]
fn adapted_shuffle_rejects_wrong_points() {
    let n = 8;
    let (pp, pk, m2, mut m_shuffled2, proof) = adapted_instance(n);
    m_shuffled2[0] = random_point().compress().to_bytes();
    assert!(!verify_shuffle_adapted(&pp, &pk, &m2, &m_shuffled2, &proof));
}

#[test]
fn adapted_shuffle_rejects_other_key() {
    let n = 8;
    let (pp, _pk, m2, m_shuffled2, proof) = adapted_instance(n);
    let other_pk = random_point().compress().to_bytes();
    assert!(!verify_shuffle_adapted(&pp, &other_pk, &m2, &m_shuffled2, &proof));
}

#[test]
fn test_batched_ddh() {
    let n = 16;
    let s = random_scalar();
    let pk = EdwardsPoint::mul_base(&s);
    let g: Vec<EdwardsPoint> = (0..n).map(|_| random_point()).collect();
    let h: Vec<EdwardsPoint> = g.iter().map(|gi| gi * s).collect();
    let g2: Vec<[u8; 32]> = g.iter().map(|p| p.compress().to_bytes()).collect();
    let h2: Vec<[u8; 32]> = h.iter().map(|p| p.compress().to_bytes()).collect();
    let pk2 = pk.compress().to_bytes();
    let proof = batched_ddh_prove(&pk2, &g2, &h2, &s.to_bytes());
    assert!(batched_ddh_verify(&pk2, &g2, &h2, &proof), "Valid proof should verify");

    let mut h_bad = h2.clone();
    h_bad.swap(0, 1);
    assert!(!batched_ddh_verify(&pk2, &g2, &h_bad, &proof));
    let mut proof_bad = proof.clone();
    proof_bad.z = (Scalar::from_bytes_mod_order(proof.z) + Scalar::ONE).to_bytes();
    assert!(!batched_ddh_verify(&pk2, &g2, &h2, &proof_bad));
}

#[test]
fn scalar_canonical_check() {
    assert!(scalar_is_canonical(&Scalar::from(5u64).to_bytes()));
    assert!(scalar_is_canonical(&[0u8; 32]));
    assert!(!scalar_is_canonical(&[0xffu8; 32]));
    // l itself is not canonical
    let l_bytes: [u8; 32] = [
        0xed, 0xd3, 0xf5, 0x5c, 0x1a, 0x63, 0x12, 0x58, 0xd6, 0x9c, 0xf7, 0xa2, 0xde, 0xf9, 0xde,
        0x14, 0, 0, 0, 0, 0, 0, 0, 0, 0, 0, 0, 0, 0, 0, 0, 0x10,
    ];
    assert!(!scalar_is_canonical(&l_bytes));
}
