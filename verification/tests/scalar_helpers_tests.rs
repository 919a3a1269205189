use curve25519_dalek::scalar::{clamp_integer as dalek_clamp, Scalar};
use m2psu::onesided::{bytes32_eq, clamp_integer, mark_common_points, secret_of_clamped};
use rand::RngCore;

#[test]
fn clamping_matches_dalek() {
    let mut rng = rand::thread_rng();
    for _ in 0..50 {
        let mut raw = [0u8; 32];
        rng.fill_bytes(&mut raw);
        assert_eq!(clamp_integer(raw), dalek_clamp(raw));
    }
    let c = clamp_integer([0xffu8; 32]);
    assert_eq!(c[0], 0xf8);
    assert_eq!(c[31], 0x7f);
    let c = clamp_integer([0u8; 32]);
    assert_eq!(c[31], 0x40);
}

#[test]
fn secret_of_clamped_is_an_eighth_of_the_clamped_integer() {
    let mut rng = rand::thread_rng();
    for _ in 0..20 {
        let mut raw = [0u8; 32];
        rng.fill_bytes(&mut raw);
        let sk_8 = dalek_clamp(raw);
        let sk = secret_of_clamped(&sk_8);
        let expected = Scalar::from_bytes_mod_order(sk_8) * Scalar::from(8u64).invert();
        assert_eq!(sk, expected.to_bytes());
        // 8 sk = sk_8 modulo l
        assert_eq!(
            (Scalar::from_bytes_mod_order(sk) * Scalar::from(8u64)).to_bytes(),
            Scalar::from_bytes_mod_order(sk_8).to_bytes()
        );
        assert_ne!(sk, sk_8);
    }
}

#[test]
fn point_comparisons() {
    let a = [1u8; 32];
    let mut b = [1u8; 32];
    assert!(bytes32_eq(&a, &b));
    b[31] = 2;
    assert!(!bytes32_eq(&a, &b));
    // u-coordinates compare as field values: u and u + p are the same point
    let mut u = [0u8; 32];
    u[0] = 5;
    let mut u_plus_p = [0xffu8; 32];
    u_plus_p[0] = 0xed + 5;
    u_plus_p[31] = 0x7f;
    let marks = mark_common_points(&[u, [9u8; 32], [3u8; 32]], &[[3u8; 32], u_plus_p]);
    assert_eq!(marks, vec![true, false, true]);
}
