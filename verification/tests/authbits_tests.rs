use m2psu::authbits::{openings, xor16, AuthBit, AuthBitGenerator};
use rand::{Rng, RngCore};

fn random_block() -> [u8; 16] {
    let mut b = [0u8; 16];
    rand::thread_rng().fill_bytes(&mut b);
    b
}

/// A correlated transfer run in the clear: the verifier's keys K and the
/// prover's MACs K xor b Delta.
fn correlated_transfer(bits: &[bool], delta: &[u8; 16]) -> (Vec<[u8; 16]>, Vec<[u8; 16]>) {
    let keys: Vec<[u8; 16]> = bits.iter().map(|_| random_block()).collect();
    let macs = bits
        .iter()
        .zip(keys.iter())
        .map(|(b, k)| if *b { xor16(k, delta) } else { *k })
        .collect();
    (macs, keys)
}

fn authenticate_in_clear(pr: &[AuthBit], vr: &[AuthBit], delta: [u8; 16]) -> bool {
    pr.iter()
        .zip(vr)
        .map(|(ab_pr, ab_vr)| {
            ab_pr.mac().unwrap()
                == (if ab_pr.bit().unwrap() {
                    xor16(&ab_vr.key().unwrap(), &delta)
                } else {
                    ab_vr.key().unwrap()
                })
        })
        .reduce(|b1, b2| b1 && b2)
        .unwrap()
}

/// Generates the bits on both sides and opens them; returns both parties'
/// bits, the verifier's verdict and its Delta.
fn run_authentication(bits_in: &[bool]) -> (Vec<AuthBit>, Vec<AuthBit>, bool, [u8; 16]) {
    let prover = AuthBitGenerator::new(false);
    let delta = random_block();
    let verifier = AuthBitGenerator::new_with_delta(Some(delta));
    assert_eq!(verifier.delta(), Some(delta));
    assert_eq!(prover.delta(), None);

    let (macs, keys) = correlated_transfer(bits_in, &delta);
    let mut output_pr: Vec<AuthBit> = vec![];
    let mut output_vr: Vec<AuthBit> = vec![];
    prover.generate(bits_in, &macs, &mut output_pr);
    verifier.generate(&[], &keys, &mut output_vr);

    let sent = openings(&output_pr).unwrap();
    assert_eq!(prover.open(&output_pr, &sent), None);
    let validation = verifier.open(&output_vr, &sent).unwrap();
    (output_pr, output_vr, validation, delta)
}

#[test]
fn test_correct_generation() {
    let count = 10;
    let mut rng = rand::thread_rng();
    let bits_in: Vec<bool> = (0..count).map(|_| rng.gen::<bool>()).collect();
    let (output_pr, output_vr, validation, delta) = run_authentication(&bits_in);

    let validation_clear = authenticate_in_clear(&output_pr, &output_vr, delta);
    assert!(validation);
    assert_eq!(validation, validation_clear);
}

#[test]
fn test_bit_true() {
    let bits_in = vec![true];
    let (output_pr, output_vr, _validation, delta) = run_authentication(&bits_in);
    assert!(output_pr[0].mac().unwrap() == xor16(&output_vr[0].key().unwrap(), &delta))
}

#[test]
fn test_bit_false() {
    let bits_in = vec![false];
    let (output_pr, output_vr, _validation, _delta) = run_authentication(&bits_in);
    assert!(output_pr[0].mac().unwrap() == output_vr[0].key().unwrap())
}

#[test]
fn test_failing_tamper_mac() {
    let count = 10;
    let mut rng = rand::thread_rng();
    let bits: Vec<bool> = (0..count).map(|_| rng.gen::<bool>()).collect();

    let prover = AuthBitGenerator::new(false);
    let verifier = AuthBitGenerator::new(true);
    let delta = verifier.delta().unwrap();
    let (macs, keys) = correlated_transfer(&bits, &delta);
    let mut output_pr: Vec<AuthBit> = vec![];
    let mut output_vr: Vec<AuthBit> = vec![];
    prover.generate(&bits, &macs, &mut output_pr);
    verifier.generate(&[], &keys, &mut output_vr);

    // Mess with the mac
    let mut mac = random_block();
    if mac == output_pr[0].mac().unwrap() {
        mac[0] ^= 1;
    }
    output_pr[0] = AuthBit::Prover { bit: output_pr[0].bit().unwrap(), mac };

    let sent = openings(&output_pr).unwrap();
    let res = verifier.open(&output_vr, &sent).unwrap();
    assert!(!res);
}

#[test]
fn generate_appends_to_what_is_there() {
    let verifier = AuthBitGenerator::new_with_delta(Some([9u8; 16]));
    let mut out = vec![AuthBit::Verifier { key: [1u8; 16] }];
    verifier.generate(&[true, true], &[[2u8; 16], [3u8; 16]], &mut out);
    assert_eq!(out.len(), 3);
    assert_eq!(out[0].key(), Some([1u8; 16]));
    assert_eq!(out[2].key(), Some([3u8; 16]));

    // the prover keeps as many bits as it received MACs
    let prover = AuthBitGenerator::new_with_delta(None);
    let mut out = Vec::new();
    prover.generate(&[true, false, true], &[[4u8; 16], [5u8; 16]], &mut out);
    assert_eq!(out.len(), 2);
    assert_eq!(out[1].bit(), Some(false));
    assert_eq!(out[1].mac(), Some([5u8; 16]));
}
