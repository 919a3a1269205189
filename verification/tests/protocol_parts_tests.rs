use m2psu::authbits::{
    check_openings, openings, prover_auth_bits, verifier_auth_bits, xor16, AuthBit, Opening,
};
use m2psu::channel::{frame_length, frame_message};
use m2psu::f8b::{decompose_superfield, form_superfield, F8b};
use rand::RngCore;

fn random_block() -> [u8; 16] {
    let mut b = [0u8; 16];
    rand::thread_rng().fill_bytes(&mut b);
    b
}

/// Correlated transfer done in the clear: keys K, MACs K xor b Delta.
fn authenticate_in_clear(bits: &[bool], delta: &[u8; 16]) -> (Vec<AuthBit>, Vec<AuthBit>) {
    let keys: Vec<[u8; 16]> = bits.iter().map(|_| random_block()).collect();
    let macs: Vec<[u8; 16]> = bits
        .iter()
        .zip(keys.iter())
        .map(|(b, k)| if *b { xor16(k, delta) } else { *k })
        .collect();
    (prover_auth_bits(bits, &macs), verifier_auth_bits(&keys))
}

#[test]
fn authenticated_bits_open_correctly() {
    let delta = random_block();
    let bits = vec![true, false, true, true, false, false, true, false, true, false];
    let (pr, vr) = authenticate_in_clear(&bits, &delta);
    assert_eq!(pr.len(), 10);
    for (i, ab) in pr.iter().enumerate() {
        assert_eq!(ab.bit(), Some(bits[i]));
        assert!(ab.key().is_none());
    }
    let opened = openings(&pr).unwrap();
    assert!(check_openings(&delta, &vr, &opened));
}

#[test]
fn authenticated_single_bits_true_and_false() {
    let delta = random_block();
    for bit in [true, false] {
        let (pr, vr) = authenticate_in_clear(&[bit], &delta);
        let opened = openings(&pr).unwrap();
        assert_eq!(opened[0].bit, if bit { 1 } else { 0 });
        assert!(check_openings(&delta, &vr, &opened));
    }
}

#[test]
fn tampered_mac_fails_the_check() {
    let delta = random_block();
    let bits = vec![true; 10];
    let (pr, vr) = authenticate_in_clear(&bits, &delta);
    let mut opened = openings(&pr).unwrap();
    opened[3].mac[0] ^= 1;
    assert!(!check_openings(&delta, &vr, &opened));
    // a flipped bit fails too
    let mut opened2 = openings(&pr).unwrap();
    opened2[0] = Opening { bit: 0, mac: opened2[0].mac };
    assert!(!check_openings(&delta, &vr, &opened2));
    // the verifier's parts cannot be opened
    assert!(openings(&vr).is_none());
}

#[test]
fn xor_of_authenticated_bits_stays_authenticated() {
    let delta = random_block();
    let (pr, vr) = authenticate_in_clear(&[true, true, false], &delta);
    let x = pr[0].clone_bit().bitxor(pr[1].clone_bit());
    let y = vr[0].clone_bit().bitxor(vr[1].clone_bit());
    assert_eq!(x.bit(), Some(false));
    let opened = openings(&[x]).unwrap();
    assert!(check_openings(&delta, &[y], &opened));
    let mut z = pr[2].clone_bit();
    z.bitxor_assign(&pr[0]);
    let mut w = vr[2].clone_bit();
    w.bitxor_assign(&vr[0]);
    assert_eq!(z.bit(), Some(true));
    let opened = openings(&[z]).unwrap();
    assert!(check_openings(&delta, &[w], &opened));
}

trait CloneBit {
    fn clone_bit(&self) -> AuthBit;
}

impl CloneBit for AuthBit {
    fn clone_bit(&self) -> AuthBit {
        match self {
            AuthBit::Prover { mac, bit } => AuthBit::Prover { mac: *mac, bit: *bit },
            AuthBit::Verifier { key } => AuthBit::Verifier { key: *key },
        }
    }
}

#[test]
fn superfield_formation_and_decomposition() {
    let bits = [true, false, true, false, false, true, false, true];
    let x = form_superfield(&bits);
    assert_eq!(x, F8b(0b1010_0101));
    assert_eq!(decompose_superfield(&x), bits);
    for v in 0..=255u8 {
        assert_eq!(form_superfield(&decompose_superfield(&F8b(v))), F8b(v));
    }
}

#[test]
fn frames_carry_their_length() {
    let payload = vec![7u8; 300];
    let framed = frame_message(&payload).unwrap();
    assert_eq!(framed.len(), 304);
    assert_eq!(&framed[..4], &[44, 1, 0, 0]);
    assert_eq!(&framed[4..], &payload[..]);
    let mut header = [0u8; 4];
    header.copy_from_slice(&framed[..4]);
    assert_eq!(frame_length(&header), 300);
    assert_eq!(frame_length(&[0xff, 0xff, 0xff, 0xff]), u32::MAX);
    assert_eq!(frame_message(&[]).unwrap(), vec![0, 0, 0, 0]);
}
