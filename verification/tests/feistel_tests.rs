use aes::Aes128;
use cipher::generic_array::GenericArray;
use cipher::{BlockEncrypt, KeyInit};
use m2psu::feistel::FeistelPrp256;
use rand::RngCore;

fn aes(key: &[u8; 16], block: &[u8; 16]) -> [u8; 16] {
    let c = Aes128::new(GenericArray::from_slice(key));
    let mut b = GenericArray::clone_from_slice(block);
    c.encrypt_block(&mut b);
    b.into()
}

/// Three rounds written out with the aes crate.
fn reference_encrypt(master: &[u8; 16], block: &[u8; 32]) -> [u8; 32] {
    let mut keys = [[0u8; 16]; 3];
    for i in 0..3 {
        let mut buf = [0u8; 16];
        buf[0] = (i + 1) as u8;
        keys[i] = aes(master, &buf);
    }
    let mut l = [0u8; 16];
    let mut r = [0u8; 16];
    l.copy_from_slice(&block[..16]);
    r.copy_from_slice(&block[16..]);
    for k in keys.iter() {
        let mut x = [0u8; 16];
        for j in 0..16 {
            x[j] = r[j] ^ k[j];
        }
        let f = aes(k, &x);
        let mut nr = [0u8; 16];
        for j in 0..16 {
            nr[j] = l[j] ^ f[j];
        }
        l = r;
        r = nr;
    }
    let mut out = [0u8; 32];
    out[..16].copy_from_slice(&l);
    out[16..].copy_from_slice(&r);
    out
}

#[test]
fn feistel_round_trip() {
    let prp = FeistelPrp256::new(&[7u8; 16]);
    let mut rng = rand::thread_rng();
    for _ in 0..100 {
        let mut block = [0u8; 32];
        rng.fill_bytes(&mut block);
        let original = block;
        prp.encrypt_block(&mut block);
        assert_ne!(block, original);
        prp.decrypt_block(&mut block);
        assert_eq!(block, original);
        prp.decrypt_block(&mut block);
        prp.encrypt_block(&mut block);
        assert_eq!(block, original);
    }
}

#[test]
fn feistel_matches_reference_rounds() {
    let master = [1u8, 2, 3, 4, 5, 6, 7, 8, 9, 10, 11, 12, 13, 14, 15, 16];
    let prp = FeistelPrp256::new(&master);
    let mut block = [0u8; 32];
    for (i, b) in block.iter_mut().enumerate() {
        *b = i as u8;
    }
    let expected = reference_encrypt(&master, &block);
    prp.encrypt_block(&mut block);
    assert_eq!(block, expected);
}

#[test]
fn feistel_depends_on_key() {
    let a = FeistelPrp256::new(&[1u8; 16]);
    let b = FeistelPrp256::new(&[2u8; 16]);
    let mut x = [5u8; 32];
    let mut y = [5u8; 32];
    a.encrypt_block(&mut x);
    b.encrypt_block(&mut y);
    assert_ne!(x, y);
}
