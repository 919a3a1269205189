//! Hashing items to curve points and recovering items from points.
//!
//! `hash_to_curve` hashes a bit string with BLAKE2s to a field element and
//! maps it with Elligator-2.  `hash_to_point` pads a 16-byte item with zeros,
//! permutes it with the Feistel PRP, reads it as a field element and maps it;
//! `recover_from_point` runs the inverse map on the eight torsion
//! translates of a point and inverts the permutation, accepting a block
//! whose upper 16 bytes are zero.
use vstd::prelude::*;
use crate::crypto::{blake2s256, spec_blake2s256};
use crate::curve::{
    ed_add_torsion, ed_to_montgomery, ed_valid, mont_to_edwards, spec_ed_add_torsion, spec_ed_to_montgomery,
    spec_ed_valid, spec_mont_to_edwards,
};
use crate::elligator::{
    field_mont_point_optimized, mont_point_field_optimized, spec_elligator_direct,
    spec_elligator_inverse,
};
use crate::feistel::{
    feistel_decrypt, feistel_encrypt, lemma_feistel_decrypt_encrypt, lemma_feistel_encrypt_len,
    FeistelPrp256,
};
use crate::field::{
    bytes_to_field, canonical_bytes, fneg, le_nat, lemma_canonical_bytes_to_field,
    lemma_canonical_bytes_unique, p, FieldElement,
};

verus! {

/// Whether bytes 16..32 of a block are zero.
pub open spec fn high_half_zero(b: Seq<u8>) -> bool {
    forall|i: int| 16 <= i < 32 ==> b[i] == 0
}

/// The block with bit 255 set.
pub open spec fn set_top_bit(b: Seq<u8>) -> Seq<u8> {
    b.update(31, b[31] | 0x80)
}

/// The block with bit 255 cleared.
pub open spec fn clear_top_bit(b: Seq<u8>) -> Seq<u8> {
    b.update(31, b[31] & 0x7f)
}

/// A 16-byte item padded with 16 zero bytes.
pub open spec fn pad_item(item: Seq<u8>) -> Seq<u8> {
    item + Seq::new(16, |i: int| 0u8)
}

/// Decrypting the block, and the block with bit 255 set; the item is the
/// lower half of the first of them whose upper half is zero.
pub open spec fn spec_check_bytes(keys: Seq<Seq<u8>>, b: Seq<u8>) -> Option<Seq<u8>> {
    let d = feistel_decrypt(keys, b);
    let dnc = feistel_decrypt(keys, set_top_bit(b));
    if high_half_zero(d) {
        Some(d.subrange(0, 16))
    } else if high_half_zero(dnc) {
        Some(dnc.subrange(0, 16))
    } else {
        None
    }
}

/// The first success of `spec_check_bytes` on the encodings of r0, -r0, r1, -r1.
pub open spec fn spec_check_item(keys: Seq<Seq<u8>>, r0: nat, r1: nat) -> Option<Seq<u8>> {
    let c0 = spec_check_bytes(keys, canonical_bytes(r0));
    let c1 = spec_check_bytes(keys, canonical_bytes(fneg(r0)));
    let c2 = spec_check_bytes(keys, canonical_bytes(r1));
    let c3 = spec_check_bytes(keys, canonical_bytes(fneg(r1)));
    if c0 is Some {
        c0
    } else if c1 is Some {
        c1
    } else if c2 is Some {
        c2
    } else {
        c3
    }
}

/// The item recovered from one Montgomery u-coordinate, if any.
pub open spec fn spec_recover_candidate(keys: Seq<Seq<u8>>, u: Seq<u8>) -> Option<Seq<u8>> {
    match spec_elligator_inverse(u) {
        None => None,
        Some(pair) => spec_check_item(keys, pair.0, pair.1),
    }
}

/// The Montgomery u-coordinate that `hash_to_curve` gives for a bit string.
pub closed spec fn spec_hash_to_curve(input: Seq<u8>) -> Seq<u8> {
    canonical_bytes(spec_elligator_direct(bytes_to_field(spec_blake2s256(input))))
}

/// The field value that `hash_to_point` maps: the permuted padded item.
pub open spec fn spec_hash_to_point_field(keys: Seq<Seq<u8>>, item: Seq<u8>) -> nat {
    bytes_to_field(feistel_encrypt(keys, pad_item(item)))
}

/// Hash from a bit string to a field element: BLAKE2s-256, read as a field
/// element (bit 255 ignored).
fn hash_to_field(input: &[u8]) -> (r: FieldElement)
    ensures
        r@ == bytes_to_field(spec_blake2s256(input@)),
{
    let arr = blake2s256(input);
    FieldElement::from_bytes(&arr)
}

/// Hash from a bit string to a Montgomery u-coordinate on Curve25519.
pub fn hash_to_curve(input: &[u8]) -> (r: [u8; 32])
    ensures
        r@ == spec_hash_to_curve(input@),
{
    let r = hash_to_field(input);
    field_mont_point_optimized(&r)
}

/// The Montgomery u-coordinate that `hash_to_point` turns into an Edwards
/// point.
pub fn hash_to_point_mont(item: &[u8], permut: &FeistelPrp256) -> (r: [u8; 32])
    requires
        item.len() == 16,
    ensures
        r@ == canonical_bytes(spec_elligator_direct(spec_hash_to_point_field(permut.keys(), item@))),
        le_nat(r@) == spec_elligator_direct(spec_hash_to_point_field(permut.keys(), item@)),
        r[31] <= 0x7f,
{
    let mut padded = [0u8; 32];
    let mut i: usize = 0;
    while i < 16
        invariant
            i <= 16,
            item.len() == 16,
            forall|j: int| 0 <= j < i ==> padded[j] == item[j],
            forall|j: int| 16 <= j < 32 ==> padded[j] == 0,
        decreases 16 - i,
    {
        padded[i] = item[i];
        i = i + 1;
    }
    assert(padded@ =~= pad_item(item@));
    permut.encrypt_block(&mut padded);
    let r = FieldElement::from_bytes(&padded);
    field_mont_point_optimized(&r)
}

/// The Edwards point (compressed) that `hash_to_point` gives for an item.
pub closed spec fn spec_hash_to_point(keys: Seq<Seq<u8>>, item: Seq<u8>) -> Option<Seq<u8>> {
    spec_mont_to_edwards(
        canonical_bytes(spec_elligator_direct(spec_hash_to_point_field(keys, item))),
        0,
    )
}

/// Hash from a 16-byte item to an Edwards point (compressed): the
/// Montgomery point of `hash_to_point_mont` converted with sign 0, or `None`
/// where that conversion fails (the u-coordinate -1 among them).
pub fn hash_to_point(item: &[u8], permut: &FeistelPrp256) -> (r: Option<[u8; 32]>)
    requires
        item.len() == 16,
    ensures
        spec_elligator_direct(spec_hash_to_point_field(permut.keys(), item@)) == (p() - 1) as nat
            ==> r is None,
        match r {
            Some(c) => spec_ed_valid(c@) && spec_hash_to_point(permut.keys(), item@) == Some(c@),
            None => spec_hash_to_point(permut.keys(), item@) is None,
        },
{
    let u = hash_to_point_mont(item, permut);
    proof {
        lemma_canonical_bytes_to_field(u@);
    }
    mont_to_edwards(&u, 0)
}

fn copy_low_half(src: &[u8; 32], result: &mut [u8; 16])
    ensures
        final(result)@ == src@.subrange(0, 16),
{
    let mut i: usize = 0;
    while i < 16
        invariant
            i <= 16,
            forall|j: int| 0 <= j < i ==> result[j] == src[j],
        decreases 16 - i,
    {
        result[i] = src[i];
        i = i + 1;
    }
    assert(result@ =~= src@.subrange(0, 16));
}

fn high_half_is_zero(b: &[u8; 32]) -> (r: bool)
    ensures
        r == high_half_zero(b@),
{
    let mut i: usize = 16;
    while i < 32
        invariant
            16 <= i <= 32,
            forall|j: int| 16 <= j < i ==> b[j] == 0,
        decreases 32 - i,
    {
        if b[i] != 0 {
            return false;
        }
        i = i + 1;
    }
    true
}

/// Decrypts the block (in place) and the block with bit 255 set; on success
/// writes the recovered item to `result`.
fn check_bytes(bytes: &mut [u8; 32], permut: &FeistelPrp256, result: &mut [u8; 16]) -> (r: bool)
    ensures
        final(bytes)@ == feistel_decrypt(permut.keys(), old(bytes)@),
        r == spec_check_bytes(permut.keys(), old(bytes)@) is Some,
        r ==> final(result)@ == spec_check_bytes(permut.keys(), old(bytes)@)->0,
        !r ==> final(result)@ == old(result)@,
{
    let mut bytes_nc = *bytes;
    let top: u8 = bytes_nc[31] | 0x80;
    bytes_nc[31] = top;
    assert(bytes_nc@ == set_top_bit(old(bytes)@));
    permut.decrypt_block(&mut bytes_nc);
    permut.decrypt_block(bytes);
    if high_half_is_zero(bytes) {
        copy_low_half(bytes, result);
        return true;
    } else if high_half_is_zero(&bytes_nc) {
        copy_low_half(&bytes_nc, result);
        return true;
    }
    false
}

/// Tries the encodings of r0, -r0, r1 and -r1, in that order.
fn check_item(
    r0: &FieldElement,
    r1: &FieldElement,
    permut: &FeistelPrp256,
    result: &mut [u8; 16],
) -> (r: bool)
    ensures
        r == spec_check_item(permut.keys(), r0@, r1@) is Some,
        r ==> final(result)@ == spec_check_item(permut.keys(), r0@, r1@)->0,
        !r ==> final(result)@ == old(result)@,
{
    let r0_neg = r0.neg();
    let r1_neg = r1.neg();
    let mut bytes = r0.as_bytes();
    if check_bytes(&mut bytes, permut, result) {
        return true;
    }
    bytes = r0_neg.as_bytes();
    if check_bytes(&mut bytes, permut, result) {
        return true;
    }
    bytes = r1.as_bytes();
    if check_bytes(&mut bytes, permut, result) {
        return true;
    }
    bytes = r1_neg.as_bytes();
    if check_bytes(&mut bytes, permut, result) {
        return true;
    }
    false
}

/// Runs the inverse map on one Montgomery u-coordinate and tries the
/// representatives it gives; on success writes the item to `result`.
pub fn recover_candidate(u: &[u8; 32], permut: &FeistelPrp256, result: &mut [u8; 16]) -> (r: bool)
    ensures
        r == spec_recover_candidate(permut.keys(), u@) is Some,
        r ==> final(result)@ == spec_recover_candidate(permut.keys(), u@)->0,
        !r ==> final(result)@ == old(result)@,
{
    match mont_point_field_optimized(u) {
        None => false,
        Some(pair) => check_item(&pair[0], &pair[1], permut, result),
    }
}

/// A block that `spec_check_bytes` accepts gives a 16-byte item.
proof fn lemma_check_bytes_len(keys: Seq<Seq<u8>>, b: Seq<u8>)
    requires
        b.len() == 32,
    ensures
        spec_check_bytes(keys, b) matches Some(x) ==> x.len() == 16,
{
    crate::feistel::lemma_feistel_decrypt_len(keys, b);
    crate::feistel::lemma_feistel_decrypt_len(keys, set_top_bit(b));
}

/// A recovered candidate is a 16-byte item.
proof fn lemma_check_item_len(keys: Seq<Seq<u8>>, r0: nat, r1: nat)
    ensures
        spec_check_item(keys, r0, r1) matches Some(x) ==> x.len() == 16,
{
    crate::field::lemma_le_bytes_len(r0, 32);
    crate::field::lemma_le_bytes_len(fneg(r0), 32);
    crate::field::lemma_le_bytes_len(r1, 32);
    crate::field::lemma_le_bytes_len(fneg(r1), 32);
    lemma_check_bytes_len(keys, canonical_bytes(r0));
    lemma_check_bytes_len(keys, canonical_bytes(fneg(r0)));
    lemma_check_bytes_len(keys, canonical_bytes(r1));
    lemma_check_bytes_len(keys, canonical_bytes(fneg(r1)));
}

/// What is recovered from a point is a 16-byte item.
pub proof fn lemma_recover_from_len(keys: Seq<Seq<u8>>, point: Seq<u8>, i: nat)
    ensures
        spec_recover_from(keys, point, i).len() == 16,
    decreases 8 - i,
{
    if i < 8 {
        let u = spec_ed_to_montgomery(spec_ed_add_torsion(point, i));
        if let Some(pair) = spec_elligator_inverse(u) {
            lemma_check_item_len(keys, pair.0, pair.1);
        }
        lemma_recover_from_len(keys, point, i + 1);
    }
}

/// The item recovered from the torsion translates i, i+1, ..., 7 of a
/// point: the first candidate that succeeds, or zeros.
pub open spec fn spec_recover_from(keys: Seq<Seq<u8>>, point: Seq<u8>, i: nat) -> Seq<u8>
    decreases 8 - i,
{
    if i >= 8 {
        Seq::new(16, |j: int| 0u8)
    } else {
        match spec_recover_candidate(
            keys,
            spec_ed_to_montgomery(spec_ed_add_torsion(point, i)),
        ) {
            Some(x) => x,
            None => spec_recover_from(keys, point, i + 1),
        }
    }
}

/// Recovers the 16-byte item from an Edwards point (compressed) by trying
/// its eight torsion translates (in the order of `EIGHT_TORSION`); all zeros
/// when none of them gives an item, and `None` when the point does not
/// decompress.
pub fn recover_from_point(point: &[u8; 32], permut: &FeistelPrp256) -> (r: Option<[u8; 16]>)
    ensures
        r is Some <==> spec_ed_valid(point@),
        r matches Some(item) ==> item@ == spec_recover_from(permut.keys(), point@, 0),
{
    if !ed_valid(point) {
        return None;
    }
    let mut item = [0u8; 16];
    assert(item@ =~= Seq::new(16, |i: int| 0u8));
    let mut i: usize = 0;
    while i < 8
        invariant
            i <= 8,
            spec_ed_valid(point@),
            item@ == Seq::new(16, |i: int| 0u8),
            spec_recover_from(permut.keys(), point@, 0) == spec_recover_from(
                permut.keys(),
                point@,
                i as nat,
            ),
        decreases 8 - i,
    {
        let p = ed_add_torsion(point, i);
        let u = ed_to_montgomery(&p);
        if recover_candidate(&u, permut, &mut item) {
            return Some(item);
        }
        i = i + 1;
    }
    Some(item)
}

/// Recovery inverts hashing at the level of field elements: for a 16-byte
/// item x, let c be the permuted padded item and r the field value read from
/// it.  When c without bit 255 is canonical (below p), the encoding of r
/// gives back x, unless bit 255 of c was set and the decryption of c with
/// that bit cleared happens to end in 16 zero bytes.
pub proof fn lemma_check_bytes_recovers_item(permut: FeistelPrp256, item: Seq<u8>)
    requires
        item.len() == 16,
        le_nat(clear_top_bit(feistel_encrypt(permut.keys(), pad_item(item)))) < p(),
        feistel_encrypt(permut.keys(), pad_item(item))[31] >= 0x80 ==> !high_half_zero(
            feistel_decrypt(
                permut.keys(),
                clear_top_bit(feistel_encrypt(permut.keys(), pad_item(item))),
            ),
        ),
    ensures
        spec_check_bytes(
            permut.keys(),
            canonical_bytes(spec_hash_to_point_field(permut.keys(), item)),
        ) == Some(item),
{
    let keys = permut.keys();
    let padded = pad_item(item);
    let c = feistel_encrypt(keys, padded);
    let cm = clear_top_bit(c);
    let x = spec_hash_to_point_field(keys, item);
    lemma_feistel_encrypt_len(keys, padded);
    assert(c.len() == 32);
    assert(cm.len() == 32);
    let top: u8 = c[31];
    assert(top & 0x7f <= 0x7f) by (bit_vector);
    lemma_canonical_bytes_to_field(cm);
    assert(clear_top_bit(cm) =~= cm) by {
        assert((top & 0x7f) & 0x7f == top & 0x7f) by (bit_vector);
    }
    assert(x == le_nat(cm));
    lemma_canonical_bytes_unique(cm, x);
    lemma_feistel_decrypt_encrypt(keys, padded);
    assert(padded.subrange(0, 16) =~= item);
    if top < 0x80 {
        assert(top & 0x7f == top) by (bit_vector)
            requires
                top < 0x80,
        ;
        assert(cm =~= c);
    } else {
        assert((top & 0x7f) | 0x80 == top) by (bit_vector)
            requires
                top >= 0x80,
        ;
        assert(set_top_bit(cm) =~= c);
    }
}

} // verus!
