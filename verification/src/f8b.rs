//! The finite field GF(2^8) reduced over x^8 + x^4 + x^3 + x + 1.
use vstd::prelude::*;
use crate::random::random_bytes16;
use vstd::arithmetic::power2::pow2;

verus! {

/// Multiplication by x modulo x^8 + x^4 + x^3 + x + 1.
pub open spec fn xtime(a: u8) -> u8 {
    if a & 0x80 != 0 {
        ((a << 1u8) ^ 0x1b) as u8
    } else {
        (a << 1u8) as u8
    }
}

/// Field multiplication: the sum of a x^i over the set bits i of b.
pub open spec fn gf_mul(a: u8, b: u8) -> u8 {
    let a1 = xtime(a);
    let a2 = xtime(a1);
    let a3 = xtime(a2);
    let a4 = xtime(a3);
    let a5 = xtime(a4);
    let a6 = xtime(a5);
    let a7 = xtime(a6);
    (if b & 0x01 != 0 { a } else { 0u8 }) ^ (if b & 0x02 != 0 { a1 } else { 0u8 }) ^ (if b & 0x04
        != 0 {
        a2
    } else {
        0u8
    }) ^ (if b & 0x08 != 0 { a3 } else { 0u8 }) ^ (if b & 0x10 != 0 { a4 } else { 0u8 }) ^ (if b
        & 0x20 != 0 {
        a5
    } else {
        0u8
    }) ^ (if b & 0x40 != 0 { a6 } else { 0u8 }) ^ (if b & 0x80 != 0 { a7 } else { 0u8 })
}

/// Carry-less (GF(2)[x]) product of two bytes.
pub open spec fn clmul8(a: u8, b: u8) -> u16 {
    let w = a as u16;
    (if b & 0x01 != 0 { w } else { 0u16 }) ^ (if b & 0x02 != 0 { (w << 1u16) as u16 } else { 0u16 })
        ^ (if b & 0x04 != 0 { (w << 2u16) as u16 } else { 0u16 }) ^ (if b & 0x08 != 0 {
        (w << 3u16) as u16
    } else {
        0u16
    }) ^ (if b & 0x10 != 0 { (w << 4u16) as u16 } else { 0u16 }) ^ (if b & 0x20 != 0 {
        (w << 5u16) as u16
    } else {
        0u16
    }) ^ (if b & 0x40 != 0 { (w << 6u16) as u16 } else { 0u16 }) ^ (if b & 0x80 != 0 {
        (w << 7u16) as u16
    } else {
        0u16
    })
}

/// The reduction of a 15-bit carry-less product modulo x^8 + x^4 + x^3 + x + 1.
pub open spec fn reduce15(w: u16) -> u16 {
    w & 0b0000000011111111 ^ (w >> 4u16) & 0b000011110000 ^ (w >> 5u16) & 0b00011111000 ^ (w
        >> 7u16) & 0b011111110 ^ (w >> 8u16) & 0b00001111 ^ (w >> 9u16) & 0b0001000 ^ (w >> 10u16)
        & 0b111000 ^ (w >> 11u16) & 0b01110 ^ (w >> 12u16) & 0b1001 ^ (w >> 13u16) & 0b111 ^ (w
        >> 14u16) & 0b10 ^ (w >> 15u16) & 0b1
}

/// a^e in the field (a^0 = 1).
pub open spec fn gf_pow(a: u8, e: nat) -> u8
    decreases e,
{
    if e == 0 {
        1
    } else {
        gf_mul(gf_pow(a, (e - 1) as nat), a)
    }
}


/// Multiplication is commutative.
pub proof fn lemma_gf_mul_commutative(a: u8, b: u8)
    ensures
        gf_mul(a, b) == gf_mul(b, a),
{
    assert(clmul8(a, b) == clmul8(b, a)) by (bit_vector);
    lemma_reduce_clmul(a, b);
    lemma_reduce_clmul(b, a);
}

/// Multiplication distributes over addition (XOR).
pub proof fn lemma_gf_mul_distributive(a: u8, b: u8, c: u8)
    ensures
        gf_mul(a, b ^ c) == gf_mul(a, b) ^ gf_mul(a, c),
{
    assert(gf_mul(a, b ^ c) == gf_mul(a, b) ^ gf_mul(a, c)) by (bit_vector);
}

/// 1 is the multiplicative identity.
pub proof fn lemma_gf_mul_one(a: u8)
    ensures
        gf_mul(a, 1) == a,
{
    assert(gf_mul(a, 1) == a) by (bit_vector);
}

/// 0 absorbs multiplication.
proof fn lemma_gf_mul_zero(a: u8)
    ensures
        gf_mul(a, 0) == 0,
{
    assert(gf_mul(a, 0) == 0) by (bit_vector);
}

/// Multiplying by x before or after a product gives the same.
proof fn lemma_gf_mul_xtime(a: u8, b: u8)
    ensures
        gf_mul(xtime(a), b) == xtime(gf_mul(a, b)),
{
    assert(gf_mul(xtime(a), b) == xtime(gf_mul(a, b))) by (bit_vector);
}

proof fn lemma_xtime_right(a: u8, b: u8)
    ensures
        xtime(gf_mul(a, b)) == gf_mul(a, xtime(b)),
{
    lemma_gf_mul_commutative(a, b);
    lemma_gf_mul_xtime(b, a);
    lemma_gf_mul_commutative(xtime(b), a);
}

/// Multiplication is associative.
pub proof fn lemma_gf_mul_associative(a: u8, b: u8, c: u8)
    ensures
        gf_mul(gf_mul(a, b), c) == gf_mul(a, gf_mul(b, c)),
{
    let b1 = xtime(b);
    let b2 = xtime(b1);
    let b3 = xtime(b2);
    let b4 = xtime(b3);
    let b5 = xtime(b4);
    let b6 = xtime(b5);
    let b7 = xtime(b6);
    // x^i (a b) = a (x^i b)
    lemma_xtime_right(a, b);
    lemma_xtime_right(a, b1);
    lemma_xtime_right(a, b2);
    lemma_xtime_right(a, b3);
    lemma_xtime_right(a, b4);
    lemma_xtime_right(a, b5);
    lemma_xtime_right(a, b6);
    lemma_gf_mul_zero(a);
    let y0 = if c & 0x01 != 0 { b } else { 0u8 };
    let y1 = if c & 0x02 != 0 { b1 } else { 0u8 };
    let y2 = if c & 0x04 != 0 { b2 } else { 0u8 };
    let y3 = if c & 0x08 != 0 { b3 } else { 0u8 };
    let y4 = if c & 0x10 != 0 { b4 } else { 0u8 };
    let y5 = if c & 0x20 != 0 { b5 } else { 0u8 };
    let y6 = if c & 0x40 != 0 { b6 } else { 0u8 };
    let y7 = if c & 0x80 != 0 { b7 } else { 0u8 };
    // a (y0 + ... + y7) = a y0 + ... + a y7
    lemma_gf_mul_distributive(a, y0, y1);
    lemma_gf_mul_distributive(a, y0 ^ y1, y2);
    lemma_gf_mul_distributive(a, y0 ^ y1 ^ y2, y3);
    lemma_gf_mul_distributive(a, y0 ^ y1 ^ y2 ^ y3, y4);
    lemma_gf_mul_distributive(a, y0 ^ y1 ^ y2 ^ y3 ^ y4, y5);
    lemma_gf_mul_distributive(a, y0 ^ y1 ^ y2 ^ y3 ^ y4 ^ y5, y6);
    lemma_gf_mul_distributive(a, y0 ^ y1 ^ y2 ^ y3 ^ y4 ^ y5 ^ y6, y7);
    assert(gf_mul(b, c) == y0 ^ y1 ^ y2 ^ y3 ^ y4 ^ y5 ^ y6 ^ y7);
}

/// An element of GF(2^8) reduced over x^8 + x^4 + x^3 + x + 1.
#[derive(Clone, Copy, PartialEq, Eq, Structural, Debug, Hash)]
pub struct F8b(pub u8);

fn clmul(a: u8, b: u8) -> (r: u16)
    ensures
        r == clmul8(a, b),
{
    let w = a as u16;
    (if b & 0x01 != 0 { w } else { 0u16 }) ^ (if b & 0x02 != 0 { w << 1u16 } else { 0u16 }) ^ (if b
        & 0x04 != 0 {
        w << 2u16
    } else {
        0u16
    }) ^ (if b & 0x08 != 0 { w << 3u16 } else { 0u16 }) ^ (if b & 0x10 != 0 {
        w << 4u16
    } else {
        0u16
    }) ^ (if b & 0x20 != 0 { w << 5u16 } else { 0u16 }) ^ (if b & 0x40 != 0 {
        w << 6u16
    } else {
        0u16
    }) ^ (if b & 0x80 != 0 { w << 7u16 } else { 0u16 })
}

/// The reduced carry-less product is the field product.
proof fn lemma_reduce_clmul(a: u8, b: u8)
    ensures
        reduce15(clmul8(a, b)) == gf_mul(a, b) as u16,
{
    assert(reduce15(clmul8(a, b)) == gf_mul(a, b) as u16) by (bit_vector);
}

impl F8b {
    /// The additive identity.
    pub fn zero() -> (r: F8b)
        ensures
            r.0 == 0,
    {
        F8b(0)
    }

    /// The multiplicative identity.
    pub fn one() -> (r: F8b)
        ensures
            r.0 == 1,
    {
        F8b(1)
    }

    /// The generator x^4 + x + 1.
    pub fn generator() -> (r: F8b)
        ensures
            r.0 == 0b10011,
    {
        F8b(0b10011)
    }

    /// Equality of elements.
    pub fn ct_eq(&self, other: &F8b) -> (r: bool)
        ensures
            r == (self.0 == other.0),
    {
        self.0 == other.0
    }

    /// `b` when `choice` holds, else `a`.
    pub fn conditional_select(a: &F8b, b: &F8b, choice: bool) -> (r: F8b)
        ensures
            r == (if choice {
                *b
            } else {
                *a
            }),
    {
        if choice {
            *b
        } else {
            *a
        }
    }

    /// Addition (XOR of the coefficient bits).
    pub fn add_assign(&mut self, rhs: &F8b)
        ensures
            final(self).0 == old(self).0 ^ rhs.0,
    {
        self.0 = self.0 ^ rhs.0;
    }

    /// Subtraction, which in characteristic 2 is addition.
    pub fn sub_assign(&mut self, rhs: &F8b)
        ensures
            final(self).0 == old(self).0 ^ rhs.0,
    {
        self.add_assign(rhs);
    }

    /// Multiplication: a carry-less product reduced modulo the field polynomial.
    pub fn mul_assign(&mut self, rhs: &F8b)
        ensures
            final(self).0 == gf_mul(old(self).0, rhs.0),
    {
        let wide_product = clmul(self.0, rhs.0);
        let w = wide_product;
        let reduced_product: u16 = w & 0b0000000011111111 ^ (w >> 4u16) & 0b000011110000 ^ (w >> 5u16)
            & 0b00011111000 ^ (w >> 7u16) & 0b011111110 ^ (w >> 8u16) & 0b00001111 ^ (w >> 9u16)
            & 0b0001000 ^ (w >> 10u16) & 0b111000 ^ (w >> 11u16) & 0b01110 ^ (w >> 12u16) & 0b1001
            ^ (w >> 13u16) & 0b111 ^ (w >> 14u16) & 0b10 ^ (w >> 15u16) & 0b1;
        proof {
            lemma_reduce_clmul(old(self).0, rhs.0);
            assert(reduced_product == reduce15(w));
        }
        self.0 = reduced_product as u8;
    }

    /// The product of two elements.
    pub fn mul(&self, rhs: &F8b) -> (r: F8b)
        ensures
            r.0 == gf_mul(self.0, rhs.0),
    {
        let mut r = *self;
        r.mul_assign(rhs);
        r
    }

    /// The element of a one-byte encoding.
    pub fn from_bytes(bytes: &[u8; 1]) -> (r: F8b)
        ensures
            r.0 == bytes[0],
    {
        F8b(bytes[0])
    }

    /// The one-byte encoding.
    pub fn to_bytes(&self) -> (r: [u8; 1])
        ensures
            r[0] == self.0,
    {
        [self.0]
    }

    /// The element given by the first of 16 uniform bytes.
    pub fn from_uniform_bytes(x: &[u8; 16]) -> (r: F8b)
        ensures
            r.0 == x[0],
    {
        F8b(x[0])
    }

    /// A uniformly random element (the first of 16 random bytes).
    pub fn random() -> (r: F8b) {
        let x = random_bytes16();
        F8b(x[0])
    }

    /// The coefficient bits, least significant first.
    pub fn bit_decomposition(&self) -> (r: [bool; 8])
        ensures
            forall|i: int| 0 <= i < 8 ==> r[i] == ((self.0 >> (i as u8)) & 1 == 1),
    {
        let mut bits = [false; 8];
        let mut i: u8 = 0;
        while i < 8
            invariant
                i <= 8,
                forall|j: int| 0 <= j < i ==> bits[j] == ((self.0 >> (j as u8)) & 1 == 1),
            decreases 8 - i,
        {
            bits[i as usize] = (self.0 >> i) & 1 == 1;
            i = i + 1;
        }
        bits
    }

    /// a^e by repeated multiplication.
    pub fn pow_var_time(&self, e: u64) -> (r: F8b)
        ensures
            r.0 == gf_pow(self.0, e as nat),
    {
        let mut acc = F8b(1);
        let mut i: u64 = 0;
        while i < e
            invariant
                i <= e,
                acc.0 == gf_pow(self.0, i as nat),
            decreases e - i,
        {
            acc = acc.mul(self);
            i = i + 1;
        }
        acc
    }

    /// The multiplicative inverse a^(2^8 - 2) of a nonzero element.
    pub fn inverse(&self) -> (r: F8b)
        requires
            self.0 != 0,
        ensures
            r.0 == gf_pow(self.0, 254),
            gf_mul(self.0, r.0) == 1,
    {
        proof {
            lemma_gf_inverse(self.0);
        }
        self.pow_var_time(254)
    }
}

/// The value of the bits c[k..8], c[k] least significant.
pub open spec fn bits_value(c: Seq<bool>, k: int) -> nat
    decreases 8 - k,
{
    if k >= 8 {
        0
    } else {
        (if c[k] { 1nat } else { 0nat }) + 2 * bits_value(c, k + 1)
    }
}

proof fn lemma_bits_value_bound(c: Seq<bool>, k: int)
    requires
        0 <= k <= 8,
    ensures
        bits_value(c, k) < pow2((8 - k) as nat),
    decreases 8 - k,
{
    if k < 8 {
        lemma_bits_value_bound(c, k + 1);
        vstd::arithmetic::power2::lemma_pow2_unfold((8 - k) as nat);
    } else {
        vstd::arithmetic::power2::lemma2_to64();
    }
}

/// F2 components (bits, least significant first) formed into an element of GF(2^8).
pub fn form_superfield(components: &[bool; 8]) -> (r: F8b)
    ensures
        r.0 == bits_value(components@, 0),
{
    let mut out: u8 = 0;
    let mut i: usize = 8;
    while i > 0
        invariant
            i <= 8,
            out == bits_value(components@, i as int),
        decreases i,
    {
        proof {
            lemma_bits_value_bound(components@, i as int);
            lemma_bits_value_bound(components@, i - 1);
            vstd::arithmetic::power2::lemma2_to64();
        }
        i = i - 1;
        out = out * 2 + if components[i] { 1u8 } else { 0u8 };
    }
    F8b(out)
}

/// The F2 components (bits, least significant first) of an element of GF(2^8).
pub fn decompose_superfield(fe: &F8b) -> (r: [bool; 8])
    ensures
        forall|i: int| 0 <= i < 8 ==> r[i] == ((fe.0 >> (i as u8)) & 1 == 1),
{
    fe.bit_decomposition()
}

proof fn lemma_bits_value_div(c: Seq<bool>, i: int)
    requires
        0 <= i <= 8,
    ensures
        bits_value(c, 0) / pow2(i as nat) == bits_value(c, i),
    decreases i,
{
    if i == 0 {
        vstd::arithmetic::power2::lemma2_to64();
        assert(bits_value(c, 0) / 1 == bits_value(c, 0));
    } else {
        lemma_bits_value_div(c, i - 1);
        vstd::arithmetic::power2::lemma_pow2_unfold(i as nat);
        vstd::arithmetic::power2::lemma_pow2_pos((i - 1) as nat);
        vstd::arithmetic::div_mod::lemma_div_denominator(
            bits_value(c, 0) as int,
            pow2((i - 1) as nat) as int,
            2,
        );
        assert(pow2((i - 1) as nat) * 2 == pow2(i as nat)) by (nonlinear_arith)
            requires
                pow2(i as nat) == 2 * pow2((i - 1) as nat),
        ;
        let b: nat = if c[i - 1] { 1 } else { 0 };
        let v = bits_value(c, i);
        assert(bits_value(c, i - 1) == b + 2 * v);
        assert((b + 2 * v) / 2 == v) by (nonlinear_arith)
            requires
                b <= 1,
        ;
        let x = bits_value(c, 0) as int;
        let d = pow2((i - 1) as nat) as int;
        assert(x / d == bits_value(c, i - 1));
        assert((x / d) / 2 == x / (d * 2));
        assert(x / (d * 2) == x / (pow2(i as nat) as int));
        assert(bits_value(c, i - 1) / 2 == v);
    }
}

/// Law: decomposing the element formed from F2 components gives back the
/// components.
pub proof fn lemma_form_then_decompose(c: Seq<bool>, x: u8)
    requires
        c.len() == 8,
        x == bits_value(c, 0),
    ensures
        forall|i: int| 0 <= i < 8 ==> ((x >> (i as u8)) & 1 == 1) == c[i],
{
    assert forall|i: int| 0 <= i < 8 implies ((x >> (i as u8)) & 1 == 1) == c[i] by {
        vstd::bits::lemma_u8_shr_is_div(x, i as u8);
        lemma_bits_value_div(c, i);
        let y: u8 = x >> (i as u8);
        assert((y & 1 == 1) == (y % 2 == 1)) by (bit_vector);
    }
}


/// a^(m + n) = a^m a^n.
pub proof fn lemma_gf_pow_add(a: u8, m: nat, n: nat)
    ensures
        gf_pow(a, m + n) == gf_mul(gf_pow(a, m), gf_pow(a, n)),
    decreases n,
{
    if n == 0 {
        lemma_gf_mul_one(gf_pow(a, m));
    } else {
        lemma_gf_pow_add(a, m, (n - 1) as nat);
        lemma_gf_mul_associative(gf_pow(a, m), gf_pow(a, (n - 1) as nat), a);
        assert(gf_pow(a, m + n) == gf_mul(gf_pow(a, (m + n - 1) as nat), a));
    }
}

/// A nonzero element times a^(2^8 - 2) is 1: a^(2^8 - 2) is its inverse.
#[verifier::rlimit(100)]
pub proof fn lemma_gf_inverse(a: u8)
    requires
        a != 0,
    ensures
        gf_mul(a, gf_pow(a, 254)) == 1,
{
    assert(gf_pow(a, 1) == a) by {
        assert(gf_pow(a, 0) == 1);
        lemma_gf_mul_commutative(1, a);
        lemma_gf_mul_one(a);
    }
    lemma_gf_pow_add(a, 1, 1);
    lemma_gf_pow_add(a, 3, 3);
    lemma_gf_pow_add(a, 7, 7);
    lemma_gf_pow_add(a, 15, 15);
    lemma_gf_pow_add(a, 31, 31);
    lemma_gf_pow_add(a, 63, 63);
    lemma_gf_pow_add(a, 127, 127);
    let p2 = gf_pow(a, 2);
    let p3 = gf_pow(a, 3);
    let p6 = gf_pow(a, 6);
    let p7 = gf_pow(a, 7);
    let p14 = gf_pow(a, 14);
    let p15 = gf_pow(a, 15);
    let p30 = gf_pow(a, 30);
    let p31 = gf_pow(a, 31);
    let p62 = gf_pow(a, 62);
    let p63 = gf_pow(a, 63);
    let p126 = gf_pow(a, 126);
    let p127 = gf_pow(a, 127);
    let p254 = gf_pow(a, 254);
    assert(gf_mul(a, p254) == 1) by (bit_vector)
        requires
            a != 0,
            p2 == gf_mul(a, a),
            p3 == gf_mul(p2, a),
            p6 == gf_mul(p3, p3),
            p7 == gf_mul(p6, a),
            p14 == gf_mul(p7, p7),
            p15 == gf_mul(p14, a),
            p30 == gf_mul(p15, p15),
            p31 == gf_mul(p30, a),
            p62 == gf_mul(p31, p31),
            p63 == gf_mul(p62, a),
            p126 == gf_mul(p63, p63),
            p127 == gf_mul(p126, a),
            p254 == gf_mul(p127, p127),
    ;
}
} // verus!
