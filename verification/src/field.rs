//! Arithmetic in the prime field GF(p), p = 2^255 - 19.
//!
//! curve25519-dalek keeps its field module private, so the field layer is
//! built here on the primitive operations of `fiat-crypto` (the generated,
//! machine-checked field code that curve25519-dalek itself can use as a
//! backend).  A field element is five 51-bit limbs with the "tight" bounds
//! of fiat-crypto; its value is the limb evaluation reduced modulo p.
use vstd::prelude::*;
use vstd::arithmetic::power::*;
use vstd::arithmetic::power2::*;
use vstd::arithmetic::div_mod::*;
use vstd::arithmetic::mul::*;
use fiat_crypto::curve25519_64::{
    fiat_25519_add, fiat_25519_carry, fiat_25519_carry_mul, fiat_25519_carry_square,
    fiat_25519_from_bytes, fiat_25519_loose_field_element, fiat_25519_opp, fiat_25519_sub,
    fiat_25519_tight_field_element, fiat_25519_to_bytes,
};

verus! {

// ---------------------------------------------------------------------------
//  Mathematical model
// ---------------------------------------------------------------------------
/// The field prime 2^255 - 19.
pub open spec fn p() -> nat {
    57896044618658097711785492504343953926634992332820282019728792003956564819949nat
}

/// Value of five 51-bit limbs (before reduction modulo p).
pub open spec fn limbs_eval(l: [u64; 5]) -> nat {
    l[0] as nat + l[1] as nat * 2251799813685248 + l[2] as nat * 5070602400912917605986812821504nat
        + l[3] as nat * 11417981541647679048466287755595961091061972992nat + l[4] as nat
        * 25711008708143844408671393477458601640355247900524685364822016nat
}

/// Tight limb bounds of fiat-crypto (each limb at most 2^51).
pub open spec fn tight(l: [u64; 5]) -> bool {
    &&& l[0] <= 0x8000000000000
    &&& l[1] <= 0x8000000000000
    &&& l[2] <= 0x8000000000000
    &&& l[3] <= 0x8000000000000
    &&& l[4] <= 0x8000000000000
}

/// Loose limb bounds of fiat-crypto (each limb at most 3 * 2^51).
pub open spec fn loose(l: [u64; 5]) -> bool {
    &&& l[0] <= 0x18000000000000
    &&& l[1] <= 0x18000000000000
    &&& l[2] <= 0x18000000000000
    &&& l[3] <= 0x18000000000000
    &&& l[4] <= 0x18000000000000
}

/// Little-endian value of a byte string.
pub open spec fn le_nat(s: Seq<u8>) -> nat
    decreases s.len(),
{
    if s.len() == 0 {
        0
    } else {
        s[0] as nat + 256 * le_nat(s.drop_first())
    }
}


/// Little-endian encoding of x in n bytes (x reduced modulo 256^n).
pub open spec fn le_bytes(x: nat, n: nat) -> Seq<u8>
    decreases n,
{
    if n == 0 {
        Seq::empty()
    } else {
        seq![(x % 256) as u8] + le_bytes(x / 256, (n - 1) as nat)
    }
}

/// The canonical 32-byte encoding of a field value.
pub open spec fn canonical_bytes(x: nat) -> Seq<u8> {
    le_bytes(x, 32)
}

/// 256^n.
pub open spec fn pow256(n: nat) -> nat
    decreases n,
{
    if n == 0 {
        1
    } else {
        256 * pow256((n - 1) as nat)
    }
}

/// Field value of a 32-byte encoding: bit 255 is ignored, the rest is read
/// little-endian and reduced modulo p.
pub open spec fn bytes_to_field(b: Seq<u8>) -> nat {
    le_nat(b.update(31, b[31] & 0x7f)) % p()
}

/// Addition modulo p.
pub open spec fn fadd(a: nat, b: nat) -> nat {
    (a + b) % p()
}

/// Subtraction modulo p.
pub open spec fn fsub(a: nat, b: nat) -> nat {
    ((a - b) % (p() as int)) as nat
}

/// Negation modulo p.
pub open spec fn fneg(a: nat) -> nat {
    ((0 - a) % (p() as int)) as nat
}

/// Multiplication modulo p.
pub open spec fn fmul(a: nat, b: nat) -> nat {
    (a * b) % p()
}

/// Squaring modulo p.
pub open spec fn fsq(a: nat) -> nat {
    fmul(a, a)
}

/// a^e modulo p.
pub open spec fn fpow(a: nat, e: nat) -> nat {
    (pow(a as int, e) % (p() as int)) as nat
}

/// A field value is "negative" when its canonical representative is odd.
pub open spec fn fis_negative(a: nat) -> bool {
    a % 2 == 1
}

/// The value of the constant sqrt(-1) used by curve25519.
pub open spec fn sqrt_m1() -> nat {
    19681161376707505956807079304988542015446066515923890162744021073123829784752nat
}

/// The exponent (p - 5) / 8 = 2^252 - 3.
pub open spec fn p58() -> nat {
    7237005577332262213973186563042994240829374041602535252466099000494570602493nat
}

/// What `sqrt_ratio_i(u, v)` computes on field values: the candidate
/// r = (u v^3)(u v^7)^((p-5)/8), multiplied by sqrt(-1) when v r^2 is -u or
/// -u sqrt(-1), then made nonnegative; the flag says whether v r^2 = ±u.
pub open spec fn spec_sqrt_ratio_i(u: nat, v: nat) -> (bool, nat) {
    let v3 = fmul(fsq(v), v);
    let v7 = fmul(fsq(v3), v);
    let r = fmul(fmul(u, v3), fpow(fmul(u, v7), p58()));
    let check = fmul(v, fsq(r));
    let correct_sign = check == u;
    let flipped_sign = check == fneg(u);
    let flipped_sign_i = check == fmul(fneg(u), sqrt_m1());
    let r1 = if flipped_sign || flipped_sign_i {
        fmul(sqrt_m1(), r)
    } else {
        r
    };
    let r2 = if fis_negative(r1) {
        fneg(r1)
    } else {
        r1
    };
    (correct_sign || flipped_sign, r2)
}


// ---------------------------------------------------------------------------
//  Lemmas on powers modulo p
// ---------------------------------------------------------------------------
/// x^1 = x modulo p.
pub proof fn lemma_fpow_one(x: nat)
    requires
        x < p(),
    ensures
        fpow(x, 1) == x,
{
    lemma_pow1(x as int);
    lemma_small_mod(x, p());
}

/// x^a x^b = x^(a + b) modulo p.
pub proof fn lemma_fmul_pows(x: nat, a: nat, b: nat)
    ensures
        fmul(fpow(x, a), fpow(x, b)) == fpow(x, a + b),
{
    let pa = pow(x as int, a);
    let pb = pow(x as int, b);
    lemma_mul_mod_noop(pa, pb, p() as int);
    lemma_pow_adds(x as int, a, b);
}

/// (x^a)^2 = x^(2a) modulo p.
pub proof fn lemma_fsq_pow(x: nat, a: nat)
    ensures
        fsq(fpow(x, a)) == fpow(x, a + a),
{
    lemma_fmul_pows(x, a, a);
}

/// (x^a)^b = x^(a b) modulo p.
pub proof fn lemma_fpow_fpow(x: nat, a: nat, b: nat)
    ensures
        fpow(fpow(x, a), b) == fpow(x, a * b),
{
    let pa = pow(x as int, a);
    lemma_pow_mod_noop(pa, b, p() as int);
    lemma_pow_multiplies(x as int, a, b);
}


/// The powers of two that the limb arithmetic uses.
pub proof fn lemma_pow2_values()
    ensures
        pow2(2) == 4,
        pow2(5) == 32,
        pow2(10) == 1024,
        pow2(20) == 1048576,
        pow2(50) == 1125899906842624nat,
        pow2(100) == 1267650600228229401496703205376nat,
{
    lemma2_to64();
    lemma2_to64_rest();
    lemma_pow2_adds(50, 50);
    assert(pow2(100) == 1267650600228229401496703205376nat) by (nonlinear_arith)
        requires
            pow2(100) == pow2(50) * pow2(50),
            pow2(50) == 1125899906842624nat,
    ;
}


/// The parity of a little-endian value is that of its first byte.
pub proof fn lemma_le_nat_parity(s: Seq<u8>)
    requires
        s.len() > 0,
    ensures
        le_nat(s) % 2 == s[0] % 2,
{
    let rest = le_nat(s.drop_first());
    assert((s[0] as int + 256 * rest) % 2 == (s[0] as int) % 2) by (nonlinear_arith);
}

/// Byte strings of one length with the same little-endian value are equal.
pub proof fn lemma_le_nat_injective(a: Seq<u8>, b: Seq<u8>)
    requires
        a.len() == b.len(),
        le_nat(a) == le_nat(b),
    ensures
        a == b,
    decreases a.len(),
{
    if a.len() > 0 {
        let ra = le_nat(a.drop_first());
        let rb = le_nat(b.drop_first());
        let x = a[0] as int;
        let y = b[0] as int;
        assert(x == y && ra == rb) by (nonlinear_arith)
            requires
                x + 256 * ra == y + 256 * rb,
                0 <= x < 256,
                0 <= y < 256,
                ra >= 0,
                rb >= 0,
        ;
        lemma_le_nat_injective(a.drop_first(), b.drop_first());
        assert(a =~= b) by {
            assert forall|i: int| 0 <= i < a.len() implies a[i] == b[i] by {
                if i > 0 {
                    assert(a[i] == a.drop_first()[i - 1]);
                    assert(b[i] == b.drop_first()[i - 1]);
                }
            }
        }
    } else {
        assert(a =~= b);
    }
}

/// n is prime: above 1, with no divisor strictly between 1 and n.
pub open spec fn is_prime(n: nat) -> bool {
    &&& n > 1
    &&& forall|d: nat| 1 < d < n ==> #[trigger] (n % d) != 0
}

/// Euclid's lemma: a prime that divides a product and not the first factor
/// divides the second.
pub proof fn lemma_prime_divides_product(q: nat, a: nat, b: nat)
    requires
        is_prime(q),
        (a * b) % q == 0,
        a % q != 0,
    ensures
        b % q == 0,
    decreases a % q,
{
    let a1 = a % q;
    lemma_mul_mod_noop_left(a as int, b as int, q as int);
    assert((a1 * b) % q == 0);
    if a1 == 1 {
        assert(a1 * b == b) by (nonlinear_arith)
            requires
                a1 == 1,
        ;
    } else {
        assert(q % a1 != 0);
        let k = q / a1;
        let r = q % a1;
        lemma_fundamental_div_mod(q as int, a1 as int);
        let j = (a1 * b) / q;
        lemma_fundamental_div_mod((a1 * b) as int, q as int);
        assert(r * b == q * (b - k * j)) by (nonlinear_arith)
            requires
                q == a1 * k + r,
                a1 * b == q * j,
        ;
        lemma_mod_multiples_basic(b - k * j, q as int);
        assert((q * (b - k * j)) % (q as int) == 0) by {
            assert(q * (b - k * j) == (b - k * j) * q) by (nonlinear_arith);
        }
        assert(r < a1);
        lemma_small_mod(r, q);
        lemma_prime_divides_product(q, r, b);
    }
}

/// Binomial coefficients by Pascal's rule.
pub open spec fn binom(n: nat, k: nat) -> nat
    decreases n,
{
    if k == 0 {
        1
    } else if n == 0 {
        0
    } else {
        binom((n - 1) as nat, (k - 1) as nat) + binom((n - 1) as nat, k)
    }
}

/// a^k on integers.
pub open spec fn ipow(a: int, k: nat) -> int
    decreases k,
{
    if k == 0 {
        1
    } else {
        a * ipow(a, (k - 1) as nat)
    }
}

/// The first k terms of the binomial expansion of (a + 1)^n.
pub open spec fn binom_sum(a: int, n: nat, k: nat) -> int
    decreases k,
{
    if k == 0 {
        0
    } else {
        binom_sum(a, n, (k - 1) as nat) + binom(n, (k - 1) as nat) * ipow(a, (k - 1) as nat)
    }
}

proof fn lemma_binom_zero(n: nat, k: nat)
    requires
        k > n,
    ensures
        binom(n, k) == 0,
    decreases n,
{
    if n > 0 {
        lemma_binom_zero((n - 1) as nat, (k - 1) as nat);
        lemma_binom_zero((n - 1) as nat, k);
    }
}

proof fn lemma_binom_sum_pascal(a: int, n: nat, k: nat)
    ensures
        binom_sum(a, n + 1, k + 1) == binom_sum(a, n, k + 1) + a * binom_sum(a, n, k),
    decreases k,
{
    if k == 0 {
        assert(binom_sum(a, n + 1, 1) == binom_sum(a, n + 1, 0) + binom(n + 1, 0) * ipow(a, 0));
        assert(binom_sum(a, n, 1) == binom_sum(a, n, 0) + binom(n, 0) * ipow(a, 0));
        assert(binom_sum(a, n, 0) == 0);
        assert(a * 0 == 0) by (nonlinear_arith);
    } else {
        let k1 = (k - 1) as nat;
        lemma_binom_sum_pascal(a, n, k1);
        assert(binom_sum(a, n + 1, k + 1) == binom_sum(a, n + 1, k) + binom(n + 1, k) * ipow(a, k));
        assert(binom_sum(a, n, k + 1) == binom_sum(a, n, k) + binom(n, k) * ipow(a, k));
        assert(binom_sum(a, n, k) == binom_sum(a, n, k1) + binom(n, k1) * ipow(a, k1));
        assert(binom(n + 1, k) == binom(n, k1) + binom(n, k));
        assert(ipow(a, k) == a * ipow(a, k1));
        let s0 = binom_sum(a, n, k1);
        let bk1 = binom(n, k1) as int;
        let bk = binom(n, k) as int;
        let pk1 = ipow(a, k1);
        assert((bk1 + bk) * (a * pk1) + a * s0 == bk * (a * pk1) + a * (s0 + bk1 * pk1)) by (nonlinear_arith);
    }
}

/// The binomial theorem: (a + 1)^n = sum of binom(n, j) a^j.
pub proof fn lemma_binomial(a: int, n: nat)
    ensures
        ipow(a + 1, n) == binom_sum(a, n, n + 1),
    decreases n,
{
    if n == 0 {
        assert(binom_sum(a, 0, 1) == binom_sum(a, 0, 0) + binom(0, 0) * ipow(a, 0));
    } else {
        let n1 = (n - 1) as nat;
        lemma_binomial(a, n1);
        lemma_binom_sum_pascal(a, n1, n);
        lemma_binom_zero(n1, n);
        assert(binom_sum(a, n1, n + 1) == binom_sum(a, n1, n));
        let s = binom_sum(a, n1, n);
        assert((a + 1) * s == s + a * s) by (nonlinear_arith);
    }
}

/// k binom(n, k) = n binom(n - 1, k - 1).
proof fn lemma_binom_absorb(n: nat, k: nat)
    requires
        n >= 1,
        k >= 1,
    ensures
        k * binom(n, k) == n * binom((n - 1) as nat, (k - 1) as nat),
    decreases n,
{
    let n1 = (n - 1) as nat;
    let k1 = (k - 1) as nat;
    if n == 1 {
        if k >= 2 {
            lemma_binom_zero(0, k1);
            lemma_binom_zero(0, k);
            assert(binom(1, k) == 0);
            assert(k * 0 == 0) by (nonlinear_arith);
        } else {
            assert(binom(1, 1) == binom(0, 0) + binom(0, 1));
        }
    } else {
        // binom(n, k) = binom(n1, k1) + binom(n1, k)
        lemma_binom_absorb(n1, k);
        let b1 = binom(n1, k1) as int;
        let b2 = binom(n1, k) as int;
        assert(binom(n, k) == b1 + b2);
        if k == 1 {
            assert(b1 == 1);
            assert(binom(n1, 0) == 1);
            assert(1 * b2 == n1 * 1) by (nonlinear_arith)
                requires
                    k * b2 == n1 * binom((n1 - 1) as nat, 0),
                    k == 1,
                    binom((n1 - 1) as nat, 0) == 1,
            ;
            assert(k * (b1 + b2) == n * binom(n1, k1)) by (nonlinear_arith)
                requires
                    k == 1,
                    b1 == 1,
                    b2 == n1,
                    n == n1 + 1,
                    binom(n1, k1) == 1,
            ;
        } else {
            lemma_binom_absorb(n1, k1);
            let c1 = binom((n1 - 1) as nat, (k1 - 1) as nat) as int;
            let c2 = binom((n1 - 1) as nat, k1) as int;
            assert(b1 == c1 + c2);
            assert(k * (b1 + b2) == n * b1) by (nonlinear_arith)
                requires
                    k * b2 == n1 * c2,
                    k1 * b1 == n1 * c1,
                    b1 == c1 + c2,
                    k == k1 + 1,
                    n == n1 + 1,
            ;
        }
    }
}

/// A prime q divides binom(q, k) for 0 < k < q.
proof fn lemma_prime_divides_binom(q: nat, k: nat)
    requires
        is_prime(q),
        0 < k < q,
    ensures
        binom(q, k) % q == 0,
{
    lemma_binom_absorb(q, k);
    let b = binom((q - 1) as nat, (k - 1) as nat);
    lemma_mod_multiples_basic(b as int, q as int);
    assert(q * b == b * q) by (nonlinear_arith);
    lemma_small_mod(k, q);
    lemma_prime_divides_product(q, k, binom(q, k));
}

/// The first k terms of the expansion of (a + 1)^q are 1 modulo q.
proof fn lemma_binom_sum_mod(a: nat, q: nat, k: nat)
    requires
        is_prime(q),
        1 <= k <= q,
    ensures
        binom_sum(a as int, q, k) % (q as int) == 1,
    decreases k,
{
    if k == 1 {
        assert(binom_sum(a as int, q, 1) == binom_sum(a as int, q, 0) + binom(q, 0) * ipow(a as int, 0));
        lemma_small_mod(1, q);
    } else {
        let k1 = (k - 1) as nat;
        lemma_binom_sum_mod(a, q, k1);
        lemma_prime_divides_binom(q, k1);
        let qi = q as int;
        let b = binom(q, k1) as int;
        let m = b / qi;
        let bs = binom_sum(a as int, q, k1);
        let x = ipow(a as int, k1);
        assert(binom_sum(a as int, q, k) == bs + b * x);
        lemma_fundamental_div_mod(b, qi);
        assert(b == qi * m);
        assert(b * x == qi * (m * x)) by (nonlinear_arith)
            requires
                b == qi * m,
        ;
        lemma_mod_multiples_vanish(m * x, bs, qi);
        assert((qi * (m * x) + bs) % qi == 1);
    }
}

proof fn lemma_ipow_nonneg(a: nat, k: nat)
    ensures
        ipow(a as int, k) >= 0,
    decreases k,
{
    if k > 0 {
        lemma_ipow_nonneg(a, (k - 1) as nat);
        assert(a * ipow(a as int, (k - 1) as nat) >= 0) by (nonlinear_arith)
            requires
                ipow(a as int, (k - 1) as nat) >= 0,
        ;
    }
}

/// a^q = a modulo a prime q.
proof fn lemma_fermat_pow(q: nat, a: nat)
    requires
        is_prime(q),
    ensures
        ipow(a as int, q) % (q as int) == (a as int) % (q as int),
    decreases a,
{
    let qi = q as int;
    if a == 0 {
        assert(ipow(0, q) == 0 * ipow(0, (q - 1) as nat));
    } else {
        let a1 = (a - 1) as nat;
        lemma_fermat_pow(q, a1);
        lemma_binomial(a1 as int, q);
        // (a1 + 1)^q = binom_sum(a1, q, q) + a1^q
        assert(binom_sum(a1 as int, q, q + 1) == binom_sum(a1 as int, q, q) + binom(q, q) * ipow(a1 as int, q));
        assert(binom(q, q) == 1) by {
            lemma_binom_diag(q);
        }
        lemma_binom_sum_mod(a1, q, q);
        lemma_add_mod_noop(binom_sum(a1 as int, q, q), ipow(a1 as int, q), qi);
        lemma_add_mod_noop(1, a1 as int, qi);
        lemma_small_mod(1, q);
    }
}

proof fn lemma_binom_diag(n: nat)
    ensures
        binom(n, n) == 1,
    decreases n,
{
    if n > 0 {
        lemma_binom_diag((n - 1) as nat);
        lemma_binom_zero((n - 1) as nat, n);
    }
}

/// Fermat's little theorem: a^(q-1) = 1 modulo a prime q that does not divide a.
pub proof fn lemma_fermat(q: nat, a: nat)
    requires
        is_prime(q),
        a % q != 0,
    ensures
        ipow(a as int, (q - 1) as nat) % (q as int) == 1,
{
    let qi = q as int;
    let e = ipow(a as int, (q - 1) as nat);
    lemma_fermat_pow(q, a);
    assert(ipow(a as int, q) == a * e);
    lemma_ipow_nonneg(a, (q - 1) as nat);
    // a (e - 1) = 0 modulo q
    assert(a * e - a == a * (e - 1)) by (nonlinear_arith);
    lemma_sub_mod_noop(a * e, a as int, qi);
    assert((a * e) % qi == (a as int) % qi);
    let z = (a as int) % qi;
    assert(z - z == 0);
    lemma_small_mod(0, q);
    assert((z - z) % qi == 0);
    assert((a * e - a) % qi == 0);
    assert((a * (e - 1)) % qi == 0);
    if e == 0 {
        assert(a * e == 0) by (nonlinear_arith)
            requires
                e == 0,
        ;
        assert((a as int) % qi == 0);
    }
    let e1 = (e - 1) as nat;
    assert(a * e1 == a * (e - 1));
    lemma_prime_divides_product(q, a, e1);
    lemma_fundamental_div_mod(e1 as int, qi);
    lemma_fundamental_div_mod(e, qi);
    lemma_mod_multiples_vanish(e1 as int / qi, 1, qi);
    lemma_small_mod(1, q);
}

/// Modulo p (a prime), the square roots of y^2 are y and -y.
#[verifier::rlimit(80)]
#[verifier::spinoff_prover]
pub proof fn lemma_square_roots(x: nat, y: nat)
    requires
        x < p(),
        y < p(),
        fsq(x) == fsq(y),
    ensures
        x == y || x == fneg(y),
{
    let m = p();
    crate::curve_prime::lemma_prime_curve();
    lemma_fneg_value(y);
    if x != y {
        lemma_sub_mod_noop((x * x) as int, (y * y) as int, m as int);
        assert(((x * x) - (y * y)) % (m as int) == 0);
        if x > y {
            let a = (x - y) as nat;
            let b = (x + y) as nat;
            assert(a * b == (x * x) - (y * y)) by (nonlinear_arith)
                requires
                    a == x - y,
                    b == x + y,
            ;
            lemma_small_mod(a, m);
            lemma_prime_divides_product(m, a, b);
            lemma_fundamental_div_mod(b as int, m as int);
            assert(b == m);
        } else {
            let a = (y - x) as nat;
            let b = (x + y) as nat;
            assert(a * b == (y * y) - (x * x)) by (nonlinear_arith)
                requires
                    a == y - x,
                    b == x + y,
            ;
            lemma_sub_mod_noop((y * y) as int, (x * x) as int, m as int);
            lemma_small_mod(a, m);
            lemma_prime_divides_product(m, a, b);
            lemma_fundamental_div_mod(b as int, m as int);
            assert(b == m);
        }
    }
}

/// Explicit form of the negation of a reduced value.
pub proof fn lemma_fneg_value(a: nat)
    requires
        a < p(),
    ensures
        fneg(a) == (if a == 0 { 0 } else { (p() - a) as nat }),
{
    if a == 0 {
        lemma_small_mod(0, p());
    } else {
        lemma_fundamental_div_mod_converse_mod(0 - a, p() as int, -1, p() - a);
    }
}

/// (x * y) mod p where y = -1 mod p.
proof fn lemma_mul_minus_one(x: int, y: int)
    requires
        y % (p() as int) == p() - 1,
    ensures
        (x * y) % (p() as int) == (0 - x) % (p() as int),
{
    let m = p() as int;
    lemma_mul_mod_noop_right(x, y, m);
    assert(x * (m - 1) == m * x + (0 - x)) by (nonlinear_arith);
    lemma_mod_multiples_vanish(x, 0 - x, m);
}

/// Squares of opposite values agree.
pub proof fn lemma_fsq_fneg(a: nat)
    ensures
        fsq(fneg(a)) == fsq(a),
{
    let m = p() as int;
    lemma_mul_mod_noop(0 - a, 0 - a, m);
    assert((0 - a) * (0 - a) == a * a) by (nonlinear_arith);
}

/// v (i r)^2 = -(v r^2) where i = sqrt(-1).
proof fn lemma_sqrt_m1_square(v: nat, r: nat)
    ensures
        fmul(v, fsq(fmul(sqrt_m1(), r))) == fneg(fmul(v, fsq(r))),
{
    let m = p() as int;
    let i = sqrt_m1() as int;
    let rr = r as int;
    assert((i * i) % m == m - 1);
    // (i r)^2 = i^2 r^2
    lemma_mul_mod_noop(i * rr, i * rr, m);
    assert((i * rr) * (i * rr) == (rr * rr) * (i * i)) by (nonlinear_arith);
    // v * ((i r)^2 mod p) = v r^2 i^2
    lemma_mul_mod_noop_right(v as int, (i * rr) * (i * rr), m);
    assert((v as int) * ((rr * rr) * (i * i)) == ((v as int) * (rr * rr)) * (i * i)) by (nonlinear_arith);
    lemma_mul_minus_one((v as int) * (rr * rr), i * i);
    // right side: -(v (r^2 mod p) mod p)
    lemma_mul_mod_noop_right(v as int, rr * rr, m);
    lemma_sub_mod_noop(0, (v as int) * (rr * rr), m);
    lemma_small_mod(0, p());
}

/// If u = -u sqrt(-1) then u = 0.
#[verifier::rlimit(80)]
#[verifier::spinoff_prover]
proof fn lemma_fixed_by_minus_i(u: nat)
    requires
        u < p(),
        u == fmul(fneg(u), sqrt_m1()),
    ensures
        u == 0,
{
    let m = p() as int;
    let i = sqrt_m1() as int;
    let w: int = 19107441620975295877489206599677705955594462908448195928492385465416367517599int;
    assert(((1 + i) * w) % m == 1);
    // u = (-u i) mod p
    lemma_mul_mod_noop_left(0 - u, i, m);
    assert((0 - u) * i == 0 - u * i) by (nonlinear_arith);
    // so (u + u i) mod p = 0
    lemma_add_mod_noop(u as int, 0 - u * i, m);
    let s = (u as int) + u * i;
    lemma_small_mod(u, p());
    assert((u as int) == (0 - u * i) % m);
    lemma_fundamental_div_mod(0 - u * i, m);
    let q = (0 - u * i) / m;
    assert(0 - u * i == m * q + (0 - u * i) % m);
    assert(s == (u as int) - (0 - u * i) % m + m * (0 - q)) by (nonlinear_arith)
        requires
            s == (u as int) + u * i,
            0 - u * i == m * q + (0 - u * i) % m,
    ;
    assert((u as int) - (0 - u * i) % m == 0);
    lemma_mod_multiples_vanish(0 - q, 0, m);
    lemma_small_mod(0, p());
    assert(s % m == 0);
    // multiply by the inverse of 1 + i
    assert(s * w == (u as int) * ((1 + i) * w)) by (nonlinear_arith)
        requires
            s == (u as int) + u * i,
    ;
    lemma_mul_mod_noop_left(s, w, m);
    assert((s % m) * w == 0);
    lemma_mul_mod_noop_right(u as int, (1 + i) * w, m);
}

/// When `sqrt_ratio_i` reports a square, the returned root r satisfies
/// v r^2 = u, and r is always nonnegative (even).
#[verifier::rlimit(80)]
#[verifier::spinoff_prover]
pub proof fn lemma_sqrt_ratio_i(u: nat, v: nat)
    requires
        u < p(),
        v < p(),
    ensures
        !fis_negative(spec_sqrt_ratio_i(u, v).1),
        spec_sqrt_ratio_i(u, v).1 < p(),
        spec_sqrt_ratio_i(u, v).0 ==> fmul(v, fsq(spec_sqrt_ratio_i(u, v).1)) == u,
{
    let v3 = fmul(fsq(v), v);
    let v7 = fmul(fsq(v3), v);
    let r = fmul(fmul(u, v3), fpow(fmul(u, v7), p58()));
    let check = fmul(v, fsq(r));
    let correct_sign = check == u;
    let flipped_sign = check == fneg(u);
    let flipped_sign_i = check == fmul(fneg(u), sqrt_m1());
    let r1 = if flipped_sign || flipped_sign_i {
        fmul(sqrt_m1(), r)
    } else {
        r
    };
    let r2 = spec_sqrt_ratio_i(u, v).1;
    lemma_fneg_value(r1);
    lemma_fsq_fneg(r1);
    assert(fmul(v, fsq(r2)) == fmul(v, fsq(r1)));
    if flipped_sign || flipped_sign_i {
        lemma_sqrt_m1_square(v, r);
        assert(fmul(v, fsq(r1)) == fneg(check));
        if flipped_sign {
            lemma_fneg_value(u);
            lemma_fneg_value(fneg(u));
        } else if correct_sign {
            lemma_fixed_by_minus_i(u);
            lemma_fneg_value(0);
        }
    }
}


/// Reading back a canonical encoding gives its value.
pub proof fn lemma_canonical_bytes_to_field(b: Seq<u8>)
    requires
        b.len() == 32,
        b[31] <= 0x7f,
        le_nat(b) < p(),
    ensures
        bytes_to_field(b) == le_nat(b),
{
    let x: u8 = b[31];
    assert(x & 0x7f == x) by (bit_vector)
        requires
            x <= 0x7f,
    ;
    assert(b.update(31, b[31] & 0x7f) =~= b);
    lemma_small_mod(le_nat(b), p());
}


/// The encoding of x in n bytes has n bytes.
pub proof fn lemma_le_bytes_len(x: nat, n: nat)
    ensures
        le_bytes(x, n).len() == n,
    decreases n,
{
    if n > 0 {
        lemma_le_bytes_len(x / 256, (n - 1) as nat);
    }
}

/// Reading back the n-byte encoding of x < 256^n gives x.
pub proof fn lemma_le_nat_le_bytes(x: nat, n: nat)
    requires
        x < pow256(n),
    ensures
        le_nat(le_bytes(x, n)) == x,
    decreases n,
{
    if n > 0 {
        let rest = le_bytes(x / 256, (n - 1) as nat);
        let s = le_bytes(x, n);
        assert(x / 256 < pow256((n - 1) as nat)) by {
            lemma_div_by_multiple_is_strongly_ordered(x as int, pow256(n) as int, pow256((n - 1) as nat) as int, 256);
            lemma_div_by_multiple(pow256((n - 1) as nat) as int, 256);
            lemma_div_is_ordered_by_denominator(x as int, 256, 256);
            lemma_fundamental_div_mod(x as int, 256);
            assert(x < 256 * pow256((n - 1) as nat));
            lemma_multiply_divide_lt(x as int, 256, pow256((n - 1) as nat) as int);
        }
        lemma_le_nat_le_bytes(x / 256, (n - 1) as nat);
        assert(s.drop_first() =~= rest);
        lemma_fundamental_div_mod(x as int, 256);
    }
}

/// A byte string is the little-endian encoding of its own value.
pub proof fn lemma_bytes_of_value(b: Seq<u8>)
    ensures
        b == le_bytes(le_nat(b), b.len()),
    decreases b.len(),
{
    if b.len() > 0 {
        let rest = b.drop_first();
        lemma_bytes_of_value(rest);
        let y = le_nat(rest);
        let b0 = b[0] as nat;
        assert((b0 + 256 * y) % 256 == b0 && (b0 + 256 * y) / 256 == y) by (nonlinear_arith)
            requires
                b0 < 256,
        ;
        assert(b =~= seq![b[0]] + rest);
    }
}

/// 256^32 = 2^256.
pub proof fn lemma_pow256_32()
    ensures
        pow256(32) == 115792089237316195423570985008687907853269984665640564039457584007913129639936nat,
{
    reveal_with_fuel(pow256, 33);
}

/// A 32-byte string holding the value x (< p) is the canonical encoding of x.
pub proof fn lemma_canonical_bytes_unique(b: Seq<u8>, x: nat)
    requires
        b.len() == 32,
        le_nat(b) == x,
        x < p(),
    ensures
        b == canonical_bytes(x),
{
    lemma_pow256_32();
    lemma_le_nat_le_bytes(x, 32);
    lemma_le_bytes_len(x, 32);
    lemma_le_nat_injective(b, canonical_bytes(x));
}

// ---------------------------------------------------------------------------
//  fiat-crypto primitives
// ---------------------------------------------------------------------------
/// `fiat_25519_carry_mul`: for loose inputs the output is tight and its
/// evaluation is the product of the input evaluations modulo p.
#[verifier::external_body]
fn fiat_mul(a: &[u64; 5], b: &[u64; 5]) -> (r: [u64; 5])
    requires
        loose(*a),
        loose(*b),
    ensures
        tight(r),
        limbs_eval(r) % p() == (limbs_eval(*a) * limbs_eval(*b)) % p(),
{
    let mut out = fiat_25519_tight_field_element([0u64; 5]);
    fiat_25519_carry_mul(
        &mut out,
        &fiat_25519_loose_field_element(*a),
        &fiat_25519_loose_field_element(*b),
    );
    out.0
}

/// `fiat_25519_carry_square`: for a loose input the output is tight and its
/// evaluation is the square of the input evaluation modulo p.
#[verifier::external_body]
fn fiat_square(a: &[u64; 5]) -> (r: [u64; 5])
    requires
        loose(*a),
    ensures
        tight(r),
        limbs_eval(r) % p() == (limbs_eval(*a) * limbs_eval(*a)) % p(),
{
    let mut out = fiat_25519_tight_field_element([0u64; 5]);
    fiat_25519_carry_square(&mut out, &fiat_25519_loose_field_element(*a));
    out.0
}

/// `fiat_25519_carry`: reduces a loose element to a tight one with the same
/// value modulo p.
#[verifier::external_body]
fn fiat_carry(a: &[u64; 5]) -> (r: [u64; 5])
    requires
        loose(*a),
    ensures
        tight(r),
        limbs_eval(r) % p() == limbs_eval(*a) % p(),
{
    let mut out = fiat_25519_tight_field_element([0u64; 5]);
    fiat_25519_carry(&mut out, &fiat_25519_loose_field_element(*a));
    out.0
}

/// `fiat_25519_add`: adds two tight elements into a loose one.
#[verifier::external_body]
fn fiat_add(a: &[u64; 5], b: &[u64; 5]) -> (r: [u64; 5])
    requires
        tight(*a),
        tight(*b),
    ensures
        loose(r),
        limbs_eval(r) % p() == (limbs_eval(*a) + limbs_eval(*b)) % p(),
{
    let mut out = fiat_25519_loose_field_element([0u64; 5]);
    fiat_25519_add(
        &mut out,
        &fiat_25519_tight_field_element(*a),
        &fiat_25519_tight_field_element(*b),
    );
    out.0
}

/// `fiat_25519_sub`: subtracts two tight elements into a loose one.
#[verifier::external_body]
fn fiat_sub(a: &[u64; 5], b: &[u64; 5]) -> (r: [u64; 5])
    requires
        tight(*a),
        tight(*b),
    ensures
        loose(r),
        limbs_eval(r) % p() == ((limbs_eval(*a) - limbs_eval(*b)) % (p() as int)) as nat,
{
    let mut out = fiat_25519_loose_field_element([0u64; 5]);
    fiat_25519_sub(
        &mut out,
        &fiat_25519_tight_field_element(*a),
        &fiat_25519_tight_field_element(*b),
    );
    out.0
}

/// `fiat_25519_opp`: negates a tight element into a loose one.
#[verifier::external_body]
fn fiat_opp(a: &[u64; 5]) -> (r: [u64; 5])
    requires
        tight(*a),
    ensures
        loose(r),
        limbs_eval(r) % p() == ((0 - limbs_eval(*a)) % (p() as int)) as nat,
{
    let mut out = fiat_25519_loose_field_element([0u64; 5]);
    fiat_25519_opp(&mut out, &fiat_25519_tight_field_element(*a));
    out.0
}

/// `fiat_25519_to_bytes`: the canonical little-endian encoding of the value
/// modulo p (so the top byte is at most 0x7f).
#[verifier::external_body]
fn fiat_to_bytes(a: &[u64; 5]) -> (r: [u8; 32])
    requires
        tight(*a),
    ensures
        le_nat(r@) == limbs_eval(*a) % p(),
        r[31] <= 0x7f,
{
    let mut out = [0u8; 32];
    fiat_25519_to_bytes(&mut out, &fiat_25519_tight_field_element(*a));
    out
}

/// `fiat_25519_from_bytes`: reads 32 little-endian bytes whose top byte is
/// at most 0x7f into a tight element with the same value modulo p.
#[verifier::external_body]
fn fiat_from_bytes(b: &[u8; 32]) -> (r: [u64; 5])
    requires
        b[31] <= 0x7f,
    ensures
        tight(r),
        limbs_eval(r) % p() == le_nat(b@) % p(),
{
    let mut out = fiat_25519_tight_field_element([0u64; 5]);
    fiat_25519_from_bytes(&mut out, b);
    out.0
}

// ---------------------------------------------------------------------------
//  Field elements
// ---------------------------------------------------------------------------
/// An element of GF(2^255 - 19).
#[derive(Clone, Copy)]
pub struct FieldElement {
    limbs: [u64; 5],
}

impl View for FieldElement {
    type V = nat;

    open spec fn view(&self) -> nat {
        self.value()
    }
}

impl FieldElement {
    #[verifier::type_invariant]
    spec fn inv(self) -> bool {
        tight(self.limbs)
    }

    /// The value of the element, in [0, p).
    pub closed spec fn value(self) -> nat {
        limbs_eval(self.limbs) % p()
    }

    /// The value is below p.
    pub proof fn lemma_value_lt_p(self)
        ensures
            self@ < p(),
    {
    }

    fn from_limbs(limbs: [u64; 5]) -> (r: FieldElement)
        requires
            tight(limbs),
        ensures
            r@ == limbs_eval(limbs) % p(),
    {
        FieldElement { limbs }
    }

    /// The element 0.
    pub fn zero() -> (r: FieldElement)
        ensures
            r@ == 0,
    {
        Self::from_limbs([0, 0, 0, 0, 0])
    }

    /// The element 1.
    pub fn one() -> (r: FieldElement)
        ensures
            r@ == 1,
    {
        Self::from_limbs([1, 0, 0, 0, 0])
    }

    /// The constant sqrt(-1).
    pub fn sqrt_m1() -> (r: FieldElement)
        ensures
            r@ == sqrt_m1(),
    {
        let r = Self::from_limbs(
            [
                1718705420411056,
                234908883556509,
                2233514472574048,
                2117202627021982,
                765476049583133,
            ],
        );
        assert(r@ == sqrt_m1());
        r
    }

    /// A small constant given by a value of at most 2^51.
    pub fn from_small(x: u64) -> (r: FieldElement)
        requires
            x <= 0x8000000000000,
        ensures
            r@ == x,
    {
        Self::from_limbs([x, 0, 0, 0, 0])
    }

    /// The sum.
    pub fn add(&self, other: &FieldElement) -> (r: FieldElement)
        ensures
            r@ == fadd(self@, other@),
    {
        proof {
            use_type_invariant(self);
            use_type_invariant(other);
        }
        let s = fiat_add(&self.limbs, &other.limbs);
        let c = fiat_carry(&s);
        proof {
            lemma_add_mod_noop(limbs_eval(self.limbs) as int, limbs_eval(other.limbs) as int, p() as int);
        }
        FieldElement { limbs: c }
    }

    /// The difference.
    pub fn sub(&self, other: &FieldElement) -> (r: FieldElement)
        ensures
            r@ == fsub(self@, other@),
    {
        proof {
            use_type_invariant(self);
            use_type_invariant(other);
        }
        let s = fiat_sub(&self.limbs, &other.limbs);
        let c = fiat_carry(&s);
        proof {
            lemma_sub_mod_noop(limbs_eval(self.limbs) as int, limbs_eval(other.limbs) as int, p() as int);
        }
        FieldElement { limbs: c }
    }

    /// The negation.
    pub fn neg(&self) -> (r: FieldElement)
        ensures
            r@ == fneg(self@),
    {
        proof {
            use_type_invariant(self);
        }
        let s = fiat_opp(&self.limbs);
        let c = fiat_carry(&s);
        proof {
            lemma_sub_mod_noop(0, limbs_eval(self.limbs) as int, p() as int);
            lemma_small_mod(0, p());
        }
        FieldElement { limbs: c }
    }

    /// The product.
    pub fn mul(&self, other: &FieldElement) -> (r: FieldElement)
        ensures
            r@ == fmul(self@, other@),
    {
        proof {
            use_type_invariant(self);
            use_type_invariant(other);
        }
        let m = fiat_mul(&self.limbs, &other.limbs);
        proof {
            lemma_mul_mod_noop(limbs_eval(self.limbs) as int, limbs_eval(other.limbs) as int, p() as int);
        }
        FieldElement { limbs: m }
    }

    /// The square.
    pub fn square(&self) -> (r: FieldElement)
        ensures
            r@ == fsq(self@),
    {
        proof {
            use_type_invariant(self);
        }
        let m = fiat_square(&self.limbs);
        proof {
            lemma_mul_mod_noop(limbs_eval(self.limbs) as int, limbs_eval(self.limbs) as int, p() as int);
        }
        FieldElement { limbs: m }
    }

    /// Squares `k` times: the value raised to 2^k.
    pub fn pow2k(&self, k: u32) -> (r: FieldElement)
        ensures
            r@ == fpow(self@, pow2(k as nat)),
    {
        let mut r = *self;
        let mut j: u32 = 0;
        proof {
            self.lemma_value_lt_p();
            lemma_fpow_one(self@);
            lemma2_to64();
        }
        while j < k
            invariant
                j <= k,
                r@ == fpow(self@, pow2(j as nat)),
            decreases k - j,
        {
            let t = r.square();
            proof {
                lemma_fsq_pow(self@, pow2(j as nat));
                lemma_pow2_unfold((j + 1) as nat);
            }
            r = t;
            j = j + 1;
        }
        r
    }

    /// Returns (x^(2^250 - 1), x^11).
    #[verifier::rlimit(40)]
    fn pow22501(&self) -> (r: (FieldElement, FieldElement))
        ensures
            r.0@ == fpow(self@, 1809251394333065553493296640760748560207343510400633813116524750123642650623nat),
            r.1@ == fpow(self@, 11),
    {
        let ghost x = self@;
        proof {
            self.lemma_value_lt_p();
            lemma_fpow_one(x);
            lemma_pow2_values();
        }
        let t0 = self.square();
        proof { lemma_fsq_pow(x, 1); }
        let t1 = t0.square().square();
        proof { lemma_fsq_pow(x, 2); lemma_fsq_pow(x, 4); }
        let t2 = self.mul(&t1);
        proof { lemma_fmul_pows(x, 1, 8); }
        let t3 = t0.mul(&t2);
        proof { lemma_fmul_pows(x, 2, 9); }
        let t4 = t3.square();
        proof { lemma_fsq_pow(x, 11); }
        let t5 = t2.mul(&t4);
        proof { lemma_fmul_pows(x, 9, 22); }
        let t6 = t5.pow2k(5);
        proof { lemma_fpow_fpow(x, 31, 32); }
        let t7 = t6.mul(&t5);
        proof { lemma_fmul_pows(x, 992, 31); }
        let t8 = t7.pow2k(10);
        proof { lemma_fpow_fpow(x, 1023, 1024); }
        let t9 = t8.mul(&t7);
        proof { lemma_fmul_pows(x, 1023 * 1024, 1023); }
        let t10 = t9.pow2k(20);
        proof { lemma_fpow_fpow(x, 1048575, 1048576); }
        let t11 = t10.mul(&t9);
        proof { lemma_fmul_pows(x, 1048575 * 1048576, 1048575); }
        let t12 = t11.pow2k(10);
        proof { lemma_fpow_fpow(x, 1099511627775, 1024); }
        let t13 = t12.mul(&t7);
        proof { lemma_fmul_pows(x, 1099511627775 * 1024, 1023); }
        let t14 = t13.pow2k(50);
        proof { lemma_fpow_fpow(x, 1125899906842623, 1125899906842624); }
        let t15 = t14.mul(&t13);
        proof { lemma_fmul_pows(x, 1125899906842623 * 1125899906842624, 1125899906842623); }
        let t16 = t15.pow2k(100);
        proof {
            lemma_fpow_fpow(x, 1267650600228229401496703205375nat, 1267650600228229401496703205376nat);
        }
        let t17 = t16.mul(&t15);
        proof {
            lemma_fmul_pows(
                x,
                1267650600228229401496703205375nat * 1267650600228229401496703205376nat,
                1267650600228229401496703205375nat,
            );
        }
        let t18 = t17.pow2k(50);
        proof {
            lemma_fpow_fpow(
                x,
                1606938044258990275541962092341162602522202993782792835301375nat,
                1125899906842624,
            );
        }
        let t19 = t18.mul(&t13);
        proof {
            lemma_fmul_pows(
                x,
                1606938044258990275541962092341162602522202993782792835301375nat * 1125899906842624,
                1125899906842623,
            );
        }
        (t19, t3)
    }

    /// The value raised to (p - 5) / 8.
    pub fn pow_p58(&self) -> (r: FieldElement)
        ensures
            r@ == fpow(self@, p58()),
    {
        let ghost x = self@;
        proof {
            self.lemma_value_lt_p();
            lemma_fpow_one(x);
            lemma_pow2_values();
        }
        let (t19, _t3) = self.pow22501();
        let t20 = t19.pow2k(2);
        proof {
            lemma_fpow_fpow(x, 1809251394333065553493296640760748560207343510400633813116524750123642650623nat, 4);
        }
        let t21 = self.mul(&t20);
        proof {
            lemma_fmul_pows(x, 1, 1809251394333065553493296640760748560207343510400633813116524750123642650623nat * 4);
        }
        t21
    }

    /// The multiplicative inverse, computed as the value raised to p - 2
    /// (0 for the element 0).
    pub fn invert(&self) -> (r: FieldElement)
        ensures
            r@ == fpow(self@, (p() - 2) as nat),
    {
        let ghost x = self@;
        proof {
            lemma_pow2_values();
        }
        let (t19, t3) = self.pow22501();
        let t20 = t19.pow2k(5);
        proof {
            lemma_fpow_fpow(x, 1809251394333065553493296640760748560207343510400633813116524750123642650623nat, 32);
        }
        let t21 = t20.mul(&t3);
        proof {
            lemma_fmul_pows(x, 1809251394333065553493296640760748560207343510400633813116524750123642650623nat * 32, 11);
        }
        t21
    }

    /// Canonical 32-byte little-endian encoding.
    pub fn as_bytes(&self) -> (r: [u8; 32])
        ensures
            r@ == canonical_bytes(self@),
            le_nat(r@) == self@,
            r[31] <= 0x7f,
    {
        proof {
            use_type_invariant(self);
        }
        let r = fiat_to_bytes(&self.limbs);
        proof {
            lemma_canonical_bytes_unique(r@, self@);
        }
        r
    }

    /// Whether the canonical representative is odd.
    pub fn is_negative(&self) -> (r: bool)
        ensures
            r == fis_negative(self@),
    {
        let bytes = self.as_bytes();
        let b0: u8 = bytes[0];
        proof {
            lemma_le_nat_parity(bytes@);
            assert((b0 & 1 == 1) == (b0 % 2 == 1)) by (bit_vector);
        }
        b0 & 1 == 1
    }

    /// Equality of field values (by canonical encodings).
    pub fn ct_eq(&self, other: &FieldElement) -> (r: bool)
        ensures
            r == (self@ == other@),
    {
        let a = self.as_bytes();
        let b = other.as_bytes();
        let mut i: usize = 0;
        while i < 32
            invariant
                i <= 32,
                le_nat(a@) == self@,
                le_nat(b@) == other@,
                forall|j: int| 0 <= j < i ==> a[j] == b[j],
            decreases 32 - i,
        {
            if a[i] != b[i] {
                proof {
                    if self@ == other@ {
                        lemma_le_nat_injective(a@, b@);
                        assert(a@[i as int] == b@[i as int]);
                    }
                }
                return false;
            }
            i = i + 1;
        }
        assert(a@ =~= b@);
        true
    }

    /// Whether the value is 0.
    pub fn is_zero(&self) -> (r: bool)
        ensures
            r == (self@ == 0),
    {
        self.ct_eq(&Self::zero())
    }

    /// Computes a nonnegative square root of u/v when one exists; see
    /// `spec_sqrt_ratio_i` and `lemma_sqrt_ratio_i`.
    pub fn sqrt_ratio_i(u: &FieldElement, v: &FieldElement) -> (r: (bool, FieldElement))
        ensures
            r.0 == spec_sqrt_ratio_i(u@, v@).0,
            r.1@ == spec_sqrt_ratio_i(u@, v@).1,
    {
        let v3 = v.square().mul(v);
        let v7 = v3.square().mul(v);
        let r = u.mul(&v3).mul(&u.mul(&v7).pow_p58());
        let check = v.mul(&r.square());
        let i = Self::sqrt_m1();
        let neg_u = u.neg();
        let correct_sign_sqrt = check.ct_eq(u);
        let flipped_sign_sqrt = check.ct_eq(&neg_u);
        let flipped_sign_sqrt_i = check.ct_eq(&neg_u.mul(&i));
        let r_prime = i.mul(&r);
        let r1 = if flipped_sign_sqrt || flipped_sign_sqrt_i {
            r_prime
        } else {
            r
        };
        let r2 = if r1.is_negative() {
            r1.neg()
        } else {
            r1
        };
        (correct_sign_sqrt || flipped_sign_sqrt, r2)
    }

    /// Reads 32 bytes little-endian, ignoring the top bit (bit 255).
    pub fn from_bytes(bytes: &[u8; 32]) -> (r: FieldElement)
        ensures
            r@ == bytes_to_field(bytes@),
    {
        let mut b = *bytes;
        let hi: u8 = b[31];
        let top: u8 = hi & 0x7f;
        b[31] = top;
        assert(top <= 0x7f) by (bit_vector)
            requires
                top == hi & 0x7f,
        ;
        assert(b@ == bytes@.update(31, bytes@[31] & 0x7f));
        let l = fiat_from_bytes(&b);
        FieldElement { limbs: l }
    }
}


// ---------------------------------------------------------------------------
//  Congruences modulo p, and sqrt_ratio_i on non-squares
// ---------------------------------------------------------------------------
/// The exponent (p - 1) / 4.
pub open spec fn quarter() -> nat {
    14474011154664524427946373126085988481658748083205070504932198000989141204987nat
}

/// Congruence modulo p.
pub open spec fn eqm(x: int, y: int) -> bool {
    x % (p() as int) == y % (p() as int)
}

/// Congruences multiply.
pub proof fn lemma_eqm_mul(a: int, b: int, c: int, d: int)
    requires
        eqm(a, b),
        eqm(c, d),
    ensures
        eqm(a * c, b * d),
{
    lemma_mul_mod_noop(a, c, p() as int);
    lemma_mul_mod_noop(b, d, p() as int);
}

/// Congruences add.
pub proof fn lemma_eqm_add(a: int, b: int, c: int, d: int)
    requires
        eqm(a, b),
        eqm(c, d),
    ensures
        eqm(a + c, b + d),
{
    lemma_add_mod_noop(a, c, p() as int);
    lemma_add_mod_noop(b, d, p() as int);
}

/// A value is congruent to its remainder.
pub proof fn lemma_eqm_mod(x: int)
    ensures
        eqm(x % (p() as int), x),
{
    lemma_mod_twice(x, p() as int);
}

/// A product modulo p is congruent to the product of congruent values.
pub proof fn lemma_fmul_eqm(a: nat, b: nat, x: int, y: int)
    requires
        eqm(a as int, x),
        eqm(b as int, y),
    ensures
        eqm(fmul(a, b) as int, x * y),
{
    lemma_eqm_mod(a as int * b as int);
    lemma_eqm_mul(a as int, x, b as int, y);
}

/// The two definitions of powers agree.
pub proof fn lemma_ipow_pow(a: int, k: nat)
    ensures
        ipow(a, k) == pow(a, k),
    decreases k,
{
    reveal(pow);
    if k > 0 {
        lemma_ipow_pow(a, (k - 1) as nat);
    }
}

proof fn lemma_eqm_pow(a: int, b: int, k: nat)
    requires
        eqm(a, b),
    ensures
        eqm(pow(a, k), pow(b, k)),
{
    lemma_pow_mod_noop(a, k, p() as int);
    lemma_pow_mod_noop(b, k, p() as int);
}

/// What sqrt_ratio_i(1, x) checks is x^(7 (p - 1) / 4).
#[verifier::rlimit(80)]
#[verifier::spinoff_prover]
proof fn lemma_sqrt_ratio_check_pow(x: nat)
    requires
        x < p(),
    ensures
        ({
            let v3 = fmul(fsq(x), x);
            let v7 = fmul(fsq(v3), x);
            let r = fmul(fmul(1, v3), fpow(fmul(1, v7), p58()));
            eqm(fmul(x, fsq(r)) as int, pow(x as int, 7 * quarter()))
        }),
{
    let xi = x as int;
    let e58 = p58();
    let v3 = fmul(fsq(x), x);
    let v7 = fmul(fsq(v3), x);
    let r = fmul(fmul(1, v3), fpow(fmul(1, v7), p58()));
    lemma_fmul_eqm(x, x, xi, xi);
    lemma_fmul_eqm(fsq(x), x, xi * xi, xi);
    lemma_fmul_eqm(v3, v3, (xi * xi) * xi, (xi * xi) * xi);
    lemma_fmul_eqm(fsq(v3), x, ((xi * xi) * xi) * ((xi * xi) * xi), xi);
    // x^3 and x^7 as powers
    reveal_with_fuel(pow, 8);
    assert(pow(xi, 3) == (xi * xi) * xi) by (nonlinear_arith)
        requires
            pow(xi, 3) == xi * (xi * (xi * pow(xi, 0))),
            pow(xi, 0) == 1,
    ;
    assert(pow(xi, 7) == ((xi * xi) * xi) * ((xi * xi) * xi) * xi) by (nonlinear_arith)
        requires
            pow(xi, 7) == xi * (xi * (xi * (xi * (xi * (xi * (xi * pow(xi, 0))))))),
            pow(xi, 0) == 1,
    ;
    lemma_small_mod(v3, p());
    lemma_small_mod(v7, p());
    assert(fmul(1, v3) == v3);
    assert(fmul(1, v7) == v7);
    // fpow(v7, p58) = x^(7 p58)
    let f = fpow(v7, e58);
    lemma_eqm_pow(v7 as int, pow(xi, 7), e58);
    lemma_eqm_mod(pow(v7 as int, e58));
    lemma_pow_multiplies(xi, 7, e58);
    assert(eqm(f as int, pow(xi, 7 * e58)));
    lemma_fmul_eqm(v3, f, pow(xi, 3), pow(xi, 7 * e58));
    lemma_pow_adds(xi, 3, 7 * e58);
    let er = 3 + 7 * e58;
    assert(eqm(r as int, pow(xi, er)));
    lemma_fmul_eqm(r, r, pow(xi, er), pow(xi, er));
    lemma_pow_adds(xi, er, er);
    lemma_fmul_eqm(x, fsq(r), xi, pow(xi, er + er));
    lemma_pow1(xi);
    lemma_pow_adds(xi, 1, er + er);
    assert(1 + (er + er) == 7 * quarter());
}

/// sqrt(-1) squared is -1.
proof fn lemma_sqrt_m1_squared()
    ensures
        fsq(sqrt_m1()) == fneg(1),
{
    lemma_fneg_value(1);
}

/// -1 times sqrt(-1) is -sqrt(-1).
proof fn lemma_minus_sqrt_m1()
    ensures
        fmul(fneg(1), sqrt_m1()) == fneg(sqrt_m1()),
        fneg(sqrt_m1()) != sqrt_m1(),
        fneg(sqrt_m1()) != 1,
        fneg(sqrt_m1()) != fneg(1),
        sqrt_m1() != 1,
        sqrt_m1() != fneg(1),
{
    lemma_fneg_value(1);
    lemma_fneg_value(sqrt_m1());
}

/// When 1/x has no square root (x nonzero): the root r that
/// `sqrt_ratio_i(1, x)` returns satisfies x r^2 = sqrt(-1).
#[verifier::rlimit(80)]
#[verifier::spinoff_prover]
pub proof fn lemma_sqrt_ratio_i_nonsquare(x: nat)
    requires
        0 < x < p(),
        !spec_sqrt_ratio_i(1, x).0,
    ensures
        fmul(x, fsq(spec_sqrt_ratio_i(1, x).1)) == sqrt_m1(),
{
    crate::curve_prime::lemma_prime_curve();
    let m = p() as int;
    let xi = x as int;
    let e: nat = quarter();
    let v3 = fmul(fsq(x), x);
    let v7 = fmul(fsq(v3), x);
    let r = fmul(fmul(1, v3), fpow(fmul(1, v7), p58()));
    let check = fmul(x, fsq(r));
    lemma_sqrt_ratio_check_pow(x);
    // c = x^e, c^4 = x^(p-1) = 1
    let c = pow(xi, e);
    lemma_pow_multiplies(xi, e, 7);
    assert(eqm(check as int, pow(c, 7)));
    lemma_small_mod(x, p());
    lemma_fermat(p(), x);
    lemma_ipow_pow(xi, (p() - 1) as nat);
    assert(4 * e == p() - 1);
    lemma_pow_multiplies(xi, e, 4);
    assert(eqm(pow(c, 4), 1));
    // check^4 = c^28 = (c^4)^7 = 1
    lemma_eqm_pow(check as int, pow(c, 7), 4);
    lemma_pow_multiplies(c, 7, 4);
    lemma_pow_multiplies(c, 4, 7);
    lemma_eqm_pow(pow(c, 4), 1, 7);
    lemma_pow1(1);
    assert(pow(1, 7) == 1) by {
        vstd::arithmetic::power::lemma1_pow(7);
    }
    let ci = check as int;
    assert(eqm(pow(ci, 4), 1));
    reveal_with_fuel(pow, 5);
    assert(pow(ci, 4) == (ci * ci) * (ci * ci)) by (nonlinear_arith)
        requires
            pow(ci, 4) == ci * (ci * (ci * (ci * pow(ci, 0)))),
            pow(ci, 0) == 1,
    ;
    // d = check^2; d^2 = 1 = 1^2
    let d = fsq(check);
    lemma_fmul_eqm(check, check, ci, ci);
    lemma_fmul_eqm(d, d, ci * ci, ci * ci);
    lemma_small_mod(1, p());
    assert(fsq(d) == fsq(1));
    lemma_square_roots(d, 1);
    lemma_minus_sqrt_m1();
    if d == 1 {
        lemma_square_roots(check, 1);
        assert(false);
    }
    lemma_sqrt_m1_squared();
    assert(fsq(check) == fsq(sqrt_m1()));
    lemma_square_roots(check, sqrt_m1());
    let res = spec_sqrt_ratio_i(1, x);
    if check == sqrt_m1() {
        assert(res.1 == (if fis_negative(r) { fneg(r) } else { r }));
        lemma_fsq_fneg(r);
    } else {
        let r1 = fmul(sqrt_m1(), r);
        assert(check == fmul(fneg(1), sqrt_m1()));
        assert(res.1 == (if fis_negative(r1) { fneg(r1) } else { r1 }));
        lemma_fsq_fneg(r1);
        lemma_sqrt_m1_square(x, r);
        lemma_fneg_value(sqrt_m1());
        lemma_fneg_value(fneg(sqrt_m1()));
    }
}

} // verus!
