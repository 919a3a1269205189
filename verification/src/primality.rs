//! Primality certificates: Pocklington's criterion, proved from Fermat's
//! little theorem, and trial division for small numbers.
use vstd::prelude::*;
use vstd::arithmetic::div_mod::*;
use vstd::arithmetic::power::*;
use crate::field::{ipow, is_prime, lemma_fermat, lemma_ipow_pow, lemma_prime_divides_product};

verus! {

/// The greatest common divisor, by Euclid's algorithm.
pub open spec fn gcd(x: nat, y: nat) -> nat
    decreases y,
{
    if y == 0 {
        x
    } else {
        gcd(y, x % y)
    }
}

proof fn lemma_gcd_divides(x: nat, y: nat)
    requires
        x > 0,
    ensures
        gcd(x, y) > 0,
        x % gcd(x, y) == 0,
        y % gcd(x, y) == 0,
    decreases y,
{
    if y == 0 {
        lemma_mod_self_0(x as int);
        lemma_small_mod(0, x);
    } else {
        lemma_gcd_divides(y, x % y);
        let g = gcd(x, y);
        // x = y (x / y) + x % y, and g divides y and x % y
        lemma_fundamental_div_mod(x as int, y as int);
        let a = y / g;
        let b = (x % y) / g;
        lemma_fundamental_div_mod(y as int, g as int);
        lemma_fundamental_div_mod((x % y) as int, g as int);
        assert(x == g * (a * (x / y) + b)) by (nonlinear_arith)
            requires
                x == y * (x / y) + x % y,
                y == g * a,
                x % y == g * b,
        ;
        lemma_mod_multiples_basic((a * (x / y) + b) as int, g as int);
        assert(g * (a * (x / y) + b) == (a * (x / y) + b) * g) by (nonlinear_arith);
    }
}

/// c^m is 1 modulo d.
pub open spec fn pow_is_one(c: int, m: nat, d: int) -> bool {
    pow(c, m) % d == 1
}

proof fn lemma_pow_one_mul(c: int, m: nat, k: nat, d: int)
    requires
        d > 1,
        pow_is_one(c, m, d),
    ensures
        pow_is_one(c, m * k, d),
{
    lemma_pow_multiplies(c, m, k);
    lemma_pow_mod_noop(pow(c, m), k, d);
    lemma1_pow(k);
    lemma_small_mod(1, d as nat);
}

proof fn lemma_pow_one_rem(c: int, x: nat, y: nat, d: int)
    requires
        d > 1,
        y > 0,
        pow_is_one(c, x, d),
        pow_is_one(c, y, d),
    ensures
        pow_is_one(c, x % y, d),
{
    lemma_fundamental_div_mod(x as int, y as int);
    let k = x / y;
    lemma_pow_one_mul(c, y, k, d);
    assert(x == y * k + x % y);
    lemma_pow_adds(c, y * k, x % y);
    lemma_mul_mod_noop_left(pow(c, y * k), pow(c, x % y), d);
    lemma_small_mod(1, d as nat);
    assert(1 * pow(c, x % y) == pow(c, x % y));
}

proof fn lemma_pow_one_gcd(c: int, x: nat, y: nat, d: int)
    requires
        d > 1,
        pow_is_one(c, x, d),
        pow_is_one(c, y, d),
    ensures
        pow_is_one(c, gcd(x, y), d),
    decreases y,
{
    if y > 0 {
        lemma_pow_one_rem(c, x, y, d);
        lemma_pow_one_gcd(c, y, x % y, d);
    }
}

/// When c^q = 1 and c != 1 modulo a prime d, for a prime q: q divides d - 1.
proof fn lemma_order_divides(c: nat, q: nat, d: nat)
    requires
        is_prime(q),
        is_prime(d),
        pow_is_one(c as int, q, d as int),
        c % d != 1,
        c % d != 0,
    ensures
        (d - 1) as nat % q == 0,
{
    let di = d as int;
    lemma_small_mod(c % d, d);
    lemma_fermat(d, c % d);
    lemma_ipow_pow((c % d) as int, (d - 1) as nat);
    lemma_pow_mod_noop(c as int, (d - 1) as nat, di);
    assert(pow_is_one(c as int, (d - 1) as nat, di));
    lemma_pow_one_gcd(c as int, q, (d - 1) as nat, di);
    let g = gcd(q, (d - 1) as nat);
    lemma_gcd_divides(q, (d - 1) as nat);
    if g == 1 {
        lemma_pow1(c as int);
        assert(false);
    }
    if g < q {
        assert(q % g != 0);
        assert(false);
    }
    lemma_fundamental_div_mod(q as int, g as int);
    assert(g <= q) by {
        if g > q {
            lemma_small_mod(q, g);
        }
    }
}

/// x = 1 modulo n, and f divides n: x = 1 modulo f.
proof fn lemma_one_mod_divisor(x: int, n: nat, f: nat)
    requires
        f > 1,
        n % f == 0,
        x % (n as int) == 1,
        n > 1,
    ensures
        x % (f as int) == 1,
{
    lemma_fundamental_div_mod(x, n as int);
    lemma_fundamental_div_mod(n as int, f as int);
    let k = x / (n as int);
    let j = n / f;
    assert(x == f * (j * k) + 1) by (nonlinear_arith)
        requires
            x == n * k + 1,
            n == f * j,
    ;
    lemma_mod_multiples_vanish(j * k, 1, f as int);
    lemma_small_mod(1, f);
}

/// One factor of a Pocklington certificate: when a^(n-1) = 1 modulo n,
/// n - 1 = q e with q prime, b = a^e modulo n, and u (b - 1) + v n = 1,
/// every prime factor f of n has f = 1 modulo q.
pub proof fn lemma_pocklington_factor(n: nat, a: nat, q: nat, e: nat, b: nat, u: int, v: int, f: nat)
    requires
        n > 1,
        is_prime(q),
        n - 1 == q * e,
        pow(a as int, (n - 1) as nat) % (n as int) == 1,
        b == pow(a as int, e) % (n as int),
        u * (b - 1) + v * n == 1,
        is_prime(f),
        n % f == 0,
    ensures
        (f - 1) as nat % q == 0,
{
    let c = pow(a as int, e);
    if a == 0 {
        lemma0_pow((n - 1) as nat);
        lemma_small_mod(0, n);
        assert(false);
    }
    lemma_pow_positive(a as int, e);
    let cn = c as nat;
    lemma_pow_multiplies(a as int, e, q);
    assert(e * q == n - 1) by (nonlinear_arith)
        requires
            n - 1 == q * e,
    ;
    lemma_one_mod_divisor(pow(c, q), n, f);
    assert(pow_is_one(cn as int, q, f as int));
    // c != 1 modulo f
    if cn % f == 1 {
        // f divides c - 1, and b - 1 = c - 1 - n k
        lemma_fundamental_div_mod(c, n as int);
        lemma_fundamental_div_mod(c, f as int);
        lemma_fundamental_div_mod(n as int, f as int);
        let k = c / (n as int);
        let kf = c / (f as int);
        let j = n / f;
        assert(u * (b - 1) + v * n == f * (u * (kf - j * k) + v * j)) by (nonlinear_arith)
            requires
                b == c - n * k,
                c == f * kf + 1,
                n == f * j,
        ;
        lemma_mod_multiples_basic(u * (kf - j * k) + v * j, f as int);
        assert(f * (u * (kf - j * k) + v * j) == (u * (kf - j * k) + v * j) * f) by (nonlinear_arith);
        lemma_small_mod(1, f);
        assert(false);
    }
    if cn % f == 0 {
        lemma_pow_mod_noop(c, q, f as int);
        lemma0_pow(q);
        lemma_small_mod(0, f);
        assert(false);
    }
    lemma_order_divides(cn, q, f);
}

/// The least divisor above 1 of n, below or at d.
proof fn lemma_least_divisor(n: nat, d: nat) -> (f: nat)
    requires
        1 < d,
        n % d == 0,
    ensures
        1 < f <= d,
        n % f == 0,
        forall|g: nat| 1 < g < f ==> #[trigger] (n % g) != 0,
    decreases d,
{
    if exists|g: nat| 1 < g < d && #[trigger] (n % g) == 0 {
        let g = choose|g: nat| 1 < g < d && #[trigger] (n % g) == 0;
        lemma_least_divisor(n, g)
    } else {
        d
    }
}

proof fn lemma_divides_trans(n: nat, f: nat, h: nat)
    requires
        h > 0,
        f > 0,
        n % f == 0,
        f % h == 0,
    ensures
        n % h == 0,
{
    lemma_fundamental_div_mod(n as int, f as int);
    lemma_fundamental_div_mod(f as int, h as int);
    let a = n / f;
    let b = f / h;
    assert(n == (a * b) * h) by (nonlinear_arith)
        requires
            n == f * a,
            f == h * b,
    ;
    lemma_mod_multiples_basic((a * b) as int, h as int);
}

/// The least divisor above 1 of n is prime.
proof fn lemma_least_divisor_prime(n: nat, f: nat)
    requires
        1 < f,
        n % f == 0,
        forall|g: nat| 1 < g < f ==> #[trigger] (n % g) != 0,
    ensures
        is_prime(f),
{
    assert forall|h: nat| 1 < h < f implies #[trigger] (f % h) != 0 by {
        if f % h == 0 {
            lemma_divides_trans(n, f, h);
        }
    }
}

/// Pocklington's criterion: n is prime when F^2 > n and every prime factor
/// f of n has f = 1 modulo F.
pub proof fn lemma_prime_by_factor(n: nat, ff: nat)
    requires
        n > 1,
        ff * ff > n,
        forall|f: nat| is_prime(f) && n % f == 0 ==> #[trigger] ((f - 1) as nat % ff) == 0,
    ensures
        is_prime(n),
{
    assert forall|d: nat| 1 < d < n implies #[trigger] (n % d) != 0 by {
        if n % d == 0 {
            let f = lemma_least_divisor(n, d);
            lemma_least_divisor_prime(n, f);
            // n = f m with m > 1, and m has a divisor above 1 that is at least f
            lemma_fundamental_div_mod(n as int, f as int);
            let m = n / f;
            assert(m > 1) by {
                if m <= 1 {
                    assert(n == f * m);
                    assert(f * m <= f) by (nonlinear_arith)
                        requires
                            m <= 1,
                    ;
                }
            }
            assert(m >= f) by {
                if m < f {
                    assert(n == m * f) by (nonlinear_arith)
                        requires
                            n == f * m,
                    ;
                    lemma_mod_multiples_basic(f as int, m as int);
                    assert(((f * m) as int) % (m as int) == 0) by {
                        assert(f * m == m * f) by (nonlinear_arith);
                    }
                }
            }
            assert(f * f <= n) by (nonlinear_arith)
                requires
                    n == f * m,
                    m >= f,
            ;
            // F divides f - 1, so f > F
            assert(((f - 1) as nat % ff) == 0);
            lemma_fundamental_div_mod((f - 1) as int, ff as int);
            assert(ff > 0) by {
                if ff == 0 {
                    assert(ff * ff == 0);
                }
            }
            let t = (f - 1) as nat / ff;
            assert(f - 1 == ff * t);
            assert(t >= 1) by {
                if t == 0 {
                    assert(ff * t == 0) by (nonlinear_arith)
                        requires
                            t == 0,
                    ;
                }
            }
            assert(f > ff) by (nonlinear_arith)
                requires
                    f - 1 == ff * t,
                    t >= 1,
                    ff > 0,
            ;
            assert(f * f > ff * ff) by (nonlinear_arith)
                requires
                    f > ff,
                    ff > 0,
            ;
        }
    }
}

/// Two distinct primes that divide m: their product divides m.
pub proof fn lemma_two_primes_divide(q1: nat, q2: nat, m: nat)
    requires
        is_prime(q1),
        is_prime(q2),
        q1 != q2,
        m % q1 == 0,
        m % q2 == 0,
    ensures
        m % (q1 * q2) == 0,
{
    lemma_fundamental_div_mod(m as int, q1 as int);
    let t = m / q1;
    assert(m == q1 * t);
    // q2 divides q1 t and not q1
    assert(q1 % q2 != 0) by {
        if q1 % q2 == 0 {
            if q2 < q1 {
                assert(1 < q2 < q1);
            } else {
                lemma_small_mod(q1, q2);
            }
        }
    }
    lemma_prime_divides_product(q2, q1, t);
    lemma_fundamental_div_mod(t as int, q2 as int);
    let s = t / q2;
    assert(m == (q1 * q2) * s) by (nonlinear_arith)
        requires
            m == q1 * t,
            t == q2 * s,
    ;
    assert(q1 * q2 > 0) by (nonlinear_arith)
        requires
            q1 > 1,
            q2 > 1,
    ;
    lemma_mod_multiples_basic(s as int, (q1 * q2) as int);
    assert((q1 * q2) * s == s * (q1 * q2)) by (nonlinear_arith);
}

/// Trial division: no k with 2 <= k and k^2 <= n divides n.
pub open spec fn trial(n: nat, k: nat) -> bool
    decreases n + 1 - k,
{
    if k * k > n || k > n {
        true
    } else {
        n % k != 0 && trial(n, k + 1)
    }
}

proof fn lemma_trial_sound(n: nat, k: nat, d: nat)
    requires
        trial(n, k),
        k <= d,
        d * d <= n,
    ensures
        n % d != 0,
    decreases n + 1 - k,
{
    if k * k > n {
        assert(k * k <= d * d) by (nonlinear_arith)
            requires
                k <= d,
        ;
    } else if k <= n {
        if k < d {
            lemma_trial_sound(n, k + 1, d);
        }
    } else {
        assert(d <= d * d) by (nonlinear_arith)
            requires
                d * d <= n,
                d >= k,
        ;
    }
}

/// A number that passes trial division from 2 is prime.
pub proof fn lemma_trial_prime(n: nat)
    requires
        n > 1,
        trial(n, 2),
    ensures
        is_prime(n),
{
    assert forall|d: nat| 1 < d < n implies #[trigger] (n % d) != 0 by {
        if n % d == 0 {
            lemma_fundamental_div_mod(n as int, d as int);
            let m = n / d;
            assert(n == d * m);
            assert(m > 1) by (nonlinear_arith)
                requires
                    n == d * m,
                    d < n,
            ;
            if d * d <= n {
                lemma_trial_sound(n, 2, d);
            } else {
                assert(m * m <= n) by (nonlinear_arith)
                    requires
                        n == d * m,
                        d * d > n,
                        m > 1,
                ;
                assert(n % m == 0) by {
                    lemma_mod_multiples_basic(d as int, m as int);
                    assert(d * m == m * d) by (nonlinear_arith);
                }
                lemma_trial_sound(n, 2, m);
            }
        }
    }
}


/// One step of square-and-multiply: from a^e modulo n to a^(2e + bit).
pub proof fn lemma_powmod_step(a: int, n: int, e: nat, x: int, bit: nat, y: int)
    requires
        n > 0,
        bit <= 1,
        pow(a, e) % n == x,
        y == (x * x * (if bit == 1 { a } else { 1 })) % n,
    ensures
        pow(a, 2 * e + bit) % n == y,
{
    let pe = pow(a, e);
    let pb = pow(a, bit);
    lemma_pow_adds(a, e, e);
    lemma_pow_adds(a, e + e, bit);
    assert(2 * e + bit == e + e + bit);
    if bit == 1 {
        lemma_pow1(a);
    } else {
        lemma_pow0(a);
    }
    assert(pow(a, 2 * e + bit) == (pe * pe) * pb);
    lemma_mul_mod_noop(pe * pe, pb, n);
    lemma_mul_mod_noop(pe, pe, n);
    lemma_mul_mod_noop(x * x, pb, n);
    lemma_mod_twice(x * x, n);
    lemma_mod_twice(pb, n);
    assert(x * x * pb == (x * x) * pb);
}
} // verus!
