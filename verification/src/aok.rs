//! Parsing of set sizes, random permutations with their inverses, and the
//! arguments of knowledge of the two-sided PSU: a shuffle proof for known
//! content, an adapted shuffle proof, and a batched DDH proof, over Pedersen
//! commitments on Ed25519 points (handled as compressed encodings).
use vstd::prelude::*;
use crate::crypto::{blake2s256, push_bytes, spec_blake2s256};
use crate::curve::{
    ed_add, ed_msm, ed_mul, ed_mul_base, ed_sub, ed_valid, group_order, views,
    scalar_add, scalar_from_u64, scalar_invert, scalar_mul, scalar_neg, scalar_random,
    scalar_reduce, scalar_sub, scalar_values, seeded_scalars, spec_ed_add, spec_ed_msm, byte_values,
    spec_ed_mul, spec_ed_mul_base, spec_ed_sub, spec_ed_valid, spec_seeded_scalars,
};
use crate::field::{le_bytes, le_nat};
use crate::onesided::bytes32_eq;
use crate::random::random_index;

verus! {

// ---------------------------------------------------------------------------
//  Parsing "2^k", hexadecimal "0x.." and decimal sizes
// ---------------------------------------------------------------------------
/// `char::is_whitespace`: the Unicode White_Space property.
pub open spec fn is_whitespace(c: char) -> bool {
    let x = c as u32;
    ||| 9 <= x <= 13
    ||| x == 32
    ||| x == 0x85
    ||| x == 0xA0
    ||| x == 0x1680
    ||| 0x2000 <= x <= 0x200A
    ||| x == 0x2028
    ||| x == 0x2029
    ||| x == 0x202F
    ||| x == 0x205F
    ||| x == 0x3000
}

/// `str::trim_start`.
pub open spec fn trim_start(s: Seq<char>) -> Seq<char>
    decreases s.len(),
{
    if s.len() > 0 && is_whitespace(s[0]) {
        trim_start(s.drop_first())
    } else {
        s
    }
}

/// `str::trim_end`.
pub open spec fn trim_end(s: Seq<char>) -> Seq<char>
    decreases s.len(),
{
    if s.len() > 0 && is_whitespace(s.last()) {
        trim_end(s.drop_last())
    } else {
        s
    }
}

/// `str::trim`.
pub open spec fn trim(s: Seq<char>) -> Seq<char> {
    trim_end(trim_start(s))
}

/// `char::to_digit(radix)` for radix 10 or 16.
pub open spec fn digit_value(c: char, radix: nat) -> Option<nat> {
    let x = c as u32;
    if 48 <= x <= 57 {
        Some((x - 48) as nat)
    } else if radix == 16 && 97 <= x <= 102 {
        Some((x - 87) as nat)
    } else if radix == 16 && 65 <= x <= 70 {
        Some((x - 55) as nat)
    } else {
        None
    }
}

/// The value of a string of digits, or `None` if some character is not a digit.
pub open spec fn digits_value(s: Seq<char>, radix: nat) -> Option<nat>
    decreases s.len(),
{
    if s.len() == 0 {
        Some(0)
    } else {
        match (digits_value(s.drop_last(), radix), digit_value(s.last(), radix)) {
            (Some(v), Some(d)) => Some(v * radix + d),
            _ => None,
        }
    }
}

/// `u32::from_str_radix` (and `str::parse::<u32>` for radix 10): an optional
/// `+`, then at least one digit, with a value that fits in 32 bits.
pub open spec fn spec_parse_u32(s: Seq<char>, radix: nat) -> Option<u32> {
    let body = if s.len() > 0 && s[0] == '+' {
        s.drop_first()
    } else {
        s
    };
    if body.len() == 0 {
        None
    } else {
        match digits_value(body, radix) {
            Some(v) => if v <= u32::MAX {
                Some(v as u32)
            } else {
                None
            },
            None => None,
        }
    }
}

/// Why a size string was rejected.
pub enum SizeError {
    BadExponent,
    ExponentTooLarge,
    NotAValidInteger,
}

/// What `parse_power_or_letter` returns: "2^k" gives 2^k (k parsed after
/// trimming, k < 32); otherwise the trimmed string is parsed as hexadecimal
/// after a "0x" prefix, or as decimal.
pub open spec fn spec_parse_power_or_letter(s: Seq<char>) -> Result<u32, SizeError> {
    if s.len() >= 2 && s[0] == '2' && s[1] == '^' {
        match spec_parse_u32(trim(s.skip(2)), 10) {
            None => Err(SizeError::BadExponent),
            Some(e) => if e < 32 {
                Ok(1u32 << e)
            } else {
                Err(SizeError::ExponentTooLarge)
            },
        }
    } else {
        let t = trim(s);
        let v = if t.len() >= 2 && t[0] == '0' && t[1] == 'x' {
            spec_parse_u32(t.skip(2), 16)
        } else {
            spec_parse_u32(t, 10)
        };
        match v {
            Some(x) => Ok(x),
            None => Err(SizeError::NotAValidInteger),
        }
    }
}

/// The message returned for each rejection.
pub open spec fn size_error_message(e: SizeError) -> Seq<char> {
    match e {
        SizeError::BadExponent => "bad exponent"@,
        SizeError::ExponentTooLarge => "exponent too large for u32"@,
        SizeError::NotAValidInteger => "not a valid integer"@,
    }
}

fn str_chars(s: &str) -> (r: Vec<char>)
    ensures
        r@ == s@,
{
    let n = s.unicode_len();
    let mut v: Vec<char> = Vec::new();
    let mut i: usize = 0;
    while i < n
        invariant
            n == s@.len(),
            i <= n,
            v@ == s@.take(i as int),
        decreases n - i,
    {
        v.push(s.get_char(i));
        assert(v@ =~= s@.take(i + 1));
        i = i + 1;
    }
    assert(v@ =~= s@);
    v
}

fn char_is_whitespace(c: char) -> (r: bool)
    ensures
        r == is_whitespace(c),
{
    let x = c as u32;
    (9 <= x && x <= 13) || x == 32 || x == 0x85 || x == 0xA0 || x == 0x1680 || (0x2000 <= x && x
        <= 0x200A) || x == 0x2028 || x == 0x2029 || x == 0x202F || x == 0x205F || x == 0x3000
}

proof fn lemma_trim_start_skip(s: Seq<char>, i: int)
    requires
        0 <= i <= s.len(),
        forall|j: int| 0 <= j < i ==> is_whitespace(s[j]),
    ensures
        trim_start(s) == trim_start(s.skip(i)),
    decreases i,
{
    if i > 0 {
        assert(s.drop_first().skip(i - 1) =~= s.skip(i));
        lemma_trim_start_skip(s.drop_first(), i - 1);
    } else {
        assert(s.skip(0) =~= s);
    }
}

proof fn lemma_trim_end_take(s: Seq<char>, k: int)
    requires
        0 <= k <= s.len(),
        forall|j: int| k <= j < s.len() ==> is_whitespace(s[j]),
    ensures
        trim_end(s) == trim_end(s.take(k)),
    decreases s.len() - k,
{
    if k < s.len() {
        assert(s.drop_last().take(k) =~= s.take(k));
        lemma_trim_end_take(s.drop_last(), k);
    } else {
        assert(s.take(k) =~= s);
    }
}

/// Bounds of the trimmed part of cs[from..]: trim(cs[from..]) = cs[a..b].
fn trim_bounds(cs: &Vec<char>, from: usize) -> (r: (usize, usize))
    requires
        from <= cs.len(),
    ensures
        from <= r.0 <= r.1 <= cs.len(),
        cs@.subrange(r.0 as int, r.1 as int) == trim(cs@.skip(from as int)),
{
    let mut a = from;
    while a < cs.len() && char_is_whitespace(cs[a])
        invariant
            from <= a <= cs.len(),
            forall|j: int| from <= j < a ==> is_whitespace(cs@[j]),
        decreases cs.len() - a,
    {
        a = a + 1;
    }
    let ghost s = cs@.skip(from as int);
    proof {
        lemma_trim_start_skip(s, a - from);
        assert(s.skip(a - from) =~= cs@.skip(a as int));
        let t = cs@.skip(a as int);
        if t.len() > 0 {
            assert(t[0] == cs@[a as int]);
        }
        assert(trim_start(t) == t);
    }
    let mut b = cs.len();
    while b > a && char_is_whitespace(cs[b - 1])
        invariant
            a <= b <= cs.len(),
            forall|j: int| b <= j < cs.len() ==> is_whitespace(cs@[j]),
        decreases b - a,
    {
        b = b - 1;
    }
    proof {
        let t = cs@.skip(a as int);
        lemma_trim_end_take(t, b - a);
        let u = t.take(b - a);
        assert(u =~= cs@.subrange(a as int, b as int));
        if u.len() > 0 {
            assert(u.last() == cs@[b - 1]);
        }
        assert(trim_end(u) == u);
    }
    (a, b)
}

fn char_digit(c: char, radix: u32) -> (r: Option<u32>)
    requires
        radix == 10 || radix == 16,
    ensures
        match r {
            Some(d) => digit_value(c, radix as nat) == Some(d as nat) && d < radix,
            None => digit_value(c, radix as nat) is None,
        },
{
    let x = c as u32;
    if 48 <= x && x <= 57 {
        Some(x - 48)
    } else if radix == 16 && 97 <= x && x <= 102 {
        Some(x - 87)
    } else if radix == 16 && 65 <= x && x <= 70 {
        Some(x - 55)
    } else {
        None
    }
}

/// Parses cs[from..to] as `u32::from_str_radix` does.
fn parse_u32(cs: &Vec<char>, from: usize, to: usize, radix: u32) -> (r: Option<u32>)
    requires
        from <= to <= cs.len(),
        radix == 10 || radix == 16,
    ensures
        r == spec_parse_u32(cs@.subrange(from as int, to as int), radix as nat),
{
    let ghost s = cs@.subrange(from as int, to as int);
    let mut start = from;
    if start < to && cs[start] == '+' {
        start = start + 1;
    }
    let ghost body = cs@.subrange(start as int, to as int);
    assert(body == (if s.len() > 0 && s[0] == '+' {
        s.drop_first()
    } else {
        s
    }));
    if start == to {
        return None;
    }
    let mut acc: u64 = 0;
    let mut overflow = false;
    let mut i = start;
    assert(cs@.subrange(start as int, start as int) =~= Seq::<char>::empty());
    while i < to
        invariant
            start < to,
            start <= i <= to <= cs.len(),
            radix == 10 || radix == 16,
            spec_parse_u32(cs@.subrange(from as int, to as int), radix as nat) == (match digits_value(
                cs@.subrange(start as int, to as int),
                radix as nat,
            ) {
                Some(v) => if v <= u32::MAX {
                    Some(v as u32)
                } else {
                    None
                },
                None => None,
            }),
            digits_value(cs@.subrange(start as int, i as int), radix as nat) is Some,
            !overflow ==> digits_value(cs@.subrange(start as int, i as int), radix as nat)
                == Some(acc as nat) && acc <= u32::MAX,
            overflow ==> digits_value(cs@.subrange(start as int, i as int), radix as nat)->0
                > u32::MAX,
        decreases to - i,
    {
        let ghost pre = cs@.subrange(start as int, i as int);
        let ghost next = cs@.subrange(start as int, i + 1);
        assert(next.drop_last() =~= pre);
        assert(next.last() == cs@[i as int]);
        match char_digit(cs[i], radix) {
            None => {
                proof {
                    lemma_digits_none_extends(cs@.subrange(start as int, to as int), (i - start) as int, radix as nat);
                }
                return None;
            },
            Some(d) => {
                if !overflow {
                    assert(acc * (radix as u64) <= 0xffff_ffffu64 * 16) by (nonlinear_arith)
                        requires
                            acc <= 0xffff_ffffu64,
                            radix <= 16,
                    ;
                    let nacc: u64 = acc * (radix as u64) + (d as u64);
                    if nacc > 0xffff_ffff {
                        overflow = true;
                    } else {
                        acc = nacc;
                    }
                } else {
                    proof {
                        let v = digits_value(pre, radix as nat)->0;
                        assert(v * radix + d >= v) by (nonlinear_arith)
                            requires
                                radix >= 1,
                                d >= 0,
                                v >= 0,
                        ;
                    }
                }
            },
        }
        i = i + 1;
    }
    assert(cs@.subrange(start as int, to as int) =~= body);
    if overflow {
        None
    } else {
        Some(acc as u32)
    }
}

/// A non-digit anywhere makes the whole digit string invalid.
proof fn lemma_digits_none_extends(s: Seq<char>, i: int, radix: nat)
    requires
        0 <= i < s.len(),
        digit_value(s[i], radix) is None,
    ensures
        digits_value(s, radix) is None,
    decreases s.len(),
{
    if i < s.len() - 1 {
        lemma_digits_none_extends(s.drop_last(), i, radix);
    }
}

/// Parses a set size: "2^k" (k < 32) gives 2^k, "0x.." is hexadecimal,
/// anything else decimal; surrounding whitespace is ignored (after "2^" too).
pub fn parse_power_or_letter(s: &str) -> (r: Result<u32, &'static str>)
    ensures
        match r {
            Ok(v) => spec_parse_power_or_letter(s@) == Ok::<u32, SizeError>(v),
            Err(msg) => spec_parse_power_or_letter(s@) is Err && msg@ == size_error_message(
                spec_parse_power_or_letter(s@)->Err_0,
            ),
        },
{
    let cs = str_chars(s);
    if cs.len() >= 2 && cs[0] == '2' && cs[1] == '^' {
        let (a, b) = trim_bounds(&cs, 2);
        match parse_u32(&cs, a, b, 10) {
            None => {
                return Err("bad exponent");
            },
            Some(e) => {
                if e < 32 {
                    return Ok(1u32 << e);
                } else {
                    return Err("exponent too large for u32");
                }
            },
        }
    }
    assert(cs@.skip(0) =~= cs@);
    let (a, b) = trim_bounds(&cs, 0);
    let v = if b - a >= 2 && cs[a] == '0' && cs[a + 1] == 'x' {
        proof {
            assert(cs@.subrange(a as int, b as int).skip(2) =~= cs@.subrange(a + 2, b as int));
        }
        parse_u32(&cs, a + 2, b, 16)
    } else {
        parse_u32(&cs, a, b, 10)
    };
    match v {
        Some(x) => Ok(x),
        None => Err("not a valid integer"),
    }
}

// ---------------------------------------------------------------------------
//  Random permutations
// ---------------------------------------------------------------------------
/// `perm` is a bijection of [0, n) and `inv` is its inverse.
pub open spec fn is_permutation_pair(perm: Seq<usize>, inv: Seq<usize>, n: nat) -> bool {
    &&& perm.len() == n
    &&& inv.len() == n
    &&& forall|k: int| 0 <= k < n ==> #[trigger] perm[k] < n
    &&& forall|k: int| 0 <= k < n ==> #[trigger] inv[k] < n
    &&& forall|k: int| 0 <= k < n ==> #[trigger] inv[perm[k] as int] == k
    &&& forall|k: int| 0 <= k < n ==> #[trigger] perm[inv[k] as int] == k
}

/// `perm` is a bijection of [0, perm.len()).
pub open spec fn is_permutation(perm: Seq<usize>) -> bool {
    exists|inv: Seq<usize>| #[trigger] is_permutation_pair(perm, inv, perm.len())
}

/// A uniformly shuffled permutation of [0, n) (Fisher-Yates) together with
/// its inverse.
pub fn random_permutation(n: usize) -> (r: (Vec<usize>, Vec<usize>))
    ensures
        is_permutation_pair(r.0@, r.1@, n as nat),
{
    let mut perm: Vec<usize> = Vec::with_capacity(n);
    let mut inv: Vec<usize> = Vec::with_capacity(n);
    let mut k: usize = 0;
    while k < n
        invariant
            k <= n,
            perm.len() == k,
            inv.len() == k,
            forall|m: int| 0 <= m < k ==> perm[m] == m && inv[m] == m,
        decreases n - k,
    {
        perm.push(k);
        inv.push(k);
        k = k + 1;
    }
    let mut i: usize = n;
    while i > 1
        invariant
            i <= n,
            is_permutation_pair(perm@, inv@, n as nat),
        decreases i,
    {
        i = i - 1;
        let j = random_index(i);
        let pi = perm[i];
        let pj = perm[j];
        let ghost perm0 = perm@;
        let ghost inv0 = inv@;
        assert(inv0[pi as int] == i && inv0[pj as int] == j);
        perm.set(i, pj);
        perm.set(j, pi);
        inv.set(pj, i);
        inv.set(pi, j);
        proof {
            assert forall|m: int| 0 <= m < n implies #[trigger] inv@[perm@[m] as int] == m by {
                if m != i && m != j {
                    assert(perm@[m] == perm0[m]);
                    assert(inv0[perm0[m] as int] == m);
                    assert(perm@[m] != pi && perm@[m] != pj);
                }
            }
            assert forall|m: int| 0 <= m < n implies #[trigger] perm@[inv@[m] as int] == m by {
                if m != pi && m != pj {
                    assert(inv@[m] == inv0[m]);
                    assert(perm0[inv0[m] as int] == m);
                    assert(inv@[m] != i && inv@[m] != j);
                }
            }
            assert forall|m: int| 0 <= m < n implies #[trigger] perm@[m] < n by {
                if m != i && m != j {
                    assert(perm@[m] == perm0[m]);
                }
            }
            assert forall|m: int| 0 <= m < n implies #[trigger] inv@[m] < n by {
                if m != pi && m != pj {
                    assert(inv@[m] == inv0[m]);
                }
            }
        }
    }
    (perm, inv)
}

// ---------------------------------------------------------------------------
//  Scalars modulo l and transcripts
// ---------------------------------------------------------------------------
/// a + b modulo l.
pub open spec fn sadd(a: nat, b: nat) -> nat {
    (a + b) % group_order()
}

/// a - b modulo l (a, b below l).
pub open spec fn ssub(a: nat, b: nat) -> nat {
    ((a + group_order() - b) % (group_order() as int)) as nat
}

/// a b modulo l.
pub open spec fn smul(a: nat, b: nat) -> nat {
    (a * b) % group_order()
}

/// -a modulo l (a below l).
pub open spec fn sneg(a: nat) -> nat {
    ((group_order() - a) % (group_order() as int)) as nat
}

/// Whether every scalar encoding is canonical.
pub open spec fn all_canonical(s: Seq<[u8; 32]>) -> bool {
    forall|i: int| 0 <= i < s.len() ==> le_nat(#[trigger] s[i]@) < group_order()
}

/// Whether every point encoding decompresses.
pub open spec fn all_valid(s: Seq<[u8; 32]>) -> bool {
    forall|i: int| 0 <= i < s.len() ==> spec_ed_valid(#[trigger] s[i]@)
}

/// The concatenation of byte strings.
pub open spec fn flat(s: Seq<Seq<u8>>) -> Seq<u8>
    decreases s.len(),
{
    if s.len() == 0 {
        Seq::empty()
    } else {
        flat(s.drop_last()) + s.last()
    }
}

/// The digest read as a scalar (`Scalar::from_bytes_mod_order`).
pub open spec fn digest_scalar(d: Seq<u8>) -> nat {
    le_nat(d) % group_order()
}

proof fn lemma_flat_push(s: Seq<[u8; 32]>, i: int)
    requires
        0 <= i < s.len(),
    ensures
        flat(views(s.take(i + 1))) == flat(views(s.take(i))) + s[i]@,
{
    assert(views(s.take(i + 1)).drop_last() =~= views(s.take(i)));
}

/// Appends the concatenation of 32-byte strings.
pub fn push_all(v: &mut Vec<u8>, s: &[[u8; 32]])
    ensures
        final(v)@ == old(v)@ + flat(views(s@)),
{
    let mut i: usize = 0;
    assert(views(s@.take(0)) =~= Seq::<Seq<u8>>::empty());
    while i < s.len()
        invariant
            i <= s.len(),
            v@ == old(v)@ + flat(views(s@.take(i as int))),
        decreases s.len() - i,
    {
        proof {
            lemma_flat_push(s@, i as int);
        }
        push_bytes(v, &s[i]);
        assert(v@ =~= old(v)@ + flat(views(s@.take(i + 1))));
        i = i + 1;
    }
    assert(s@.take(s.len() as int) =~= s@);
}

/// The digest of a transcript read as a canonical scalar.
fn hash_to_scalar(t: &Vec<u8>) -> (r: ([u8; 32], [u8; 32]))
    ensures
        r.0@ == spec_blake2s256(t@),
        le_nat(r.1@) == digest_scalar(spec_blake2s256(t@)),
        le_nat(r.1@) < group_order(),
{
    let h = blake2s256(t.as_slice());
    let x = scalar_reduce(&h);
    (h, x)
}

/// Whether two canonical encodings are equal.
fn bytes_equal(a: &[u8; 32], b: &[u8; 32]) -> (r: bool)
    ensures
        r == (a@ == b@),
{
    bytes32_eq(a, b)
}

// ---------------------------------------------------------------------------
//  Public parameters and Pedersen commitments
// ---------------------------------------------------------------------------
/// The commitment generators f_1..f_n, as point encodings.
pub struct PublicParams {
    f: Vec<[u8; 32]>,
}

impl PublicParams {
    #[verifier::type_invariant]
    spec fn inv(self) -> bool {
        all_valid(self.f@)
    }

    /// The generators.
    pub closed spec fn gens(self) -> Seq<[u8; 32]> {
        self.f@
    }

    /// Public parameters from given generators; `None` when one of them does
    /// not decompress.
    pub fn from_generators(f: Vec<[u8; 32]>) -> (r: Option<Self>)
        ensures
            r is Some <==> all_valid(f@),
            r matches Some(pp) ==> pp.gens() == f@,
    {
        let mut i: usize = 0;
        while i < f.len()
            invariant
                i <= f.len(),
                forall|k: int| 0 <= k < i ==> spec_ed_valid(#[trigger] f@[k]@),
            decreases f.len() - i,
        {
            if !ed_valid(&f[i]) {
                return None;
            }
            i = i + 1;
        }
        Some(PublicParams { f })
    }

    /// The generators.
    pub fn generators(&self) -> (r: &Vec<[u8; 32]>)
        ensures
            r@ == self.gens(),
            all_valid(r@),
    {
        proof {
            use_type_invariant(self);
        }
        &self.f
    }

    /// The number of generators.
    pub fn len(&self) -> (r: usize)
        ensures
            r == self.gens().len(),
    {
        self.f.len()
    }
}

/// Whether a point is s g for some scalar s (g the Ed25519 base point).
pub open spec fn is_base_multiple(p: Seq<u8>) -> bool {
    exists|s: nat| s < group_order() && #[trigger] spec_ed_mul_base(s) == p
}

/// n generators s g with fresh random scalars s.
pub fn setup_params(n: usize) -> (r: PublicParams)
    ensures
        r.gens().len() == n,
        forall|i: int| 0 <= i < n ==> #[trigger] is_base_multiple(r.gens()[i]@),
{
    let mut f: Vec<[u8; 32]> = Vec::with_capacity(n);
    let mut i: usize = 0;
    while i < n
        invariant
            i <= n,
            f.len() == i,
            all_valid(f@),
            forall|k: int| 0 <= k < i ==> #[trigger] is_base_multiple(f@[k]@),
        decreases n - i,
    {
        let s = scalar_random();
        let g = ed_mul_base(&s);
        f.push(g);
        proof {
            assert(f@[i as int]@ == spec_ed_mul_base(le_nat(s@)));
            assert(is_base_multiple(f@[i as int]@));
        }
        i = i + 1;
    }
    PublicParams { f }
}

/// The commitment sum m_i f_i + r g.
pub open spec fn spec_commit(f: Seq<[u8; 32]>, m: Seq<nat>, r: nat) -> Seq<u8> {
    spec_ed_add(spec_ed_msm(m, views(f)), spec_ed_mul_base(r))
}

/// Pedersen-style commitment to m under randomness r: sum m_i f_i + r g.
pub fn commit(pp: &PublicParams, m: &[[u8; 32]], r: &[u8; 32]) -> (c: [u8; 32])
    requires
        m.len() == pp.gens().len(),
        all_canonical(m@),
        le_nat(r@) < group_order(),
    ensures
        c@ == spec_commit(pp.gens(), scalar_values(m@), le_nat(r@)),
        spec_ed_valid(c@),
{
    let f = pp.generators();
    let a = ed_msm(m, f.as_slice());
    let b = ed_mul_base(r);
    ed_add(&a, &b)
}

/// The deterministic part of a commitment: sum m_i f_i.
pub fn commit_determ(pp: &PublicParams, m: &[[u8; 32]]) -> (c: [u8; 32])
    requires
        m.len() == pp.gens().len(),
        all_canonical(m@),
    ensures
        c@ == spec_ed_msm(scalar_values(m@), views(pp.gens())),
        spec_ed_valid(c@),
{
    let f = pp.generators();
    ed_msm(m, f.as_slice())
}

// ---------------------------------------------------------------------------
//  Shuffle proof for known content
// ---------------------------------------------------------------------------
/// The prover's preprocessed randomness d, Delta, r_d, r_Delta, r_a and the
/// commitments c_d and c_Delta.
pub struct KnownContentHint {
    pub d: Vec<[u8; 32]>,
    pub delta: Vec<[u8; 32]>,
    pub r_d: [u8; 32],
    pub r_delta: [u8; 32],
    pub r_a: [u8; 32],
    pub c_d: [u8; 32],
    pub c_delta: [u8; 32],
}

impl KnownContentHint {
    /// n values of d and Delta, all scalars canonical.
    pub open spec fn wf(self, n: nat) -> bool {
        &&& self.d.len() == n
        &&& self.delta.len() == n
        &&& all_canonical(self.d@)
        &&& all_canonical(self.delta@)
        &&& le_nat(self.r_d@) < group_order()
        &&& le_nat(self.r_delta@) < group_order()
        &&& le_nat(self.r_a@) < group_order()
    }
}

/// A non-interactive shuffle proof for known content.
#[derive(Clone)]
pub struct KnownContentProof {
    pub _c_d: [u8; 32],
    pub _c_delta: [u8; 32],
    pub _c_a: [u8; 32],
    pub f: Vec<[u8; 32]>,
    pub f_delta: Vec<[u8; 32]>,
    pub z: [u8; 32],
    pub z_delta: [u8; 32],
}

/// The vector committed to by c_Delta: -Delta_i d_(i+1), and 0 last.
pub open spec fn known_d2(d: Seq<nat>, delta: Seq<nat>) -> Seq<nat> {
    Seq::new(d.len(), |i: int| if i + 1 < d.len() { smul(sneg(delta[i]), d[i + 1]) } else { 0 })
}

/// The hint is well formed for n items and its commitments are those of d
/// and of `known_d2`, with Delta_0 = d_0 (for more than one item) and
/// Delta_(n-1) = 0.
pub open spec fn is_known_hint(pp: Seq<[u8; 32]>, hint: KnownContentHint, n: nat) -> bool {
    let d = scalar_values(hint.d@);
    let delta = scalar_values(hint.delta@);
    &&& hint.wf(n)
    &&& n >= 2 ==> delta[0] == d[0]
    &&& delta[n - 1] == 0
    &&& hint.c_d@ == spec_commit(pp, d, le_nat(hint.r_d@))
    &&& hint.c_delta@ == spec_commit(pp, known_d2(d, delta), le_nat(hint.r_delta@))
}

/// Fresh canonical scalars.
fn random_scalars(n: usize) -> (r: Vec<[u8; 32]>)
    ensures
        r.len() == n,
        all_canonical(r@),
{
    let mut v: Vec<[u8; 32]> = Vec::with_capacity(n);
    let mut i: usize = 0;
    while i < n
        invariant
            i <= n,
            v.len() == i,
            all_canonical(v@),
        decreases n - i,
    {
        v.push(scalar_random());
        i = i + 1;
    }
    v
}

/// The zero scalar.
fn scalar_zero() -> (r: [u8; 32])
    ensures
        le_nat(r@) == 0,
{
    scalar_from_u64(0)
}

/// The vector -Delta_i d_(i+1) (and 0 last).
fn compute_d2(d: &Vec<[u8; 32]>, delta: &Vec<[u8; 32]>) -> (r: Vec<[u8; 32]>)
    requires
        d.len() == delta.len(),
        all_canonical(d@),
        all_canonical(delta@),
    ensures
        r.len() == d.len(),
        all_canonical(r@),
        scalar_values(r@) == known_d2(scalar_values(d@), scalar_values(delta@)),
{
    let n = d.len();
    let mut v: Vec<[u8; 32]> = Vec::with_capacity(n);
    let mut i: usize = 0;
    while i < n
        invariant
            n == d.len(),
            d.len() == delta.len(),
            all_canonical(d@),
            all_canonical(delta@),
            i <= n,
            v.len() == i,
            all_canonical(v@),
            forall|k: int|
                0 <= k < i ==> le_nat(#[trigger] v@[k]@) == known_d2(
                    scalar_values(d@),
                    scalar_values(delta@),
                )[k],
        decreases n - i,
    {
        if i + 1 < n {
            let neg = scalar_neg(&delta[i]);
            v.push(scalar_mul(&neg, &d[i + 1]));
        } else {
            v.push(scalar_zero());
        }
        i = i + 1;
    }
    assert(scalar_values(v@) =~= known_d2(scalar_values(d@), scalar_values(delta@)));
    v
}

/// Preprocessing of the known-content proof: random d, Delta (with
/// Delta_0 = d_0 and Delta_(n-1) = 0), r_d, r_Delta, r_a and the
/// commitments to d and to `known_d2`.
pub fn prove_shuffle_known_preprocess(pp: &PublicParams, n: usize) -> (r: KnownContentHint)
    requires
        n >= 1,
        n == pp.gens().len(),
    ensures
        is_known_hint(pp.gens(), r, n as nat),
{
    let d = random_scalars(n);
    let r_d = scalar_random();
    let r_delta = scalar_random();
    let mut delta = random_scalars(n);
    delta.set(0, d[0]);
    delta.set(n - 1, scalar_zero());
    let r_a = scalar_random();
    let c_d = commit(pp, d.as_slice(), &r_d);
    let d2 = compute_d2(&d, &delta);
    let c_delta = commit(pp, d2.as_slice(), &r_delta);
    let hint = KnownContentHint { d, delta, r_d, r_delta, r_a, c_d, c_delta };
    proof {
        assert(scalar_values(hint.delta@)[n - 1] == 0);
    }
    hint
}

/// The digest hx of c and the encodings of m_1..m_n.
pub open spec fn known_hx(c: Seq<u8>, m: Seq<Seq<u8>>) -> Seq<u8> {
    spec_blake2s256(c + flat(m))
}

/// a_i: the product of m_(pi(j)) - x for j = 0..i.
pub open spec fn known_a(mv: Seq<nat>, pi: Seq<usize>, x: nat, i: int) -> nat
    decreases i + 1,
{
    if i < 0 {
        1
    } else {
        smul(known_a(mv, pi, x, i - 1), ssub(mv[pi[i] as int], x))
    }
}

/// The vector committed to by c_a.
pub open spec fn known_a2(mv: Seq<nat>, pi: Seq<usize>, x: nat, d: Seq<nat>, delta: Seq<nat>) -> Seq<nat> {
    Seq::new(
        d.len(),
        |i: int|
            if i + 1 < d.len() {
                ssub(
                    ssub(delta[i + 1], smul(ssub(mv[pi[i + 1] as int], x), delta[i])),
                    smul(known_a(mv, pi, x, i), d[i + 1]),
                )
            } else {
                0
            },
    )
}

/// The proof is the known-content proof of m, c, pi, r under the hint.
pub open spec fn is_known_proof(
    pp: Seq<[u8; 32]>,
    hint: KnownContentHint,
    m: Seq<Seq<u8>>,
    c: Seq<u8>,
    pi: Seq<usize>,
    r: nat,
    proof: KnownContentProof,
) -> bool {
    let n = m.len();
    let mv = byte_values(m);
    let d = scalar_values(hint.d@);
    let delta = scalar_values(hint.delta@);
    let hx = known_hx(c, m);
    let x = digest_scalar(hx);
    let a2 = known_a2(mv, pi, x, d, delta);
    let c_a = spec_commit(pp, a2, le_nat(hint.r_a@));
    let e = digest_scalar(spec_blake2s256(hint.c_d@ + hint.c_delta@ + c_a + hx));
    &&& proof._c_d == hint.c_d
    &&& proof._c_delta == hint.c_delta
    &&& proof._c_a@ == c_a
    &&& proof.f.len() == n
    &&& proof.f_delta.len() == n
    &&& forall|i: int|
        0 <= i < n ==> le_nat(#[trigger] proof.f@[i]@) == sadd(smul(e, mv[pi[i] as int]), d[i])
    &&& forall|i: int|
        0 <= i < n ==> le_nat(#[trigger] proof.f_delta@[i]@) == if i + 1 < n {
            ssub(smul(e, a2[i]), smul(delta[i], d[i + 1]))
        } else {
            0
        }
    &&& le_nat(proof.z@) == sadd(smul(e, r), le_nat(hint.r_d@))
    &&& le_nat(proof.z_delta@) == sadd(smul(e, le_nat(hint.r_a@)), le_nat(hint.r_delta@))
}

/// Whether pi indexes [0, n) and has n entries.
pub open spec fn indexes(pi: Seq<usize>, n: nat) -> bool {
    pi.len() == n && forall|i: int| 0 <= i < n ==> #[trigger] pi[i] < n
}

/// The products a_i = prod_(j<=i) (m_(pi(j)) - x).
fn compute_known_a(m: &[[u8; 32]], pi: &[usize], x: &[u8; 32]) -> (r: Vec<[u8; 32]>)
    requires
        indexes(pi@, m.len() as nat),
        all_canonical(m@),
        le_nat(x@) < group_order(),
    ensures
        r.len() == pi.len(),
        all_canonical(r@),
        forall|i: int|
            0 <= i < pi.len() ==> le_nat(#[trigger] r@[i]@) == known_a(
                scalar_values(m@),
                pi@,
                le_nat(x@),
                i,
            ),
{
    let mut a: Vec<[u8; 32]> = Vec::with_capacity(pi.len());
    let mut acc = scalar_from_u64(1);
    let mut i: usize = 0;
    while i < pi.len()
        invariant
            indexes(pi@, m.len() as nat),
            all_canonical(m@),
            le_nat(x@) < group_order(),
            i <= pi.len(),
            a.len() == i,
            all_canonical(a@),
            le_nat(acc@) < group_order(),
            le_nat(acc@) == known_a(scalar_values(m@), pi@, le_nat(x@), i - 1),
            forall|k: int|
                0 <= k < i ==> le_nat(#[trigger] a@[k]@) == known_a(
                    scalar_values(m@),
                    pi@,
                    le_nat(x@),
                    k,
                ),
        decreases pi.len() - i,
    {
        let j = pi[i];
        let diff = scalar_sub(&m[j], x);
        acc = scalar_mul(&acc, &diff);
        a.push(acc);
        i = i + 1;
    }
    a
}

/// The vector a2 committed to by c_a.
fn compute_known_a2(
    m: &[[u8; 32]],
    pi: &[usize],
    x: &[u8; 32],
    a: &Vec<[u8; 32]>,
    d: &Vec<[u8; 32]>,
    delta: &Vec<[u8; 32]>,
) -> (r: Vec<[u8; 32]>)
    requires
        indexes(pi@, m.len() as nat),
        d.len() == m.len(),
        delta.len() == m.len(),
        a.len() == m.len(),
        all_canonical(m@),
        all_canonical(d@),
        all_canonical(delta@),
        all_canonical(a@),
        le_nat(x@) < group_order(),
        forall|i: int|
            0 <= i < a.len() ==> le_nat(#[trigger] a@[i]@) == known_a(
                scalar_values(m@),
                pi@,
                le_nat(x@),
                i,
            ),
    ensures
        r.len() == m.len(),
        all_canonical(r@),
        scalar_values(r@) == known_a2(
            scalar_values(m@),
            pi@,
            le_nat(x@),
            scalar_values(d@),
            scalar_values(delta@),
        ),
{
    let n = m.len();
    let mut v: Vec<[u8; 32]> = Vec::with_capacity(n);
    let mut i: usize = 0;
    while i < n
        invariant
            n == m.len(),
            indexes(pi@, m.len() as nat),
            d.len() == n,
            delta.len() == n,
            a.len() == n,
            all_canonical(m@),
            all_canonical(d@),
            all_canonical(delta@),
            all_canonical(a@),
            le_nat(x@) < group_order(),
            forall|k: int|
                0 <= k < a.len() ==> le_nat(#[trigger] a@[k]@) == known_a(
                    scalar_values(m@),
                    pi@,
                    le_nat(x@),
                    k,
                ),
            i <= n,
            v.len() == i,
            all_canonical(v@),
            forall|k: int|
                0 <= k < i ==> le_nat(#[trigger] v@[k]@) == known_a2(
                    scalar_values(m@),
                    pi@,
                    le_nat(x@),
                    scalar_values(d@),
                    scalar_values(delta@),
                )[k],
        decreases n - i,
    {
        if i + 1 < n {
            let diff = scalar_sub(&m[pi[i + 1]], x);
            let t1 = scalar_mul(&diff, &delta[i]);
            let t2 = scalar_sub(&delta[i + 1], &t1);
            let t3 = scalar_mul(&a[i], &d[i + 1]);
            v.push(scalar_sub(&t2, &t3));
        } else {
            v.push(scalar_zero());
        }
        i = i + 1;
    }
    assert(scalar_values(v@) =~= known_a2(
        scalar_values(m@),
        pi@,
        le_nat(x@),
        scalar_values(d@),
        scalar_values(delta@),
    ));
    v
}

/// Prover: the non-interactive proof that c commits, under randomness r,
/// to m permuted by pi (position i holds m_(pi(i))).
pub fn prove_shuffle_known(
    pp: &PublicParams,
    hint: &KnownContentHint,
    m: &[[u8; 32]],
    c: &[u8; 32],
    pi: &[usize],
    r: &[u8; 32],
) -> (proof: KnownContentProof)
    requires
        m.len() >= 1,
        m.len() == pp.gens().len(),
        indexes(pi@, m.len() as nat),
        all_canonical(m@),
        hint.wf(m.len() as nat),
        le_nat(r@) < group_order(),
    ensures
        is_known_proof(pp.gens(), *hint, views(m@), c@, pi@, le_nat(r@), proof),
        all_canonical(proof.f@),
        all_canonical(proof.f_delta@),
        le_nat(proof.z@) < group_order(),
        le_nat(proof.z_delta@) < group_order(),
{
    let n = m.len();
    let mut t: Vec<u8> = Vec::new();
    push_bytes(&mut t, c);
    push_all(&mut t, m);
    let (hx, x) = hash_to_scalar(&t);
    let a = compute_known_a(m, pi, &x);
    let a2 = compute_known_a2(m, pi, &x, &a, &hint.d, &hint.delta);
    let c_a = commit(pp, a2.as_slice(), &hint.r_a);
    let mut t2: Vec<u8> = Vec::with_capacity(128);
    push_bytes(&mut t2, &hint.c_d);
    push_bytes(&mut t2, &hint.c_delta);
    push_bytes(&mut t2, &c_a);
    push_bytes(&mut t2, &hx);
    let (_he, e) = hash_to_scalar(&t2);
    let ghost mv = scalar_values(m@);
    assert(byte_values(views(m@)) =~= mv);
    let ghost dv = scalar_values(hint.d@);
    let ghost deltav = scalar_values(hint.delta@);
    let ghost a2v = scalar_values(a2@);
    let mut f: Vec<[u8; 32]> = Vec::with_capacity(n);
    let mut f_delta: Vec<[u8; 32]> = Vec::with_capacity(n);
    let mut i: usize = 0;
    while i < n
        invariant
            n == m.len(),
            indexes(pi@, m.len() as nat),
            all_canonical(m@),
            hint.wf(n as nat),
            a2.len() == n,
            all_canonical(a2@),
            le_nat(e@) < group_order(),
            mv == scalar_values(m@),
            dv == scalar_values(hint.d@),
            deltav == scalar_values(hint.delta@),
            a2v == scalar_values(a2@),
            i <= n,
            f.len() == i,
            f_delta.len() == i,
            all_canonical(f@),
            all_canonical(f_delta@),
            forall|k: int|
                0 <= k < i ==> le_nat(#[trigger] f@[k]@) == sadd(
                    smul(le_nat(e@), mv[pi@[k] as int]),
                    dv[k],
                ),
            forall|k: int|
                0 <= k < i ==> le_nat(#[trigger] f_delta@[k]@) == if k + 1 < n {
                    ssub(smul(le_nat(e@), a2v[k]), smul(deltav[k], dv[k + 1]))
                } else {
                    0
                },
        decreases n - i,
    {
        let em = scalar_mul(&e, &m[pi[i]]);
        f.push(scalar_add(&em, &hint.d[i]));
        if i + 1 < n {
            let ea = scalar_mul(&e, &a2[i]);
            let dd = scalar_mul(&hint.delta[i], &hint.d[i + 1]);
            f_delta.push(scalar_sub(&ea, &dd));
        } else {
            f_delta.push(scalar_zero());
        }
        i = i + 1;
    }
    let er = scalar_mul(&e, r);
    let z = scalar_add(&er, &hint.r_d);
    let era = scalar_mul(&e, &hint.r_a);
    let z_delta = scalar_add(&era, &hint.r_delta);
    proof {
        assert(t@ =~= c@ + flat(views(m@)));
        assert(t2@ =~= hint.c_d@ + hint.c_delta@ + c_a@ + hx@);
    }
    KnownContentProof { _c_d: hint.c_d, _c_delta: hint.c_delta, _c_a: c_a, f, f_delta, z, z_delta }
}

/// y is the inverse of e modulo l.
pub open spec fn is_inverse(y: nat, e: nat) -> bool {
    y < group_order() && (y * e) % group_order() == 1
}

/// Inverses modulo l are unique.
pub proof fn lemma_inverse_unique(e: nat, y1: nat, y2: nat)
    requires
        is_inverse(y1, e),
        is_inverse(y2, e),
    ensures
        y1 == y2,
{
    let l = group_order() as int;
    vstd::arithmetic::div_mod::lemma_mul_mod_noop_right(y1 as int, (e * y2) as int, l);
    vstd::arithmetic::div_mod::lemma_mul_mod_noop_left((y1 * e) as int, y2 as int, l);
    assert(y1 * (e * y2) == (y1 * e) * y2) by (nonlinear_arith);
    assert((e * y2) % group_order() == 1) by {
        vstd::arithmetic::mul::lemma_mul_is_commutative(e as int, y2 as int);
    }
    vstd::arithmetic::div_mod::lemma_small_mod(y1, group_order());
    vstd::arithmetic::div_mod::lemma_small_mod(y2, group_order());
}

/// Two 32-byte encodings are equal exactly when their values are.
proof fn lemma_bytes_eq_iff_values(a: [u8; 32], b: [u8; 32])
    ensures
        (a@ == b@) == (le_nat(a@) == le_nat(b@)),
{
    if le_nat(a@) == le_nat(b@) {
        crate::field::lemma_le_nat_injective(a@, b@);
    }
}

/// The challenge x of the known-content proof.
pub open spec fn known_x(c: Seq<u8>, m: Seq<Seq<u8>>) -> nat {
    digest_scalar(known_hx(c, m))
}

/// The challenge e of the known-content proof, as the verifier derives it.
pub open spec fn known_e(c: Seq<u8>, m: Seq<Seq<u8>>, proof: KnownContentProof) -> nat {
    digest_scalar(spec_blake2s256(proof._c_d@ + proof._c_delta@ + proof._c_a@ + known_hx(c, m)))
}

/// F_i: F_0 = f_0 - e x, F_i = (F_(i-1) (f_i - e x) + f_Delta_(i-1)) / e.
pub open spec fn known_f_chain(f: Seq<nat>, fd: Seq<nat>, e: nat, x: nat, einv: nat, i: int) -> nat
    decreases i,
{
    if i <= 0 {
        ssub(f[0], smul(e, x))
    } else {
        smul(
            sadd(smul(known_f_chain(f, fd, e, x, einv, i - 1), ssub(f[i], smul(e, x))), fd[i - 1]),
            einv,
        )
    }
}

/// The product of m_j - x for j < k.
pub open spec fn known_prod(mv: Seq<nat>, x: nat, k: int) -> nat
    decreases k,
{
    if k <= 0 {
        1
    } else {
        smul(known_prod(mv, x, k - 1), ssub(mv[k - 1], x))
    }
}

/// The batched commitment equation ((c e + c_d) alpha + c_a e + c_Delta =
/// commit(alpha f + f_Delta, alpha z + z_Delta)).
pub open spec fn known_points_check(
    pp: Seq<[u8; 32]>,
    m: Seq<Seq<u8>>,
    c: Seq<u8>,
    proof: KnownContentProof,
    alpha: nat,
) -> bool {
    let e = known_e(c, m, proof);
    let fv = scalar_values(proof.f@);
    let fdv = scalar_values(proof.f_delta@);
    let lhs = spec_ed_add(
        spec_ed_add(
            spec_ed_mul(spec_ed_add(spec_ed_mul(c, e), proof._c_d@), alpha),
            spec_ed_mul(proof._c_a@, e),
        ),
        proof._c_delta@,
    );
    let f_sum = Seq::new(fv.len(), |i: int| sadd(smul(alpha, fv[i]), fdv[i]));
    let z_sum = sadd(smul(le_nat(proof.z@), alpha), le_nat(proof.z_delta@));
    lhs == spec_commit(pp, f_sum, z_sum)
}

/// The product equation F_(n-1) = e prod (m_j - x), with einv the inverse of e.
pub open spec fn known_scalar_check(
    m: Seq<Seq<u8>>,
    c: Seq<u8>,
    proof: KnownContentProof,
    einv: nat,
) -> bool {
    let e = known_e(c, m, proof);
    let x = known_x(c, m);
    known_f_chain(
        scalar_values(proof.f@),
        scalar_values(proof.f_delta@),
        e,
        x,
        einv,
        m.len() - 1,
    ) == smul(e, known_prod(byte_values(m), x, m.len() as int))
}

/// What the verifier answers with weight alpha: true exactly when both
/// equations hold (when e has no inverse, only that true implies the
/// commitment equation).
pub open spec fn known_verify_outcome(
    pp: Seq<[u8; 32]>,
    m: Seq<Seq<u8>>,
    c: Seq<u8>,
    proof: KnownContentProof,
    alpha: nat,
    r: bool,
) -> bool {
    &&& r ==> known_points_check(pp, m, c, proof, alpha)
    &&& forall|einv: nat|
        is_inverse(einv, known_e(c, m, proof)) ==> (r == (known_points_check(pp, m, c, proof, alpha)
            && #[trigger] known_scalar_check(m, c, proof, einv)))
}

/// Whether a known-content proof has the shape the verifier reads: n
/// responses of each kind, canonical scalars, decompressing commitments.
pub open spec fn known_proof_wf(proof: KnownContentProof, n: nat) -> bool {
    &&& proof.f.len() == n
    &&& proof.f_delta.len() == n
    &&& all_canonical(proof.f@)
    &&& all_canonical(proof.f_delta@)
    &&& le_nat(proof.z@) < group_order()
    &&& le_nat(proof.z_delta@) < group_order()
    &&& spec_ed_valid(proof._c_d@)
    &&& spec_ed_valid(proof._c_delta@)
    &&& spec_ed_valid(proof._c_a@)
}

/// F_(n-1) computed from the responses.
fn compute_f_chain(f: &Vec<[u8; 32]>, fd: &Vec<[u8; 32]>, e: &[u8; 32], x: &[u8; 32], einv: &[u8; 32]) -> (r: [u8; 32])
    requires
        f.len() >= 1,
        fd.len() == f.len(),
        all_canonical(f@),
        all_canonical(fd@),
        le_nat(e@) < group_order(),
        le_nat(x@) < group_order(),
        le_nat(einv@) < group_order(),
    ensures
        le_nat(r@) == known_f_chain(
            scalar_values(f@),
            scalar_values(fd@),
            le_nat(e@),
            le_nat(x@),
            le_nat(einv@),
            f.len() - 1,
        ),
        le_nat(r@) < group_order(),
{
    let ex = scalar_mul(e, x);
    let mut acc = scalar_sub(&f[0], &ex);
    let mut i: usize = 1;
    while i < f.len()
        invariant
            1 <= i <= f.len(),
            fd.len() == f.len(),
            all_canonical(f@),
            all_canonical(fd@),
            le_nat(ex@) == smul(le_nat(e@), le_nat(x@)),
            le_nat(ex@) < group_order(),
            le_nat(einv@) < group_order(),
            le_nat(acc@) < group_order(),
            le_nat(acc@) == known_f_chain(
                scalar_values(f@),
                scalar_values(fd@),
                le_nat(e@),
                le_nat(x@),
                le_nat(einv@),
                i - 1,
            ),
        decreases f.len() - i,
    {
        let exp = scalar_sub(&f[i], &ex);
        let t = scalar_mul(&acc, &exp);
        let tmp = scalar_add(&t, &fd[i - 1]);
        acc = scalar_mul(&tmp, einv);
        i = i + 1;
    }
    acc
}

/// The product of m_j - x.
fn compute_known_prod(m: &[[u8; 32]], x: &[u8; 32]) -> (r: [u8; 32])
    requires
        all_canonical(m@),
        le_nat(x@) < group_order(),
    ensures
        le_nat(r@) == known_prod(scalar_values(m@), le_nat(x@), m.len() as int),
        le_nat(r@) < group_order(),
{
    let mut prod = scalar_from_u64(1);
    let mut i: usize = 0;
    while i < m.len()
        invariant
            i <= m.len(),
            all_canonical(m@),
            le_nat(x@) < group_order(),
            le_nat(prod@) < group_order(),
            le_nat(prod@) == known_prod(scalar_values(m@), le_nat(x@), i as int),
        decreases m.len() - i,
    {
        let diff = scalar_sub(&m[i], x);
        prod = scalar_mul(&prod, &diff);
        i = i + 1;
    }
    prod
}

/// The weighted sums alpha a_i + b_i.
fn weighted_sum(alpha: &[u8; 32], a: &Vec<[u8; 32]>, b: &Vec<[u8; 32]>) -> (r: Vec<[u8; 32]>)
    requires
        a.len() == b.len(),
        all_canonical(a@),
        all_canonical(b@),
        le_nat(alpha@) < group_order(),
    ensures
        r.len() == a.len(),
        all_canonical(r@),
        scalar_values(r@) == Seq::new(
            a.len() as nat,
            |i: int| sadd(smul(le_nat(alpha@), scalar_values(a@)[i]), scalar_values(b@)[i]),
        ),
{
    let mut v: Vec<[u8; 32]> = Vec::with_capacity(a.len());
    let mut i: usize = 0;
    while i < a.len()
        invariant
            i <= a.len(),
            a.len() == b.len(),
            all_canonical(a@),
            all_canonical(b@),
            le_nat(alpha@) < group_order(),
            v.len() == i,
            all_canonical(v@),
            forall|k: int|
                0 <= k < i ==> le_nat(#[trigger] v@[k]@) == sadd(
                    smul(le_nat(alpha@), le_nat(a@[k]@)),
                    le_nat(b@[k]@),
                ),
        decreases a.len() - i,
    {
        let t = scalar_mul(alpha, &a[i]);
        v.push(scalar_add(&t, &b[i]));
        i = i + 1;
    }
    assert(scalar_values(v@) =~= Seq::new(
        a.len() as nat,
        |i: int| sadd(smul(le_nat(alpha@), scalar_values(a@)[i]), scalar_values(b@)[i]),
    ));
    v
}

/// Verifier of the known-content proof with a given weight alpha.
pub(crate) fn verify_shuffle_known_with(
    pp: &PublicParams,
    m: &[[u8; 32]],
    c: &[u8; 32],
    proof: &KnownContentProof,
    alpha: &[u8; 32],
) -> (r: bool)
    requires
        m.len() >= 1,
        m.len() == pp.gens().len(),
        all_canonical(m@),
        spec_ed_valid(c@),
        known_proof_wf(*proof, m.len() as nat),
        le_nat(alpha@) < group_order(),
    ensures
        known_verify_outcome(pp.gens(), views(m@), c@, *proof, le_nat(alpha@), r),
{
    let mut t: Vec<u8> = Vec::new();
    push_bytes(&mut t, c);
    push_all(&mut t, m);
    let (hx, x) = hash_to_scalar(&t);
    let mut t2: Vec<u8> = Vec::with_capacity(128);
    push_bytes(&mut t2, &proof._c_d);
    push_bytes(&mut t2, &proof._c_delta);
    push_bytes(&mut t2, &proof._c_a);
    push_bytes(&mut t2, &hx);
    let (_he, e) = hash_to_scalar(&t2);
    proof {
        assert(t@ =~= c@ + flat(views(m@)));
        assert(t2@ =~= proof._c_d@ + proof._c_delta@ + proof._c_a@ + hx@);
    }
    let ce = ed_mul(c, &e);
    let s1 = ed_add(&ce, &proof._c_d);
    let s2 = ed_mul(&s1, alpha);
    let s3 = ed_mul(&proof._c_a, &e);
    let s4 = ed_add(&s2, &s3);
    let lhs = ed_add(&s4, &proof._c_delta);
    let za = scalar_mul(&proof.z, alpha);
    let z_sum = scalar_add(&za, &proof.z_delta);
    let f_sum = weighted_sum(alpha, &proof.f, &proof.f_delta);
    let rhs = commit(pp, f_sum.as_slice(), &z_sum);
    let points_ok = bytes_equal(&lhs, &rhs);
    proof {
        assert(points_ok == known_points_check(pp.gens(), views(m@), c@, *proof, le_nat(alpha@)));
    }
    if !points_ok {
        return false;
    }
    let e_inv = scalar_invert(&e);
    let f_chain = compute_f_chain(&proof.f, &proof.f_delta, &e, &x, &e_inv);
    let prod = compute_known_prod(m, &x);
    let ep = scalar_mul(&e, &prod);
    let res = bytes_equal(&f_chain, &ep);
    proof {
        lemma_bytes_eq_iff_values(f_chain, ep);
        assert(byte_values(views(m@)) =~= scalar_values(m@));
        assert forall|einv: nat| is_inverse(einv, known_e(c@, views(m@), *proof)) implies (res == (
        known_points_check(pp.gens(), views(m@), c@, *proof, le_nat(alpha@)) && #[trigger] known_scalar_check(
            views(m@),
            c@,
            *proof,
            einv,
        ))) by {
            if le_nat(e@) == 0 {
                assert(einv * 0 == 0);
            }
            lemma_inverse_unique(le_nat(e@), einv, le_nat(e_inv@));
        }
    }
    res
}

/// Verifier of the known-content proof: checks both equations, the
/// commitment equation batched with a random weight alpha.
pub fn verify_shuffle_known(pp: &PublicParams, m: &[[u8; 32]], c: &[u8; 32], proof: &KnownContentProof) -> (r: bool)
    requires
        m.len() >= 1,
        m.len() == pp.gens().len(),
        all_canonical(m@),
        spec_ed_valid(c@),
        known_proof_wf(*proof, m.len() as nat),
    ensures
        exists|alpha: nat|
            alpha < group_order() && #[trigger] known_verify_outcome(pp.gens(), views(m@), c@, *proof, alpha, r),
{
    let alpha = scalar_random();
    verify_shuffle_known_with(pp, m, c, proof, &alpha)
}

// ---------------------------------------------------------------------------
//  Adapted shuffle proof
// ---------------------------------------------------------------------------
/// The prover's preprocessed commitments c_pi, c_d, randomness d, r_d, r_pi,
/// r_z, u, u2, and the hint of the inner known-content proof.
pub struct AdaptedShuffleHint {
    pub c_pi: [u8; 32],
    pub c_d: [u8; 32],
    pub d: Vec<[u8; 32]>,
    pub r_d: [u8; 32],
    pub r_pi: [u8; 32],
    pub r_z: [u8; 32],
    pub u: [u8; 32],
    pub u2: [u8; 32],
    pub hint2: KnownContentHint,
}

impl AdaptedShuffleHint {
    /// n values of d, all scalars canonical, c_pi decompressing, and a
    /// well-formed inner hint.
    pub open spec fn wf(self, n: nat) -> bool {
        &&& spec_ed_valid(self.c_pi@)
        &&& self.d.len() == n
        &&& all_canonical(self.d@)
        &&& le_nat(self.r_d@) < group_order()
        &&& le_nat(self.r_pi@) < group_order()
        &&& le_nat(self.r_z@) < group_order()
        &&& le_nat(self.u@) < group_order()
        &&& le_nat(self.u2@) < group_order()
        &&& self.hint2.wf(n)
    }
}

/// A non-interactive proof that h is g permuted and raised to the secret
/// key of pk.
#[derive(Clone)]
pub struct AdaptedShuffleProof {
    pub _c_pi: [u8; 32],
    pub _c_d: [u8; 32],
    pub _g_d: [u8; 32],
    pub _c_z: [u8; 32],
    pub _g_u: [u8; 32],
    pub _c_u: [u8; 32],
    pub x: Vec<[u8; 32]>,
    pub v: [u8; 32],
    pub v2: [u8; 32],
    pub psi: KnownContentProof,
}

/// The indices of a permutation as scalars.
pub open spec fn pi_values(pi: Seq<usize>) -> Seq<nat> {
    pi.map_values(|i: usize| i as nat)
}

/// The 32-byte encodings of scalar values.
pub open spec fn scalar_bytes(v: Seq<nat>) -> Seq<Seq<u8>> {
    v.map_values(|x: nat| le_bytes(x, 32))
}

/// The hint's commitments are those of pi and d, and its inner hint is a
/// known-content hint.
pub open spec fn is_adapted_hint(pp: Seq<[u8; 32]>, pi: Seq<usize>, hint: AdaptedShuffleHint, n: nat) -> bool {
    &&& hint.wf(n)
    &&& hint.c_d@ == spec_commit(pp, scalar_values(hint.d@), le_nat(hint.r_d@))
    &&& hint.c_pi@ == spec_commit(pp, pi_values(pi), le_nat(hint.r_pi@))
    &&& is_known_hint(pp, hint.hint2, n)
}

/// Canonical encodings are the encodings of their values.
proof fn lemma_views_scalar_bytes(s: Seq<[u8; 32]>)
    ensures
        views(s) == scalar_bytes(scalar_values(s)),
{
    assert forall|i: int| 0 <= i < s.len() implies #[trigger] views(s)[i] == scalar_bytes(
        scalar_values(s),
    )[i] by {
        crate::field::lemma_bytes_of_value(s[i]@);
    }
    assert(views(s) =~= scalar_bytes(scalar_values(s)));
}

/// The indices as scalars.
fn index_scalars(pi: &[usize]) -> (r: Vec<[u8; 32]>)
    ensures
        r.len() == pi.len(),
        all_canonical(r@),
        scalar_values(r@) == pi_values(pi@),
{
    let mut v: Vec<[u8; 32]> = Vec::with_capacity(pi.len());
    let mut i: usize = 0;
    while i < pi.len()
        invariant
            i <= pi.len(),
            v.len() == i,
            all_canonical(v@),
            forall|k: int| 0 <= k < i ==> le_nat(#[trigger] v@[k]@) == pi@[k] as nat,
        decreases pi.len() - i,
    {
        let x = scalar_from_u64(pi[i] as u64);
        proof {
            assert(pi@[i as int] < group_order()) by {
                assert(usize::MAX < group_order());
            }
        }
        v.push(x);
        i = i + 1;
    }
    assert(scalar_values(v@) =~= pi_values(pi@));
    v
}

/// Preprocessing of the adapted shuffle proof: random d, r_d, r_pi, r_z, u,
/// u2, the commitments to pi and d, and the inner preprocessing.
pub fn prove_shuffle_adapted_preprocess(pp: &PublicParams, pi: &[usize], n: usize) -> (r: AdaptedShuffleHint)
    requires
        n >= 1,
        n == pp.gens().len(),
        pi.len() == n,
    ensures
        is_adapted_hint(pp.gens(), pi@, r, n as nat),
{
    let d = random_scalars(n);
    let r_d = scalar_random();
    let r_pi = scalar_random();
    let r_z = scalar_random();
    let u = scalar_random();
    let u2 = scalar_random();
    let c_d = commit(pp, d.as_slice(), &r_d);
    let pis = index_scalars(pi);
    let c_pi = commit(pp, pis.as_slice(), &r_pi);
    let hint2 = prove_shuffle_known_preprocess(pp, n);
    AdaptedShuffleHint { c_pi, c_d, d, r_d, r_pi, r_z, u, u2, hint2 }
}

/// The digest hz of pk, g, h and the first commitments.
pub open spec fn adapted_hz(
    pk: Seq<u8>,
    g: Seq<Seq<u8>>,
    h: Seq<Seq<u8>>,
    c_pi: Seq<u8>,
    c_d: Seq<u8>,
    g_d: Seq<u8>,
) -> Seq<u8> {
    spec_blake2s256(pk + flat(g) + flat(h) + c_pi + c_d + g_d)
}

/// The challenge delta from x, c_z, g_u, c_u and hz.
pub open spec fn adapted_delta(x: Seq<Seq<u8>>, c_z: Seq<u8>, g_u: Seq<u8>, c_u: Seq<u8>, hz: Seq<u8>) -> nat {
    digest_scalar(spec_blake2s256(flat(x) + c_z + g_u + c_u + hz))
}

/// z_i + delta i.
pub open spec fn z_rho(z: Seq<nat>, delta: nat) -> Seq<nat> {
    Seq::new(z.len(), |i: int| sadd(z[i], smul(delta, i as nat)))
}

/// The proof is the adapted shuffle proof of g, h under the secret s and
/// the permutation pi, with the hint's randomness.
pub open spec fn is_adapted_proof(
    pp: Seq<[u8; 32]>,
    pk: Seq<u8>,
    hint: AdaptedShuffleHint,
    g: Seq<[u8; 32]>,
    h: Seq<[u8; 32]>,
    s: nat,
    pi: Seq<usize>,
    proof: AdaptedShuffleProof,
) -> bool {
    let n = g.len();
    let d = scalar_values(hint.d@);
    let g_d = spec_ed_msm(d, views(g));
    let hz = adapted_hz(pk, views(g), views(h), hint.c_pi@, hint.c_d@, g_d);
    let z = spec_seeded_scalars(hz, n);
    let xv = Seq::new(n, |i: int| sadd(smul(s, z[pi[i] as int]), d[i]));
    let c_z = spec_commit(pp, Seq::new(n, |i: int| z[pi[i] as int]), le_nat(hint.r_z@));
    let g_u = spec_ed_mul_base(le_nat(hint.u@));
    let c_u = spec_ed_add(spec_ed_mul(c_z, sneg(le_nat(hint.u@))), spec_ed_mul_base(le_nat(hint.u2@)));
    let delta = adapted_delta(scalar_bytes(xv), c_z, g_u, c_u, hz);
    let c_rho = spec_ed_add(c_z, spec_ed_mul(hint.c_pi@, delta));
    let r_rho = sadd(le_nat(hint.r_z@), smul(le_nat(hint.r_pi@), delta));
    &&& proof._c_pi == hint.c_pi
    &&& proof._c_d == hint.c_d
    &&& proof._g_d@ == g_d
    &&& proof._c_z@ == c_z
    &&& proof._g_u@ == g_u
    &&& proof._c_u@ == c_u
    &&& proof.x.len() == n
    &&& scalar_values(proof.x@) == xv
    &&& le_nat(proof.v@) == sadd(smul(s, delta), le_nat(hint.u@))
    &&& le_nat(proof.v2@) == sadd(
        smul(sadd(smul(s, le_nat(hint.r_z@)), le_nat(hint.r_d@)), delta),
        le_nat(hint.u2@),
    )
    &&& is_known_proof(pp, hint.hint2, scalar_bytes(z_rho(z, delta)), c_rho, pi, r_rho, proof.psi)
}

/// x_i = s z_(pi(i)) + d_i.
fn compute_x(s: &[u8; 32], z: &Vec<[u8; 32]>, pi: &[usize], d: &Vec<[u8; 32]>) -> (r: Vec<[u8; 32]>)
    requires
        indexes(pi@, z.len() as nat),
        d.len() == z.len(),
        all_canonical(z@),
        all_canonical(d@),
        le_nat(s@) < group_order(),
    ensures
        r.len() == z.len(),
        all_canonical(r@),
        scalar_values(r@) == Seq::new(
            z.len() as nat,
            |i: int| sadd(smul(le_nat(s@), scalar_values(z@)[pi@[i] as int]), scalar_values(d@)[i]),
        ),
{
    let n = z.len();
    let mut v: Vec<[u8; 32]> = Vec::with_capacity(n);
    let mut i: usize = 0;
    while i < n
        invariant
            n == z.len(),
            indexes(pi@, z.len() as nat),
            d.len() == n,
            all_canonical(z@),
            all_canonical(d@),
            le_nat(s@) < group_order(),
            i <= n,
            v.len() == i,
            all_canonical(v@),
            forall|k: int|
                0 <= k < i ==> le_nat(#[trigger] v@[k]@) == sadd(
                    smul(le_nat(s@), le_nat(z@[pi@[k] as int]@)),
                    le_nat(d@[k]@),
                ),
        decreases n - i,
    {
        let t = scalar_mul(s, &z[pi[i]]);
        v.push(scalar_add(&t, &d[i]));
        i = i + 1;
    }
    assert(scalar_values(v@) =~= Seq::new(
        z.len() as nat,
        |i: int| sadd(smul(le_nat(s@), scalar_values(z@)[pi@[i] as int]), scalar_values(d@)[i]),
    ));
    v
}

/// z_(pi(i)).
fn pick(z: &Vec<[u8; 32]>, pi: &[usize]) -> (r: Vec<[u8; 32]>)
    requires
        indexes(pi@, z.len() as nat),
        all_canonical(z@),
    ensures
        r.len() == z.len(),
        all_canonical(r@),
        scalar_values(r@) == Seq::new(z.len() as nat, |i: int| scalar_values(z@)[pi@[i] as int]),
{
    let n = z.len();
    let mut v: Vec<[u8; 32]> = Vec::with_capacity(n);
    let mut i: usize = 0;
    while i < n
        invariant
            n == z.len(),
            indexes(pi@, z.len() as nat),
            all_canonical(z@),
            i <= n,
            v.len() == i,
            all_canonical(v@),
            forall|k: int| 0 <= k < i ==> #[trigger] v@[k] == z@[pi@[k] as int],
        decreases n - i,
    {
        v.push(z[pi[i]]);
        i = i + 1;
    }
    assert(scalar_values(v@) =~= Seq::new(z.len() as nat, |i: int| scalar_values(z@)[pi@[i] as int]));
    v
}

/// z_i + delta i.
fn compute_z_rho(z: &Vec<[u8; 32]>, delta: &[u8; 32]) -> (r: Vec<[u8; 32]>)
    requires
        all_canonical(z@),
        le_nat(delta@) < group_order(),
    ensures
        r.len() == z.len(),
        all_canonical(r@),
        scalar_values(r@) == z_rho(scalar_values(z@), le_nat(delta@)),
        views(r@) == scalar_bytes(z_rho(scalar_values(z@), le_nat(delta@))),
{
    let n = z.len();
    let mut v: Vec<[u8; 32]> = Vec::with_capacity(n);
    let mut i: usize = 0;
    while i < n
        invariant
            n == z.len(),
            all_canonical(z@),
            le_nat(delta@) < group_order(),
            i <= n,
            v.len() == i,
            all_canonical(v@),
            forall|k: int|
                0 <= k < i ==> le_nat(#[trigger] v@[k]@) == sadd(
                    le_nat(z@[k]@),
                    smul(le_nat(delta@), k as nat),
                ),
        decreases n - i,
    {
        let idx = scalar_from_u64(i as u64);
        proof {
            assert(i < group_order()) by {
                assert(usize::MAX < group_order());
            }
        }
        let t = scalar_mul(delta, &idx);
        v.push(scalar_add(&z[i], &t));
        i = i + 1;
    }
    assert(scalar_values(v@) =~= z_rho(scalar_values(z@), le_nat(delta@)));
    proof {
        lemma_views_scalar_bytes(v@);
    }
    v
}

/// Prover: the adapted shuffle proof that h_j = s g_(pi_inv(j)) for the
/// secret s of pk = s B, with the hint's preprocessed randomness.
pub fn prove_shuffle_adapted(
    pp: &PublicParams,
    pk: &[u8; 32],
    hint: &AdaptedShuffleHint,
    g: &[[u8; 32]],
    h: &[[u8; 32]],
    s: &[u8; 32],
    pi: &[usize],
) -> (proof: AdaptedShuffleProof)
    requires
        g.len() >= 1,
        g.len() == pp.gens().len(),
        indexes(pi@, g.len() as nat),
        all_valid(g@),
        hint.wf(g.len() as nat),
        le_nat(s@) < group_order(),
    ensures
        is_adapted_proof(pp.gens(), pk@, *hint, g@, h@, le_nat(s@), pi@, proof),
        proof.psi.f.len() == g.len(),
        proof.psi.f_delta.len() == g.len(),
{
    let n = g.len();
    let g_d = ed_msm(hint.d.as_slice(), g);
    let mut t: Vec<u8> = Vec::new();
    push_bytes(&mut t, pk);
    push_all(&mut t, g);
    push_all(&mut t, h);
    push_bytes(&mut t, &hint.c_pi);
    push_bytes(&mut t, &hint.c_d);
    push_bytes(&mut t, &g_d);
    let hz = blake2s256(t.as_slice());
    proof {
        assert(t@ =~= pk@ + flat(views(g@)) + flat(views(h@)) + hint.c_pi@ + hint.c_d@ + g_d@);
    }
    let z = seeded_scalars(&hz, n);
    assert(all_canonical(z@));
    let ghost zv = spec_seeded_scalars(hz@, n as nat);
    assert(scalar_values(z@) =~= zv);
    let x = compute_x(s, &z, pi, &hint.d);
    let zpi = pick(&z, pi);
    let c_z = commit(pp, zpi.as_slice(), &hint.r_z);
    let g_u = ed_mul_base(&hint.u);
    let neg_u = scalar_neg(&hint.u);
    let czu = ed_mul(&c_z, &neg_u);
    let bu2 = ed_mul_base(&hint.u2);
    let c_u = ed_add(&czu, &bu2);
    let mut t2: Vec<u8> = Vec::new();
    push_all(&mut t2, x.as_slice());
    push_bytes(&mut t2, &c_z);
    push_bytes(&mut t2, &g_u);
    push_bytes(&mut t2, &c_u);
    push_bytes(&mut t2, &hz);
    let (_hd, delta) = hash_to_scalar(&t2);
    proof {
        assert(t2@ =~= flat(views(x@)) + c_z@ + g_u@ + c_u@ + hz@);
        lemma_views_scalar_bytes(x@);
    }
    let sd = scalar_mul(s, &delta);
    let v = scalar_add(&sd, &hint.u);
    let srz = scalar_mul(s, &hint.r_z);
    let srzd = scalar_add(&srz, &hint.r_d);
    let srzdd = scalar_mul(&srzd, &delta);
    let v2 = scalar_add(&srzdd, &hint.u2);
    let cpd = ed_mul(&hint.c_pi, &delta);
    let c_rho = ed_add(&c_z, &cpd);
    let rpd = scalar_mul(&hint.r_pi, &delta);
    let r_rho = scalar_add(&hint.r_z, &rpd);
    let zr = compute_z_rho(&z, &delta);
    let psi = prove_shuffle_known(pp, &hint.hint2, zr.as_slice(), &c_rho, pi, &r_rho);
    AdaptedShuffleProof {
        _c_pi: hint.c_pi,
        _c_d: hint.c_d,
        _g_d: g_d,
        _c_z: c_z,
        _g_u: g_u,
        _c_u: c_u,
        x,
        v,
        v2,
        psi,
    }
}

/// Whether an adapted proof has the shape the verifier reads: n responses,
/// canonical scalars, decompressing commitments, and a well-formed inner proof.
pub open spec fn adapted_proof_wf(proof: AdaptedShuffleProof, n: nat) -> bool {
    &&& proof.x.len() == n
    &&& all_canonical(proof.x@)
    &&& le_nat(proof.v@) < group_order()
    &&& le_nat(proof.v2@) < group_order()
    &&& spec_ed_valid(proof._c_pi@)
    &&& spec_ed_valid(proof._c_d@)
    &&& spec_ed_valid(proof._g_d@)
    &&& spec_ed_valid(proof._c_z@)
    &&& spec_ed_valid(proof._g_u@)
    &&& spec_ed_valid(proof._c_u@)
    &&& known_proof_wf(proof.psi, n)
}

/// hz as the verifier derives it.
pub open spec fn adapted_hz_of(pk: Seq<u8>, g: Seq<[u8; 32]>, h: Seq<[u8; 32]>, proof: AdaptedShuffleProof) -> Seq<u8> {
    adapted_hz(pk, views(g), views(h), proof._c_pi@, proof._c_d@, proof._g_d@)
}

/// The challenges z as the verifier derives them.
pub open spec fn adapted_z(pk: Seq<u8>, g: Seq<[u8; 32]>, h: Seq<[u8; 32]>, proof: AdaptedShuffleProof) -> Seq<nat> {
    spec_seeded_scalars(adapted_hz_of(pk, g, h, proof), g.len())
}

/// The challenge delta as the verifier derives it.
pub open spec fn adapted_delta_of(pk: Seq<u8>, g: Seq<[u8; 32]>, h: Seq<[u8; 32]>, proof: AdaptedShuffleProof) -> nat {
    adapted_delta(views(proof.x@), proof._c_z@, proof._g_u@, proof._c_u@, adapted_hz_of(pk, g, h, proof))
}

/// c_rho = c_z + c_pi delta.
pub open spec fn adapted_c_rho(pk: Seq<u8>, g: Seq<[u8; 32]>, h: Seq<[u8; 32]>, proof: AdaptedShuffleProof) -> Seq<u8> {
    spec_ed_add(proof._c_z@, spec_ed_mul(proof._c_pi@, adapted_delta_of(pk, g, h, proof)))
}

/// The encodings of z_rho, the content of the inner proof.
pub open spec fn adapted_zr(pk: Seq<u8>, g: Seq<[u8; 32]>, h: Seq<[u8; 32]>, proof: AdaptedShuffleProof) -> Seq<Seq<u8>> {
    scalar_bytes(z_rho(adapted_z(pk, g, h, proof), adapted_delta_of(pk, g, h, proof)))
}

/// The group equations of the adapted proof, batched with weights a1, a2:
/// v B = g_u + pk delta; com1 a1 + com2 a2 + com3 = commit(a1 f + a2 f_Delta +
/// delta x, a1 z + a2 z_Delta); g_d = sum x_i g_i - sum z_i h_i.
pub open spec fn adapted_points_check(
    pp: Seq<[u8; 32]>,
    pk: Seq<u8>,
    g: Seq<[u8; 32]>,
    h: Seq<[u8; 32]>,
    proof: AdaptedShuffleProof,
    a1: nat,
    a2: nat,
) -> bool {
    let n = g.len();
    let delta = adapted_delta_of(pk, g, h, proof);
    let c_rho = adapted_c_rho(pk, g, h, proof);
    let psi = proof.psi;
    let psi_e = known_e(c_rho, adapted_zr(pk, g, h, proof), psi);
    let v = le_nat(proof.v@);
    let v2 = le_nat(proof.v2@);
    let check_v = spec_ed_mul_base(v) == spec_ed_add(proof._g_u@, spec_ed_mul(pk, delta));
    let com1 = spec_ed_add(spec_ed_mul(c_rho, psi_e), psi._c_d@);
    let com2 = spec_ed_add(spec_ed_mul(psi._c_a@, psi_e), psi._c_delta@);
    let com3 = spec_ed_sub(
        spec_ed_add(
            spec_ed_add(spec_ed_mul(proof._c_z@, v), spec_ed_mul(proof._c_d@, delta)),
            proof._c_u@,
        ),
        spec_ed_mul_base(v2),
    );
    let lhs = spec_ed_add(spec_ed_add(spec_ed_mul(com1, a1), spec_ed_mul(com2, a2)), com3);
    let fv = scalar_values(psi.f@);
    let fdv = scalar_values(psi.f_delta@);
    let xv = scalar_values(proof.x@);
    let f_sum = Seq::new(n, |i: int| sadd(sadd(smul(a1, fv[i]), smul(a2, fdv[i])), smul(xv[i], delta)));
    let r_sum = sadd(smul(le_nat(psi.z@), a1), smul(le_nat(psi.z_delta@), a2));
    let z = adapted_z(pk, g, h, proof);
    let rhs2 = spec_ed_msm(xv + Seq::new(n, |i: int| sneg(z[i])), views(g) + views(h));
    &&& check_v
    &&& lhs == spec_commit(pp, f_sum, r_sum)
    &&& spec_ed_sub(proof._g_d@, rhs2) == spec_ed_mul_base(0)
}

/// What the verifier answers with weights a1, a2: true exactly when the
/// inner product equation and the group equations hold (when the inner
/// challenge has no inverse, only that true implies the group equations).
pub open spec fn adapted_verify_outcome(
    pp: Seq<[u8; 32]>,
    pk: Seq<u8>,
    g: Seq<[u8; 32]>,
    h: Seq<[u8; 32]>,
    proof: AdaptedShuffleProof,
    a1: nat,
    a2: nat,
    r: bool,
) -> bool {
    let zr = adapted_zr(pk, g, h, proof);
    let c_rho = adapted_c_rho(pk, g, h, proof);
    &&& r ==> adapted_points_check(pp, pk, g, h, proof, a1, a2)
    &&& forall|einv: nat|
        is_inverse(einv, known_e(c_rho, zr, proof.psi)) ==> (r == (#[trigger] known_scalar_check(
            zr,
            c_rho,
            proof.psi,
            einv,
        ) && adapted_points_check(pp, pk, g, h, proof, a1, a2)))
}

/// a1 f_i + a2 f_Delta_i + x_i delta.
fn weighted_sum3(
    a1: &[u8; 32],
    a2: &[u8; 32],
    delta: &[u8; 32],
    f: &Vec<[u8; 32]>,
    fd: &Vec<[u8; 32]>,
    x: &Vec<[u8; 32]>,
) -> (r: Vec<[u8; 32]>)
    requires
        fd.len() == f.len(),
        x.len() == f.len(),
        all_canonical(f@),
        all_canonical(fd@),
        all_canonical(x@),
        le_nat(a1@) < group_order(),
        le_nat(a2@) < group_order(),
        le_nat(delta@) < group_order(),
    ensures
        r.len() == f.len(),
        all_canonical(r@),
        scalar_values(r@) == Seq::new(
            f.len() as nat,
            |i: int|
                sadd(
                    sadd(smul(le_nat(a1@), scalar_values(f@)[i]), smul(le_nat(a2@), scalar_values(fd@)[i])),
                    smul(scalar_values(x@)[i], le_nat(delta@)),
                ),
        ),
{
    let mut v: Vec<[u8; 32]> = Vec::with_capacity(f.len());
    let mut i: usize = 0;
    while i < f.len()
        invariant
            i <= f.len(),
            fd.len() == f.len(),
            x.len() == f.len(),
            all_canonical(f@),
            all_canonical(fd@),
            all_canonical(x@),
            le_nat(a1@) < group_order(),
            le_nat(a2@) < group_order(),
            le_nat(delta@) < group_order(),
            v.len() == i,
            all_canonical(v@),
            forall|k: int|
                0 <= k < i ==> le_nat(#[trigger] v@[k]@) == sadd(
                    sadd(smul(le_nat(a1@), le_nat(f@[k]@)), smul(le_nat(a2@), le_nat(fd@[k]@))),
                    smul(le_nat(x@[k]@), le_nat(delta@)),
                ),
        decreases f.len() - i,
    {
        let t1 = scalar_mul(a1, &f[i]);
        let t2 = scalar_mul(a2, &fd[i]);
        let t3 = scalar_mul(&x[i], delta);
        let s12 = scalar_add(&t1, &t2);
        v.push(scalar_add(&s12, &t3));
        i = i + 1;
    }
    assert(scalar_values(v@) =~= Seq::new(
        f.len() as nat,
        |i: int|
            sadd(
                sadd(smul(le_nat(a1@), scalar_values(f@)[i]), smul(le_nat(a2@), scalar_values(fd@)[i])),
                smul(scalar_values(x@)[i], le_nat(delta@)),
            ),
    ));
    v
}

/// x followed by the negations of z.
fn x_then_neg_z(x: &Vec<[u8; 32]>, z: &Vec<[u8; 32]>) -> (r: Vec<[u8; 32]>)
    requires
        all_canonical(x@),
        all_canonical(z@),
    ensures
        r.len() == x.len() + z.len(),
        all_canonical(r@),
        scalar_values(r@) == scalar_values(x@) + Seq::new(
            z.len() as nat,
            |i: int| sneg(scalar_values(z@)[i]),
        ),
{
    let mut v: Vec<[u8; 32]> = Vec::with_capacity(x.len());
    let mut i: usize = 0;
    while i < x.len()
        invariant
            i <= x.len(),
            all_canonical(x@),
            v@ == x@.take(i as int),
        decreases x.len() - i,
    {
        v.push(x[i]);
        i = i + 1;
        assert(v@ =~= x@.take(i as int));
    }
    assert(x@.take(x.len() as int) =~= x@);
    let mut j: usize = 0;
    while j < z.len()
        invariant
            j <= z.len(),
            all_canonical(x@),
            all_canonical(z@),
            v.len() == x.len() + j,
            forall|k: int| 0 <= k < x.len() ==> #[trigger] v@[k] == x@[k],
            forall|k: int|
                x.len() <= k < x.len() + j ==> le_nat(#[trigger] v@[k]@) == sneg(
                    le_nat(z@[k - x.len()]@),
                ),
            all_canonical(v@),
        decreases z.len() - j,
    {
        v.push(scalar_neg(&z[j]));
        j = j + 1;
    }
    assert(scalar_values(v@) =~= scalar_values(x@) + Seq::new(
        z.len() as nat,
        |i: int| sneg(scalar_values(z@)[i]),
    ));
    v
}

/// The concatenation of two lists of encodings.
fn concat32(a: &[[u8; 32]], b: &[[u8; 32]]) -> (r: Vec<[u8; 32]>)
    ensures
        r@ == a@ + b@,
{
    let mut v: Vec<[u8; 32]> = Vec::with_capacity(a.len());
    let mut i: usize = 0;
    while i < a.len()
        invariant
            i <= a.len(),
            v@ == a@.take(i as int),
        decreases a.len() - i,
    {
        v.push(a[i]);
        i = i + 1;
        assert(v@ =~= a@.take(i as int));
    }
    let mut j: usize = 0;
    while j < b.len()
        invariant
            j <= b.len(),
            v@ == a@ + b@.take(j as int),
        decreases b.len() - j,
    {
        v.push(b[j]);
        j = j + 1;
        assert(v@ =~= a@ + b@.take(j as int));
    }
    assert(b@.take(b.len() as int) =~= b@);
    v
}

/// Verifier of the adapted shuffle proof with given weights a1, a2.
pub(crate) fn verify_shuffle_adapted_with(
    pp: &PublicParams,
    pk: &[u8; 32],
    g: &[[u8; 32]],
    h: &[[u8; 32]],
    proof: &AdaptedShuffleProof,
    a1: &[u8; 32],
    a2: &[u8; 32],
) -> (r: bool)
    requires
        g.len() >= 1,
        g.len() == pp.gens().len(),
        h.len() == g.len(),
        spec_ed_valid(pk@),
        all_valid(g@),
        all_valid(h@),
        adapted_proof_wf(*proof, g.len() as nat),
        le_nat(a1@) < group_order(),
        le_nat(a2@) < group_order(),
    ensures
        adapted_verify_outcome(pp.gens(), pk@, g@, h@, *proof, le_nat(a1@), le_nat(a2@), r),
{
    let n = g.len();
    let mut t: Vec<u8> = Vec::new();
    push_bytes(&mut t, pk);
    push_all(&mut t, g);
    push_all(&mut t, h);
    push_bytes(&mut t, &proof._c_pi);
    push_bytes(&mut t, &proof._c_d);
    push_bytes(&mut t, &proof._g_d);
    let hz = blake2s256(t.as_slice());
    proof {
        assert(t@ =~= pk@ + flat(views(g@)) + flat(views(h@)) + proof._c_pi@ + proof._c_d@ + proof._g_d@);
    }
    let z = seeded_scalars(&hz, n);
    let mut t2: Vec<u8> = Vec::new();
    push_all(&mut t2, proof.x.as_slice());
    push_bytes(&mut t2, &proof._c_z);
    push_bytes(&mut t2, &proof._g_u);
    push_bytes(&mut t2, &proof._c_u);
    push_bytes(&mut t2, &hz);
    let (_hd, delta) = hash_to_scalar(&t2);
    proof {
        assert(t2@ =~= flat(views(proof.x@)) + proof._c_z@ + proof._g_u@ + proof._c_u@ + hz@);
    }
    let cpd = ed_mul(&proof._c_pi, &delta);
    let c_rho = ed_add(&proof._c_z, &cpd);
    let zr = compute_z_rho(&z, &delta);
    let ghost zrb = adapted_zr(pk@, g@, h@, *proof);
    assert(views(zr@) == zrb);
    let mut t3: Vec<u8> = Vec::new();
    push_bytes(&mut t3, &c_rho);
    push_all(&mut t3, zr.as_slice());
    let (psi_hx, psi_x) = hash_to_scalar(&t3);
    let mut t4: Vec<u8> = Vec::with_capacity(128);
    push_bytes(&mut t4, &proof.psi._c_d);
    push_bytes(&mut t4, &proof.psi._c_delta);
    push_bytes(&mut t4, &proof.psi._c_a);
    push_bytes(&mut t4, &psi_hx);
    let (_he, psi_e) = hash_to_scalar(&t4);
    proof {
        assert(t3@ =~= c_rho@ + flat(views(zr@)));
        assert(t4@ =~= proof.psi._c_d@ + proof.psi._c_delta@ + proof.psi._c_a@ + psi_hx@);
    }
    let e_inv = scalar_invert(&psi_e);
    let f_chain = compute_f_chain(&proof.psi.f, &proof.psi.f_delta, &psi_e, &psi_x, &e_inv);
    let prod = compute_known_prod(zr.as_slice(), &psi_x);
    let ep = scalar_mul(&psi_e, &prod);
    let scalar_ok = bytes_equal(&f_chain, &ep);
    proof {
        lemma_bytes_eq_iff_values(f_chain, ep);
        assert(byte_values(views(zr@)) =~= scalar_values(zr@));
        assert forall|einv: nat| is_inverse(einv, known_e(c_rho@, zrb, proof.psi)) implies #[trigger] known_scalar_check(
            zrb,
            c_rho@,
            proof.psi,
            einv,
        ) == scalar_ok by {
            if le_nat(psi_e@) == 0 {
                assert(einv * 0 == 0);
            }
            lemma_inverse_unique(le_nat(psi_e@), einv, le_nat(e_inv@));
        }
    }
    if !scalar_ok {
        return false;
    }
    let mbv = ed_mul_base(&proof.v);
    let pkd = ed_mul(pk, &delta);
    let rhs_v = ed_add(&proof._g_u, &pkd);
    if !bytes_equal(&mbv, &rhs_v) {
        return false;
    }
    let t5 = ed_mul(&c_rho, &psi_e);
    let com1 = ed_add(&t5, &proof.psi._c_d);
    let t6 = ed_mul(&proof.psi._c_a, &psi_e);
    let com2 = ed_add(&t6, &proof.psi._c_delta);
    let t7 = ed_mul(&proof._c_z, &proof.v);
    let t8 = ed_mul(&proof._c_d, &delta);
    let t9 = ed_add(&t7, &t8);
    let t10 = ed_add(&t9, &proof._c_u);
    let t11 = ed_mul_base(&proof.v2);
    let com3 = ed_sub(&t10, &t11);
    let l1 = ed_mul(&com1, a1);
    let l2 = ed_mul(&com2, a2);
    let l12 = ed_add(&l1, &l2);
    let lhs = ed_add(&l12, &com3);
    let za1 = scalar_mul(&proof.psi.z, a1);
    let zda2 = scalar_mul(&proof.psi.z_delta, a2);
    let r_sum = scalar_add(&za1, &zda2);
    let f_sum = weighted_sum3(a1, a2, &delta, &proof.psi.f, &proof.psi.f_delta, &proof.x);
    let rhs = commit(pp, f_sum.as_slice(), &r_sum);
    if !bytes_equal(&lhs, &rhs) {
        return false;
    }
    let scalars = x_then_neg_z(&proof.x, &z);
    let points = concat32(g, h);
    proof {
        assert(views(points@) =~= views(g@) + views(h@));
        assert(all_valid(points@));
    }
    let rhs2 = ed_msm(scalars.as_slice(), points.as_slice());
    // compared as points: the proof's encoding of g_d need not be canonical
    let diff = ed_sub(&proof._g_d, &rhs2);
    let zero = scalar_from_u64(0);
    let identity = ed_mul_base(&zero);
    bytes_equal(&diff, &identity)
}

/// Verifier of the adapted shuffle proof: the group equations are batched
/// with random weights a1, a2.
pub fn verify_shuffle_adapted(
    pp: &PublicParams,
    pk: &[u8; 32],
    g: &[[u8; 32]],
    h: &[[u8; 32]],
    proof: &AdaptedShuffleProof,
) -> (r: bool)
    requires
        g.len() >= 1,
        g.len() == pp.gens().len(),
        h.len() == g.len(),
        spec_ed_valid(pk@),
        all_valid(g@),
        all_valid(h@),
        adapted_proof_wf(*proof, g.len() as nat),
    ensures
        exists|a1: nat, a2: nat|
            a1 < group_order() && a2 < group_order() && #[trigger] adapted_verify_outcome(
                pp.gens(),
                pk@,
                g@,
                h@,
                *proof,
                a1,
                a2,
                r,
            ),
{
    let a1 = scalar_random();
    let a2 = scalar_random();
    verify_shuffle_adapted_with(pp, pk, g, h, proof, &a1, &a2)
}

// ---------------------------------------------------------------------------
//  Batched DDH proof
// ---------------------------------------------------------------------------
/// A non-interactive proof that h_i = s g_i for all i and pk = s B.
#[derive(Clone)]
pub struct BatchedDDHProof {
    pub _c: [u8; 32],
    pub z: [u8; 32],
}

/// The digest ha of pk, g and h.
pub open spec fn ddh_ha(pk: Seq<u8>, g: Seq<[u8; 32]>, h: Seq<[u8; 32]>) -> Seq<u8> {
    spec_blake2s256(pk + flat(views(g)) + flat(views(h)))
}

/// The weights a_i derived from ha.
pub open spec fn ddh_a(pk: Seq<u8>, g: Seq<[u8; 32]>, h: Seq<[u8; 32]>) -> Seq<nat> {
    spec_seeded_scalars(ddh_ha(pk, g, h), g.len())
}

/// The challenge delta derived from the commitment and ha.
pub open spec fn ddh_delta(pk: Seq<u8>, g: Seq<[u8; 32]>, h: Seq<[u8; 32]>, c: Seq<u8>) -> nat {
    digest_scalar(spec_blake2s256(c + ddh_ha(pk, g, h)))
}

/// The proof is the batched DDH proof of g, h under s with randomness r:
/// c = sum (a_i r) g_i + r B and z = delta s + r.
pub open spec fn is_ddh_proof(
    pk: Seq<u8>,
    g: Seq<[u8; 32]>,
    h: Seq<[u8; 32]>,
    s: nat,
    r: nat,
    proof: BatchedDDHProof,
) -> bool {
    let a = ddh_a(pk, g, h);
    let c = spec_ed_add(
        spec_ed_msm(Seq::new(g.len(), |i: int| smul(a[i], r)), views(g)),
        spec_ed_mul_base(r),
    );
    &&& proof._c@ == c
    &&& le_nat(proof.z@) == sadd(smul(ddh_delta(pk, g, h, c), s), r)
}

/// Some randomness r below l makes the proof the batched DDH proof of g, h under s.
pub open spec fn has_ddh_proof(pk: Seq<u8>, g: Seq<[u8; 32]>, h: Seq<[u8; 32]>, s: nat, proof: BatchedDDHProof) -> bool {
    exists|r: nat| r < group_order() && #[trigger] is_ddh_proof(pk, g, h, s, r, proof)
}

/// The verifier's equation c + pk delta - z B = sum (a_i z) g_i + sum (-a_i delta) h_i.
pub open spec fn ddh_check(pk: Seq<u8>, g: Seq<[u8; 32]>, h: Seq<[u8; 32]>, proof: BatchedDDHProof) -> bool {
    let a = ddh_a(pk, g, h);
    let delta = ddh_delta(pk, g, h, proof._c@);
    let z = le_nat(proof.z@);
    let lhs = spec_ed_sub(spec_ed_add(proof._c@, spec_ed_mul(pk, delta)), spec_ed_mul_base(z));
    let scalars = Seq::new(g.len(), |i: int| smul(a[i], z)) + Seq::new(
        g.len(),
        |i: int| smul(sneg(a[i]), delta),
    );
    lhs == spec_ed_msm(scalars, views(g) + views(h))
}

/// The transcript pk || g || h and its weights.
fn ddh_weights(pk: &[u8; 32], g: &[[u8; 32]], h: &[[u8; 32]]) -> (r: ([u8; 32], Vec<[u8; 32]>))
    ensures
        r.0@ == ddh_ha(pk@, g@, h@),
        r.1.len() == g.len(),
        all_canonical(r.1@),
        scalar_values(r.1@) == ddh_a(pk@, g@, h@),
{
    let mut t: Vec<u8> = Vec::new();
    push_bytes(&mut t, pk);
    push_all(&mut t, g);
    push_all(&mut t, h);
    let ha = blake2s256(t.as_slice());
    proof {
        assert(t@ =~= pk@ + flat(views(g@)) + flat(views(h@)));
    }
    let a = seeded_scalars(&ha, g.len());
    (ha, a)
}

/// The challenge delta from a commitment and ha.
fn ddh_challenge(c: &[u8; 32], ha: &[u8; 32]) -> (r: [u8; 32])
    ensures
        le_nat(r@) == digest_scalar(spec_blake2s256(c@ + ha@)),
        le_nat(r@) < group_order(),
{
    let mut t: Vec<u8> = Vec::with_capacity(64);
    push_bytes(&mut t, c);
    push_bytes(&mut t, ha);
    proof {
        assert(t@ =~= c@ + ha@);
    }
    let (_h, d) = hash_to_scalar(&t);
    d
}

/// The products a_i r.
fn scale_all(a: &Vec<[u8; 32]>, r: &[u8; 32]) -> (out: Vec<[u8; 32]>)
    requires
        all_canonical(a@),
        le_nat(r@) < group_order(),
    ensures
        out.len() == a.len(),
        all_canonical(out@),
        scalar_values(out@) == Seq::new(a.len() as nat, |i: int| smul(scalar_values(a@)[i], le_nat(r@))),
{
    let mut v: Vec<[u8; 32]> = Vec::with_capacity(a.len());
    let mut i: usize = 0;
    while i < a.len()
        invariant
            i <= a.len(),
            all_canonical(a@),
            le_nat(r@) < group_order(),
            v.len() == i,
            all_canonical(v@),
            forall|k: int| 0 <= k < i ==> le_nat(#[trigger] v@[k]@) == smul(le_nat(a@[k]@), le_nat(r@)),
        decreases a.len() - i,
    {
        v.push(scalar_mul(&a[i], r));
        i = i + 1;
    }
    assert(scalar_values(v@) =~= Seq::new(a.len() as nat, |i: int| smul(scalar_values(a@)[i], le_nat(r@))));
    v
}

/// The products (-a_i) d.
fn neg_scale_all(a: &Vec<[u8; 32]>, d: &[u8; 32]) -> (out: Vec<[u8; 32]>)
    requires
        all_canonical(a@),
        le_nat(d@) < group_order(),
    ensures
        out.len() == a.len(),
        all_canonical(out@),
        scalar_values(out@) == Seq::new(
            a.len() as nat,
            |i: int| smul(sneg(scalar_values(a@)[i]), le_nat(d@)),
        ),
{
    let mut v: Vec<[u8; 32]> = Vec::with_capacity(a.len());
    let mut i: usize = 0;
    while i < a.len()
        invariant
            i <= a.len(),
            all_canonical(a@),
            le_nat(d@) < group_order(),
            v.len() == i,
            all_canonical(v@),
            forall|k: int|
                0 <= k < i ==> le_nat(#[trigger] v@[k]@) == smul(sneg(le_nat(a@[k]@)), le_nat(d@)),
        decreases a.len() - i,
    {
        let na = scalar_neg(&a[i]);
        v.push(scalar_mul(&na, d));
        i = i + 1;
    }
    assert(scalar_values(v@) =~= Seq::new(
        a.len() as nat,
        |i: int| smul(sneg(scalar_values(a@)[i]), le_nat(d@)),
    ));
    v
}

/// Prover of the batched DDH proof with the randomness r.
pub(crate) fn batched_ddh_prove_with(
    pk: &[u8; 32],
    g: &[[u8; 32]],
    h: &[[u8; 32]],
    s: &[u8; 32],
    r: &[u8; 32],
) -> (proof: BatchedDDHProof)
    requires
        all_valid(g@),
        le_nat(s@) < group_order(),
        le_nat(r@) < group_order(),
    ensures
        is_ddh_proof(pk@, g@, h@, le_nat(s@), le_nat(r@), proof),
        le_nat(proof.z@) < group_order(),
        spec_ed_valid(proof._c@),
{
    let (ha, a) = ddh_weights(pk, g, h);
    let ar = scale_all(&a, r);
    let m = ed_msm(ar.as_slice(), g);
    let br = ed_mul_base(r);
    let c = ed_add(&m, &br);
    let delta = ddh_challenge(&c, &ha);
    let ds = scalar_mul(&delta, s);
    let z = scalar_add(&ds, r);
    BatchedDDHProof { _c: c, z }
}

/// Prover of the batched DDH proof, with fresh randomness.
pub fn batched_ddh_prove(pk: &[u8; 32], g: &[[u8; 32]], h: &[[u8; 32]], s: &[u8; 32]) -> (proof: BatchedDDHProof)
    requires
        all_valid(g@),
        le_nat(s@) < group_order(),
    ensures
        has_ddh_proof(pk@, g@, h@, le_nat(s@), proof),
        le_nat(proof.z@) < group_order(),
        spec_ed_valid(proof._c@),
{
    let r = scalar_random();
    let proof = batched_ddh_prove_with(pk, g, h, s, &r);
    assert(is_ddh_proof(pk@, g@, h@, le_nat(s@), le_nat(r@), proof));
    proof
}

/// Verifier of the batched DDH proof.
pub fn batched_ddh_verify(pk: &[u8; 32], g: &[[u8; 32]], h: &[[u8; 32]], proof: &BatchedDDHProof) -> (r: bool)
    requires
        h.len() == g.len(),
        spec_ed_valid(pk@),
        all_valid(g@),
        all_valid(h@),
        spec_ed_valid(proof._c@),
        le_nat(proof.z@) < group_order(),
    ensures
        r == ddh_check(pk@, g@, h@, *proof),
{
    let (ha, a) = ddh_weights(pk, g, h);
    let delta = ddh_challenge(&proof._c, &ha);
    let pkd = ed_mul(pk, &delta);
    let s1 = ed_add(&proof._c, &pkd);
    let bz = ed_mul_base(&proof.z);
    let lhs = ed_sub(&s1, &bz);
    let az = scale_all(&a, &proof.z);
    let nad = neg_scale_all(&a, &delta);
    let scalars = concat32(az.as_slice(), nad.as_slice());
    let points = concat32(g, h);
    proof {
        assert(views(points@) =~= views(g@) + views(h@));
        assert(all_valid(points@));
        assert(all_canonical(scalars@));
        assert(scalar_values(scalars@) =~= scalar_values(az@) + scalar_values(nad@));
    }
    let rhs2 = ed_msm(scalars.as_slice(), points.as_slice());
    bytes_equal(&lhs, &rhs2)
}

// ---------------------------------------------------------------------------
//  Checks of received encodings
// ---------------------------------------------------------------------------
/// Whether every point encoding decompresses.
pub fn points_valid(points: &[[u8; 32]]) -> (r: bool)
    ensures
        r == all_valid(points@),
{
    let mut i: usize = 0;
    while i < points.len()
        invariant
            i <= points.len(),
            forall|k: int| 0 <= k < i ==> spec_ed_valid(#[trigger] points@[k]@),
        decreases points.len() - i,
    {
        if !ed_valid(&points[i]) {
            return false;
        }
        i = i + 1;
    }
    true
}

/// Whether a scalar encoding is canonical (its value is below l).
pub fn scalar_is_canonical(b: &[u8; 32]) -> (r: bool)
    ensures
        r == (le_nat(b@) < group_order()),
{
    let reduced = scalar_reduce(b);
    proof {
        lemma_bytes_eq_iff_values(reduced, *b);
        if le_nat(b@) < group_order() {
            vstd::arithmetic::div_mod::lemma_small_mod(le_nat(b@), group_order());
        }
    }
    bytes_equal(&reduced, b)
}

/// Whether every scalar encoding is canonical.
pub fn scalars_canonical(s: &[[u8; 32]]) -> (r: bool)
    ensures
        r == all_canonical(s@),
{
    let mut i: usize = 0;
    while i < s.len()
        invariant
            i <= s.len(),
            forall|k: int| 0 <= k < i ==> le_nat(#[trigger] s@[k]@) < group_order(),
        decreases s.len() - i,
    {
        if !scalar_is_canonical(&s[i]) {
            return false;
        }
        i = i + 1;
    }
    true
}

/// Whether a known-content proof has the shape the verifier reads for n items.
pub fn known_proof_is_wf(proof: &KnownContentProof, n: usize) -> (r: bool)
    ensures
        r == known_proof_wf(*proof, n as nat),
{
    proof.f.len() == n && proof.f_delta.len() == n && scalars_canonical(proof.f.as_slice())
        && scalars_canonical(proof.f_delta.as_slice()) && scalar_is_canonical(&proof.z)
        && scalar_is_canonical(&proof.z_delta) && ed_valid(&proof._c_d) && ed_valid(
        &proof._c_delta,
    ) && ed_valid(&proof._c_a)
}

/// Whether an adapted shuffle proof has the shape the verifier reads for n items.
pub fn adapted_proof_is_wf(proof: &AdaptedShuffleProof, n: usize) -> (r: bool)
    ensures
        r == adapted_proof_wf(*proof, n as nat),
{
    proof.x.len() == n && scalars_canonical(proof.x.as_slice()) && scalar_is_canonical(&proof.v)
        && scalar_is_canonical(&proof.v2) && ed_valid(&proof._c_pi) && ed_valid(&proof._c_d)
        && ed_valid(&proof._g_d) && ed_valid(&proof._c_z) && ed_valid(&proof._g_u) && ed_valid(
        &proof._c_u,
    ) && known_proof_is_wf(&proof.psi, n)
}

/// Whether a batched DDH proof has the shape the verifier reads.
pub fn ddh_proof_is_wf(proof: &BatchedDDHProof) -> (r: bool)
    ensures
        r == (spec_ed_valid(proof._c@) && le_nat(proof.z@) < group_order()),
{
    ed_valid(&proof._c) && scalar_is_canonical(&proof.z)
}

// ---------------------------------------------------------------------------
//  The proofs on received encodings
// ---------------------------------------------------------------------------
/// `verify_shuffle_known` on received encodings: `None` when the sizes do
/// not fit or an encoding does not decode (where decoding the commitments
/// would fail), else the verifier's answer.
pub fn verify_shuffle_known_checked(
    pp: &PublicParams,
    m: &[[u8; 32]],
    c: &[u8; 32],
    proof: &KnownContentProof,
) -> (r: Option<bool>)
    ensures
        r is Some <==> (m.len() >= 1 && m.len() == pp.gens().len() && all_canonical(m@)
            && spec_ed_valid(c@) && known_proof_wf(*proof, m.len() as nat)),
        r matches Some(b) ==> exists|alpha: nat|
            alpha < group_order() && #[trigger] known_verify_outcome(pp.gens(), views(m@), c@, *proof, alpha, b),
{
    if !(m.len() >= 1 && m.len() == pp.len() && scalars_canonical(m) && ed_valid(c)
        && known_proof_is_wf(proof, m.len())) {
        return None;
    }
    let b = verify_shuffle_known(pp, m, c, proof);
    let r = Some(b);
    assert(r->0 == b);
    r
}

/// `prove_shuffle_adapted` on received points: `None` when the sizes do not
/// fit or a point of g does not decompress.
pub fn prove_shuffle_adapted_checked(
    pp: &PublicParams,
    pk: &[u8; 32],
    hint: &AdaptedShuffleHint,
    g: &[[u8; 32]],
    h: &[[u8; 32]],
    s: &[u8; 32],
    pi: &[usize],
) -> (proof: Option<AdaptedShuffleProof>)
    requires
        hint.wf(g.len() as nat),
        le_nat(s@) < group_order(),
    ensures
        proof is Some <==> (g.len() >= 1 && g.len() == pp.gens().len() && indexes(pi@, g.len() as nat)
            && all_valid(g@)),
        proof matches Some(p) ==> is_adapted_proof(pp.gens(), pk@, *hint, g@, h@, le_nat(s@), pi@, p),
{
    if !(g.len() >= 1 && g.len() == pp.len() && pi.len() == g.len() && points_valid(g)) {
        return None;
    }
    let mut i: usize = 0;
    while i < pi.len()
        invariant
            i <= pi.len(),
            pi.len() == g.len(),
            forall|k: int| 0 <= k < i ==> #[trigger] pi@[k] < g.len(),
        decreases pi.len() - i,
    {
        if pi[i] >= g.len() {
            return None;
        }
        i = i + 1;
    }
    Some(prove_shuffle_adapted(pp, pk, hint, g, h, s, pi))
}

/// `verify_shuffle_adapted` on received encodings: `None` when the sizes do
/// not fit or an encoding does not decode, else the verifier's answer.
pub fn verify_shuffle_adapted_checked(
    pp: &PublicParams,
    pk: &[u8; 32],
    g: &[[u8; 32]],
    h: &[[u8; 32]],
    proof: &AdaptedShuffleProof,
) -> (r: Option<bool>)
    ensures
        r is Some <==> (g.len() >= 1 && g.len() == pp.gens().len() && h.len() == g.len()
            && spec_ed_valid(pk@) && all_valid(g@) && all_valid(h@) && adapted_proof_wf(
            *proof,
            g.len() as nat,
        )),
        r matches Some(b) ==> exists|a1: nat, a2: nat|
            a1 < group_order() && a2 < group_order() && #[trigger] adapted_verify_outcome(
                pp.gens(),
                pk@,
                g@,
                h@,
                *proof,
                a1,
                a2,
                b,
            ),
{
    if !(g.len() >= 1 && g.len() == pp.len() && h.len() == g.len() && ed_valid(pk) && points_valid(g)
        && points_valid(h) && adapted_proof_is_wf(proof, g.len())) {
        return None;
    }
    let b = verify_shuffle_adapted(pp, pk, g, h, proof);
    let r = Some(b);
    assert(r->0 == b);
    r
}

/// `batched_ddh_prove` on received points: `None` when a point of g does not
/// decompress.
pub fn batched_ddh_prove_checked(pk: &[u8; 32], g: &[[u8; 32]], h: &[[u8; 32]], s: &[u8; 32]) -> (proof: Option<
    BatchedDDHProof,
>)
    requires
        le_nat(s@) < group_order(),
    ensures
        proof is Some <==> all_valid(g@),
        proof matches Some(p) ==> has_ddh_proof(pk@, g@, h@, le_nat(s@), p),
{
    if !points_valid(g) {
        return None;
    }
    Some(batched_ddh_prove(pk, g, h, s))
}

/// `batched_ddh_verify` on received encodings: `None` when the sizes do not
/// fit or an encoding does not decode, else the verifier's answer.
pub fn batched_ddh_verify_checked(pk: &[u8; 32], g: &[[u8; 32]], h: &[[u8; 32]], proof: &BatchedDDHProof) -> (r: Option<bool>)
    ensures
        r is Some <==> (h.len() == g.len() && spec_ed_valid(pk@) && all_valid(g@) && all_valid(h@)
            && spec_ed_valid(proof._c@) && le_nat(proof.z@) < group_order()),
        r matches Some(b) ==> b == ddh_check(pk@, g@, h@, *proof),
{
    if !(h.len() == g.len() && ed_valid(pk) && points_valid(g) && points_valid(h) && ddh_proof_is_wf(proof)) {
        return None;
    }
    Some(batched_ddh_verify(pk, g, h, proof))
}

} // verus!
