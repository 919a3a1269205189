//! Authenticated bits: the prover holds a bit b and a MAC M, the verifier a
//! key K and a global Delta, with M = K xor b Delta.  Linear operations are
//! local; opening sends (b, M) and the verifier checks M = K xor b Delta.
//!
//! The keys and MACs come from a correlated oblivious transfer, which the
//! caller runs: the functions here build the bits from its outputs and
//! check openings.
use vstd::prelude::*;
use crate::random::random_bytes16;

verus! {

/// x xor y on 16 bytes.
pub open spec fn xor_block(x: Seq<u8>, y: Seq<u8>) -> Seq<u8> {
    Seq::new(16, |i: int| x[i] ^ y[i])
}

/// K xor b Delta.
pub open spec fn expected_mac(key: Seq<u8>, bit: bool, delta: Seq<u8>) -> Seq<u8> {
    if bit {
        xor_block(key, delta)
    } else {
        key
    }
}

/// One party's part of an authenticated bit.
pub enum AuthBit {
    /// The prover's MAC and bit.
    Prover { mac: [u8; 16], bit: bool },
    /// The verifier's key.
    Verifier { key: [u8; 16] },
}

/// x xor y on 16 bytes.
pub fn xor16(x: &[u8; 16], y: &[u8; 16]) -> (r: [u8; 16])
    ensures
        r@ == xor_block(x@, y@),
{
    let mut out = [0u8; 16];
    let mut i: usize = 0;
    while i < 16
        invariant
            i <= 16,
            forall|j: int| 0 <= j < i ==> out[j] == x[j] ^ y[j],
        decreases 16 - i,
    {
        out[i] = x[i] ^ y[i];
        i = i + 1;
    }
    assert(out@ =~= xor_block(x@, y@));
    out
}

impl AuthBit {
    /// Whether this is the prover's part.
    pub open spec fn is_prover_part(self) -> bool {
        self is Prover
    }

    /// The verifier's key (`None` for the prover's part).
    pub fn key(&self) -> (r: Option<[u8; 16]>)
        ensures
            match *self {
                AuthBit::Verifier { key } => r == Some(key),
                AuthBit::Prover { .. } => r is None,
            },
    {
        match self {
            AuthBit::Verifier { key } => Some(*key),
            AuthBit::Prover { .. } => None,
        }
    }

    /// The prover's MAC (`None` for the verifier's part).
    pub fn mac(&self) -> (r: Option<[u8; 16]>)
        ensures
            match *self {
                AuthBit::Prover { mac, .. } => r == Some(mac),
                AuthBit::Verifier { .. } => r is None,
            },
    {
        match self {
            AuthBit::Prover { mac, .. } => Some(*mac),
            AuthBit::Verifier { .. } => None,
        }
    }

    /// The prover's bit (`None` for the verifier's part).
    pub fn bit(&self) -> (r: Option<bool>)
        ensures
            match *self {
                AuthBit::Prover { bit, .. } => r == Some(bit),
                AuthBit::Verifier { .. } => r is None,
            },
    {
        match self {
            AuthBit::Prover { bit, .. } => Some(*bit),
            AuthBit::Verifier { .. } => None,
        }
    }

    /// The authenticated xor of two bits of the same party: MACs and bits
    /// xored for the prover, keys xored for the verifier.
    pub fn bitxor(self, rhs: AuthBit) -> (r: AuthBit)
        requires
            self.is_prover_part() == rhs.is_prover_part(),
        ensures
            match (self, rhs, r) {
                (
                    AuthBit::Prover { mac: m1, bit: b1 },
                    AuthBit::Prover { mac: m2, bit: b2 },
                    AuthBit::Prover { mac, bit },
                ) => mac@ == xor_block(m1@, m2@) && bit == (b1 != b2),
                (AuthBit::Verifier { key: k1 }, AuthBit::Verifier { key: k2 }, AuthBit::Verifier { key }) => key@
                    == xor_block(k1@, k2@),
                _ => false,
            },
    {
        match (self, rhs) {
            (AuthBit::Prover { mac: m1, bit: b1 }, AuthBit::Prover { mac: m2, bit: b2 }) => {
                AuthBit::Prover { mac: xor16(&m1, &m2), bit: b1 != b2 }
            },
            (AuthBit::Verifier { key: k1 }, AuthBit::Verifier { key: k2 }) => {
                AuthBit::Verifier { key: xor16(&k1, &k2) }
            },
            (AuthBit::Prover { mac, bit }, AuthBit::Verifier { .. }) => AuthBit::Prover { mac, bit },
            (AuthBit::Verifier { key }, AuthBit::Prover { .. }) => AuthBit::Verifier { key },
        }
    }

    /// xor with assignment: the same as `bitxor`.
    pub fn bitxor_assign(&mut self, rhs: &AuthBit)
        requires
            old(self).is_prover_part() == rhs.is_prover_part(),
        ensures
            match (*old(self), *rhs, *final(self)) {
                (
                    AuthBit::Prover { mac: m1, bit: b1 },
                    AuthBit::Prover { mac: m2, bit: b2 },
                    AuthBit::Prover { mac, bit },
                ) => mac@ == xor_block(m1@, m2@) && bit == (b1 != b2),
                (AuthBit::Verifier { key: k1 }, AuthBit::Verifier { key: k2 }, AuthBit::Verifier { key }) => key@
                    == xor_block(k1@, k2@),
                _ => false,
            },
    {
        let new = match (&*self, rhs) {
            (AuthBit::Prover { mac: m1, bit: b1 }, AuthBit::Prover { mac: m2, bit: b2 }) => {
                AuthBit::Prover { mac: xor16(m1, m2), bit: *b1 != *b2 }
            },
            (AuthBit::Verifier { key: k1 }, AuthBit::Verifier { key: k2 }) => {
                AuthBit::Verifier { key: xor16(k1, k2) }
            },
            (AuthBit::Prover { mac, bit }, AuthBit::Verifier { .. }) => AuthBit::Prover { mac: *mac, bit: *bit },
            (AuthBit::Verifier { key }, AuthBit::Prover { .. }) => AuthBit::Verifier { key: *key },
        };
        *self = new;
    }
}

/// The prover's authenticated bits from its bits and the MACs that the
/// correlated transfer gave it, in order (extra bits or MACs are left out).
pub fn prover_auth_bits(bits: &[bool], macs: &[[u8; 16]]) -> (r: Vec<AuthBit>)
    ensures
        r.len() == if bits.len() < macs.len() { bits.len() } else { macs.len() },
        forall|i: int|
            0 <= i < r.len() ==> #[trigger] r@[i] == (AuthBit::Prover { mac: macs@[i], bit: bits@[i] }),
{
    let n = if bits.len() < macs.len() { bits.len() } else { macs.len() };
    let mut out: Vec<AuthBit> = Vec::with_capacity(n);
    let mut i: usize = 0;
    while i < n
        invariant
            n <= bits.len(),
            n <= macs.len(),
            i <= n,
            out.len() == i,
            forall|k: int| 0 <= k < i ==> #[trigger] out@[k] == (AuthBit::Prover { mac: macs@[k], bit: bits@[k] }),
        decreases n - i,
    {
        out.push(AuthBit::Prover { mac: macs[i], bit: bits[i] });
        i = i + 1;
    }
    out
}

/// The verifier's authenticated bits from the keys that the correlated
/// transfer gave it, in order.
pub fn verifier_auth_bits(keys: &[[u8; 16]]) -> (r: Vec<AuthBit>)
    ensures
        r.len() == keys.len(),
        forall|i: int| 0 <= i < r.len() ==> #[trigger] r@[i] == (AuthBit::Verifier { key: keys@[i] }),
{
    let mut out: Vec<AuthBit> = Vec::with_capacity(keys.len());
    let mut i: usize = 0;
    while i < keys.len()
        invariant
            i <= keys.len(),
            out.len() == i,
            forall|k: int| 0 <= k < i ==> #[trigger] out@[k] == (AuthBit::Verifier { key: keys@[k] }),
        decreases keys.len() - i,
    {
        out.push(AuthBit::Verifier { key: keys[i] });
        i = i + 1;
    }
    out
}

/// The opening of one authenticated bit, as the verifier receives it: a
/// bit byte (1 means true) and a MAC.
pub struct Opening {
    pub bit: u8,
    pub mac: [u8; 16],
}

/// The prover's openings of its bits (the bit as a byte, then the MAC);
/// `None` when one of them is a verifier's part.
pub fn openings(bits: &[AuthBit]) -> (r: Option<Vec<Opening>>)
    ensures
        r is Some <==> forall|i: int| 0 <= i < bits.len() ==> (#[trigger] bits@[i]).is_prover_part(),
        r matches Some(v) ==> v.len() == bits.len() && forall|i: int|
            0 <= i < bits.len() ==> match #[trigger] bits@[i] {
                AuthBit::Prover { mac, bit } => v@[i].mac == mac && v@[i].bit == (if bit { 1u8 } else { 0u8 }),
                AuthBit::Verifier { .. } => false,
            },
{
    let mut out: Vec<Opening> = Vec::with_capacity(bits.len());
    let mut i: usize = 0;
    while i < bits.len()
        invariant
            i <= bits.len(),
            out.len() == i,
            forall|k: int| 0 <= k < i ==> (#[trigger] bits@[k]).is_prover_part(),
            forall|k: int|
                0 <= k < i ==> match #[trigger] bits@[k] {
                    AuthBit::Prover { mac, bit } => out@[k].mac == mac && out@[k].bit == (if bit { 1u8 } else { 0u8 }),
                    AuthBit::Verifier { .. } => false,
                },
        decreases bits.len() - i,
    {
        match &bits[i] {
            AuthBit::Prover { mac, bit } => {
                out.push(Opening { bit: if *bit { 1u8 } else { 0u8 }, mac: *mac });
            },
            AuthBit::Verifier { .. } => {
                return None;
            },
        }
        i = i + 1;
    }
    Some(out)
}

/// Whether every opening checks against the verifier's key: M = K xor Delta
/// when the bit byte is 1, M = K otherwise.  Openings or keys beyond the
/// shorter list are not checked; a prover's part among the keys fails.
pub open spec fn openings_valid(delta: Seq<u8>, keys: Seq<AuthBit>, opened: Seq<Opening>) -> bool {
    forall|i: int|
        0 <= i < keys.len() && i < opened.len() ==> match #[trigger] keys[i] {
            AuthBit::Verifier { key } => opened[i].mac@ == expected_mac(key@, opened[i].bit == 1, delta),
            AuthBit::Prover { .. } => false,
        }
}

/// The verifier's check of the openings of its authenticated bits.
pub fn check_openings(delta: &[u8; 16], keys: &[AuthBit], opened: &[Opening]) -> (r: bool)
    ensures
        r == openings_valid(delta@, keys@, opened@),
{
    let n = if keys.len() < opened.len() { keys.len() } else { opened.len() };
    let mut validation = true;
    let mut i: usize = 0;
    while i < n
        invariant
            n <= keys.len(),
            n <= opened.len(),
            i <= n,
            validation == forall|k: int|
                0 <= k < i ==> match #[trigger] keys@[k] {
                    AuthBit::Verifier { key } => opened@[k].mac@ == expected_mac(key@, opened@[k].bit == 1, delta@),
                    AuthBit::Prover { .. } => false,
                },
        decreases n - i,
    {
        let ok = match &keys[i] {
            AuthBit::Verifier { key } => {
                let expected = if opened[i].bit == 1 {
                    xor16(key, delta)
                } else {
                    *key
                };
                bytes16_eq(&opened[i].mac, &expected)
            },
            AuthBit::Prover { .. } => false,
        };
        validation = validation && ok;
        i = i + 1;
    }
    validation
}

/// The prover's parts of its bits with the MACs that it received, in order
/// (as many as the shorter list).
pub open spec fn prover_parts(bits: Seq<bool>, macs: Seq<[u8; 16]>) -> Seq<AuthBit> {
    Seq::new(
        if bits.len() < macs.len() { bits.len() } else { macs.len() },
        |i: int| AuthBit::Prover { mac: macs[i], bit: bits[i] },
    )
}

/// The verifier's parts of the keys that it sent, in order.
pub open spec fn verifier_parts(keys: Seq<[u8; 16]>) -> Seq<AuthBit> {
    Seq::new(keys.len(), |i: int| AuthBit::Verifier { key: keys[i] })
}

/// Generates and opens the authenticated bits of one party: the verifier's
/// generator holds the global Delta, the prover's holds none.  The
/// correlated transfer itself runs outside: `generate` takes its output.
pub struct AuthBitGenerator {
    delta: Option<[u8; 16]>,
}

impl AuthBitGenerator {
    /// The verifier's Delta; `None` for the prover.
    pub closed spec fn spec_delta(self) -> Option<[u8; 16]> {
        self.delta
    }

    /// A generator for the verifier, with a Delta drawn at random, or for
    /// the prover.
    pub fn new(is_verifier: bool) -> (r: Self)
        ensures
            r.spec_delta() is Some <==> is_verifier,
    {
        if is_verifier {
            AuthBitGenerator::new_with_delta(Some(random_bytes16()))
        } else {
            AuthBitGenerator::new_with_delta(None)
        }
    }

    /// A generator with the given Delta (`None` for the prover).
    pub fn new_with_delta(delta: Option<[u8; 16]>) -> (r: Self)
        ensures
            r.spec_delta() == delta,
    {
        AuthBitGenerator { delta }
    }

    /// The verifier's Delta; `None` for the prover.
    pub fn delta(&self) -> (r: Option<[u8; 16]>)
        ensures
            r == self.spec_delta(),
    {
        self.delta
    }

    /// Appends the authenticated bits of one correlated transfer to `out`:
    /// for the prover, its bits with the MACs K xor b Delta that it
    /// received; for the verifier, the keys K that it sent (the bits are
    /// not used).
    pub fn generate(&self, bits: &[bool], transfer: &[[u8; 16]], out: &mut Vec<AuthBit>)
        ensures
            final(out)@ == old(out)@ + if self.spec_delta() is Some {
                verifier_parts(transfer@)
            } else {
                prover_parts(bits@, transfer@)
            },
    {
        let mut made = match self.delta {
            Some(_) => verifier_auth_bits(transfer),
            None => prover_auth_bits(bits, transfer),
        };
        proof {
            if self.delta is Some {
                assert(made@ =~= verifier_parts(transfer@));
            } else {
                assert(made@ =~= prover_parts(bits@, transfer@));
            }
        }
        out.append(&mut made);
    }

    /// The verifier's check of the openings that it received of its bits
    /// (`Some` of whether every one holds); `None` for the prover, whose
    /// openings are `openings(out)`.
    pub fn open(&self, out: &[AuthBit], received: &[Opening]) -> (r: Option<bool>)
        ensures
            match self.spec_delta() {
                Some(delta) => r == Some(openings_valid(delta@, out@, received@)),
                None => r is None,
            },
    {
        match &self.delta {
            Some(delta) => Some(check_openings(delta, out, received)),
            None => None,
        }
    }
}

/// Byte-wise equality of two 16-byte strings.
fn bytes16_eq(a: &[u8; 16], b: &[u8; 16]) -> (r: bool)
    ensures
        r == (a@ == b@),
{
    let mut i: usize = 0;
    while i < 16
        invariant
            i <= 16,
            forall|j: int| 0 <= j < i ==> a[j] == b[j],
        decreases 16 - i,
    {
        if a[i] != b[i] {
            assert(a@[i as int] != b@[i as int]);
            return false;
        }
        i = i + 1;
    }
    assert(a@ =~= b@);
    true
}

/// Law: openings of bits whose MACs are K xor b Delta pass the verifier's
/// check, for the verifier's keys K.
pub proof fn lemma_honest_openings_pass(delta: Seq<u8>, keys: Seq<AuthBit>, opened: Seq<Opening>)
    requires
        keys.len() == opened.len(),
        forall|i: int|
            0 <= i < keys.len() ==> match #[trigger] keys[i] {
                AuthBit::Verifier { key } => (opened[i].bit == 0 || opened[i].bit == 1) && opened[i].mac@
                    == expected_mac(key@, opened[i].bit == 1, delta),
                AuthBit::Prover { .. } => false,
            },
    ensures
        openings_valid(delta, keys, opened),
{
}

} // verus!
