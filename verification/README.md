# m2psu

Private set union (PSU) protocols over Curve25519, with their building
blocks, written in Verus: each function of the library carries a contract
that Verus proves.

## Layout

- `src/field.rs`: GF(2^255 - 19) on five 51-bit limbs (fiat-crypto's
  arithmetic), with its square root of a ratio.
- `src/elligator.rs`: the Elligator-2 maps between field elements and
  Montgomery u-coordinates, the eight representatives of a point, and the
  round trip of the two maps.
- `src/primality.rs`, `src/curve_prime.rs`: Pocklington's criterion and
  trial division (on Fermat's little theorem, in `field.rs`), and a
  certificate that 2^255 - 19 is prime.
- `src/feistel.rs`, `src/prc.rs`, `src/crypto.rs`: a 256-bit Feistel
  permutation and a pseudorandom code over AES-128, and BLAKE2s.
- `src/curve.rs`: the Edwards and Montgomery operations of
  curve25519-dalek that the protocols use, on 32-byte encodings.
- `src/mapping.rs`: items hashed to curve points and recovered from them.
- `src/aok.rs`: Pedersen commitments, shuffle arguments (known content and
  adapted) and batched DDH proofs.
- `src/onesided.rs`, `src/oprf.rs`, `src/psu_semi.rs`: the parties of the
  one-sided-output protocols.
- `src/twosided.rs`, `src/two_sided.rs`: the parties of the malicious
  two-sided-output protocol and its rounds as a state machine.
- `src/f8b.rs`, `src/authbits.rs`, `src/channel.rs`: GF(2^8), authenticated
  bits, and message framing.
- `app/`: sockets, threads, serialization and benchmarks around the library.
- `tests/`: tests of the library.
