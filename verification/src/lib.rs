//! Private set union (PSU) building blocks over Curve25519: Elligator-2
//! maps between field elements and Montgomery points, a 256-bit Feistel
//! permutation, and the parties of the PSU protocols.
pub mod field;
pub mod elligator;
pub mod crypto;
pub mod feistel;
pub mod curve;
pub mod mapping;
pub mod aok;
pub mod random;
pub mod twosided;
pub mod two_sided;
pub mod f8b;
pub mod onesided;
pub mod oprf;
pub mod psu_semi;
pub mod prc;
pub mod channel;
pub mod primality;
pub mod curve_prime;
pub mod authbits;
