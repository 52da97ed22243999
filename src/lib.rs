//! A uniform interface over fast, non-cryptographic hash functions: each
//! algorithm is a stateless [`FastHash`] function of a byte sequence and a
//! seed, and [`BufHasher`] turns any of them into an incremental hasher.
pub mod hasher;
pub mod lookup3;

pub use hasher::{BufHasher, FastHash};
pub use lookup3::Hasher32 as Lookup3Hasher;
