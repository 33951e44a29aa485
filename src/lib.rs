//! Digests of values through the structural-hashing protocol of `core::hash`.
//!
//! A value that can feed a `core::hash::Hasher` can be digested with MD5,
//! SHA-256 or SHA-512 through the hashers of this crate, which forward each
//! write to the digest engine and fold the digest into a `u64` for `finish`.
//!
//! `core::hash` implementations are not necessarily consistent across
//! platforms: they may use the native byte order, or depend on how the
//! platform encodes strings. MD5 should be considered cryptographically
//! broken and unsuitable for cryptographic use.
pub mod fold;
pub mod laws;
pub mod md5_hasher;
pub mod sha256_hasher;
pub mod sha512_hasher;

pub use fold::{bytes_xor_u64, fold_in_order};
pub use md5_hasher::{md5_hash, Md5Hasher};
pub use sha256_hasher::{sha256_hash, Sha256Hasher};
pub use sha512_hasher::{sha512_hash, Sha512Hasher};
