//! Laws that relate several calls of the hashers.
use crate::md5_hasher::{md5_of, Md5Hasher};
use crate::sha256_hasher::{sha256_of, Sha256Hasher, SHA256_MAX_INPUT};
use crate::sha512_hasher::{sha512_of, Sha512Hasher, SHA512_MAX_INPUT};
use vstd::prelude::*;

verus! {

/// Writing `a` and then `b` to an MD5 hasher that holds `start` leaves it holding
/// the same bytes, and so giving the same digest, as writing `a ++ b` once.
pub proof fn lemma_md5_split_write(start: Seq<u8>, a: Seq<u8>, b: Seq<u8>)
    ensures
        (start + a) + b == start + (a + b),
        md5_of((start + a) + b) == md5_of(start + (a + b)),
{
    assert((start + a) + b =~= start + (a + b));
}

/// Writing `a` and then `b` to a SHA-256 hasher that holds `start` leaves it holding
/// the same bytes, and so giving the same digest, as writing `a ++ b` once, as long
/// as the total stays within the hasher's bound.
pub proof fn lemma_sha256_split_write(start: Seq<u8>, a: Seq<u8>, b: Seq<u8>)
    requires
        start.len() + a.len() + b.len() <= SHA256_MAX_INPUT,
    ensures
        start.len() + a.len() <= SHA256_MAX_INPUT,
        (start + a).len() + b.len() <= SHA256_MAX_INPUT,
        start.len() + (a + b).len() <= SHA256_MAX_INPUT,
        (start + a) + b == start + (a + b),
        sha256_of((start + a) + b) == sha256_of(start + (a + b)),
{
    assert((start + a) + b =~= start + (a + b));
}

/// Writing `a` and then `b` to a SHA-512 hasher that holds `start` leaves it holding
/// the same bytes, and so giving the same digest, as writing `a ++ b` once, as long
/// as the total stays within the hasher's bound.
pub proof fn lemma_sha512_split_write(start: Seq<u8>, a: Seq<u8>, b: Seq<u8>)
    requires
        start.len() + a.len() + b.len() <= SHA512_MAX_INPUT,
    ensures
        start.len() + a.len() <= SHA512_MAX_INPUT,
        (start + a).len() + b.len() <= SHA512_MAX_INPUT,
        start.len() + (a + b).len() <= SHA512_MAX_INPUT,
        (start + a) + b == start + (a + b),
        sha512_of((start + a) + b) == sha512_of(start + (a + b)),
{
    assert((start + a) + b =~= start + (a + b));
}

/// Two MD5 hashers that were written the same bytes give the same digest.
pub proof fn lemma_md5_deterministic(h1: Md5Hasher, h2: Md5Hasher)
    requires
        h1@ == h2@,
    ensures
        md5_of(h1@) == md5_of(h2@),
{
}

/// Two SHA-256 hashers that absorbed the same bytes give the same digest.
pub proof fn lemma_sha256_deterministic(h1: Sha256Hasher, h2: Sha256Hasher)
    requires
        h1@ == h2@,
    ensures
        sha256_of(h1@) == sha256_of(h2@),
{
}

/// Two SHA-512 hashers that absorbed the same bytes give the same digest.
pub proof fn lemma_sha512_deterministic(h1: Sha512Hasher, h2: Sha512Hasher)
    requires
        h1@ == h2@,
    ensures
        sha512_of(h1@) == sha512_of(h2@),
{
}

} // verus!
