//! SHA-512 behind the `core::hash::Hasher` interface.
use crate::fold::{bytes_xor_u64, xor_fold};
use vstd::prelude::*;

verus! {

/// The most bytes a SHA-512 hasher absorbs: the engine counts bits in a `usize`.
pub const SHA512_MAX_INPUT: usize = usize::MAX / 8;

#[verifier::external_type_specification]
#[verifier::external_body]
pub struct ExSha512Hash(hmac_sha512::Hash);

/// The bytes that a SHA-512 engine has absorbed since it was made.
pub uninterp spec fn sha512_absorbed(h: hmac_sha512::Hash) -> Seq<u8>;

/// The SHA-512 digest of a byte sequence.
pub uninterp spec fn sha512_of(bytes: Seq<u8>) -> Seq<u8>;

/// Relies on hmac_sha512::Hash::new: a fresh engine has absorbed nothing.
pub assume_specification[ hmac_sha512::Hash::new ]() -> (r: hmac_sha512::Hash)
    ensures
        sha512_absorbed(r) == Seq::<u8>::empty(),
;

/// Relies on hmac_sha512::Hash::update: the bytes are absorbed after those before
/// them. Its byte count is a `usize` and must not overflow.
#[verifier::external_body]
fn sha512_update(h: &mut hmac_sha512::Hash, bytes: &[u8])
    requires
        sha512_absorbed(*old(h)).len() + bytes@.len() <= usize::MAX,
    ensures
        sha512_absorbed(*final(h)) == sha512_absorbed(*old(h)) + bytes@,
{
    h.update(bytes);
}

/// Relies on hmac_sha512::Hash::finalize, run on a copy of the engine: the SHA-512
/// digest of all that it absorbed. It computes the bit count as a `usize`.
#[verifier::external_body]
fn sha512_finalize(h: &hmac_sha512::Hash) -> (r: [u8; 64])
    requires
        sha512_absorbed(*h).len() * 8 <= usize::MAX,
    ensures
        r@ == sha512_of(sha512_absorbed(*h)),
{
    h.finalize()
}

/// Glue between `core::hash` and `hmac_sha512`: its view is the bytes absorbed so far.
/// A write that would carry the total past `SHA512_MAX_INPUT` is not absorbed; the
/// hasher then reports itself truncated.
#[derive(Clone, Copy)]
pub struct Sha512Hasher {
    engine: hmac_sha512::Hash,
    len: usize,
    truncated: bool,
}

impl View for Sha512Hasher {
    type V = Seq<u8>;

    closed spec fn view(&self) -> Seq<u8> {
        sha512_absorbed(self.engine)
    }
}

impl Sha512Hasher {
    /// The hasher's own count agrees with its engine, within the bound.
    pub closed spec fn wf(&self) -> bool {
        &&& self.len == sha512_absorbed(self.engine).len()
        &&& self.len <= SHA512_MAX_INPUT
    }

    /// Whether a write was left out for passing the bound.
    pub closed spec fn is_truncated(&self) -> bool {
        self.truncated
    }

    /// A hasher that has been written nothing.
    pub fn new() -> (r: Self)
        ensures
            r.wf(),
            r@ == Seq::<u8>::empty(),
            !r.is_truncated(),
    {
        Sha512Hasher { engine: hmac_sha512::Hash::new(), len: 0, truncated: false }
    }

    /// Whether a write was left out for passing the bound.
    pub fn truncated(&self) -> (r: bool)
        ensures
            r == self.is_truncated(),
    {
        self.truncated
    }

    /// Compute the SHA512 hash of the bytes absorbed. The hasher stays usable.
    pub fn finalize(&self) -> (r: [u8; 64])
        requires
            self.wf(),
        ensures
            r@ == sha512_of(self@),
    {
        sha512_finalize(&self.engine)
    }
}

impl core::hash::Hasher for Sha512Hasher {
    /// The digest folded into one word, the chunks read in the host's byte order.
    fn finish(&self) -> (r: u64)
        requires
            self.wf(),
        ensures
            r == xor_fold(sha512_of(self@), true) || r == xor_fold(sha512_of(self@), false),
    {
        let d = self.finalize();
        bytes_xor_u64(&d)
    }

    fn write(&mut self, bytes: &[u8])
        requires
            old(self).wf(),
        ensures
            final(self).wf(),
            old(self)@.len() + bytes@.len() <= SHA512_MAX_INPUT ==> {
                &&& final(self)@ == old(self)@ + bytes@
                &&& final(self).is_truncated() == old(self).is_truncated()
            },
            old(self)@.len() + bytes@.len() > SHA512_MAX_INPUT ==> {
                &&& final(self)@ == old(self)@
                &&& final(self).is_truncated()
            },
    {
        if bytes.len() <= SHA512_MAX_INPUT - self.len {
            sha512_update(&mut self.engine, bytes);
            self.len = self.len + bytes.len();
        } else {
            self.truncated = true;
        }
    }
}

/// Relies on core::hash::Hash::hash: the value describes itself to the sink by
/// calls of its `write`, each of which keeps the sink well formed and appends to
/// what it holds, or leaves it truncated.
#[verifier::external_body]
fn sha512_describe<T: core::hash::Hash>(data: &T, sink: &mut Sha512Hasher)
    requires
        old(sink).wf(),
    ensures
        final(sink).wf(),
        old(sink)@.is_prefix_of(final(sink)@),
        old(sink).is_truncated() ==> final(sink).is_truncated(),
{
    data.hash(sink)
}

/// Compute an SHA512 hash through the `core::hash` API: the SHA-512 digest of the
/// bytes that `data` writes to a fresh hasher, unless they pass `SHA512_MAX_INPUT`.
pub fn sha512_hash<H: core::hash::Hash>(data: &H) -> (r: [u8; 64])
    ensures
        exists|described: Seq<u8>| r@ == sha512_of(described),
{
    let mut hasher = Sha512Hasher::new();
    sha512_describe(data, &mut hasher);
    hasher.finalize()
}

} // verus!
