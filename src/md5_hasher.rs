//! MD5 behind the `core::hash::Hasher` interface.
//!
//! MD5 should be considered cryptographically broken and unsuitable for
//! cryptographic use.
use crate::fold::{bytes_xor_u64, xor_fold};
use vstd::prelude::*;

verus! {

#[verifier::external_type_specification]
#[verifier::external_body]
pub struct ExMd5Context(md5::Context);

/// The bytes that an MD5 context has absorbed since it was made.
pub uninterp spec fn md5_absorbed(ctx: md5::Context) -> Seq<u8>;

/// The MD5 digest of a byte sequence.
pub uninterp spec fn md5_of(bytes: Seq<u8>) -> Seq<u8>;

/// Relies on md5::Context::new: a fresh context has absorbed nothing.
pub assume_specification[ md5::Context::new ]() -> (r: md5::Context)
    ensures
        md5_absorbed(r) == Seq::<u8>::empty(),
;

/// Relies on md5::Context::consume: the bytes are absorbed after those before them.
#[verifier::external_body]
fn md5_consume(ctx: &mut md5::Context, bytes: &[u8])
    ensures
        md5_absorbed(*final(ctx)) == md5_absorbed(*old(ctx)) + bytes@,
{
    ctx.consume(bytes);
}

/// Relies on the derived md5::Context::clone: the copy has absorbed the same bytes.
pub assume_specification[ <md5::Context as core::clone::Clone>::clone ](
    ctx: &md5::Context,
) -> (r: md5::Context)
    ensures
        md5_absorbed(r) == md5_absorbed(*ctx),
;

/// Relies on md5::Context::compute: the MD5 digest of all that the context absorbed.
#[verifier::external_body]
fn md5_compute(ctx: md5::Context) -> (r: [u8; 16])
    ensures
        r@ == md5_of(md5_absorbed(ctx)),
{
    ctx.compute().into()
}

/// Glue between `core::hash` and `md5`: its view is the bytes written so far.
#[derive(Clone)]
pub struct Md5Hasher(md5::Context);

impl View for Md5Hasher {
    type V = Seq<u8>;

    closed spec fn view(&self) -> Seq<u8> {
        md5_absorbed(self.0)
    }
}

impl Md5Hasher {
    /// A hasher that has been written nothing.
    pub fn new() -> (r: Self)
        ensures
            r@ == Seq::<u8>::empty(),
    {
        Md5Hasher(md5::Context::new())
    }

    /// Digest the data into an MD5 hash. The hasher stays usable.
    pub fn digest(&self) -> (r: [u8; 16])
        ensures
            r@ == md5_of(self@),
    {
        md5_compute(self.0.clone())
    }
}

impl core::hash::Hasher for Md5Hasher {
    /// The digest folded into one word, the chunks read in the host's byte order.
    fn finish(&self) -> (r: u64)
        ensures
            r == xor_fold(md5_of(self@), true) || r == xor_fold(md5_of(self@), false),
    {
        let d = self.digest();
        bytes_xor_u64(&d)
    }

    fn write(&mut self, bytes: &[u8])
        ensures
            final(self)@ == old(self)@ + bytes@,
    {
        md5_consume(&mut self.0, bytes);
    }
}

/// Relies on core::hash::Hash::hash: the value describes itself to the sink by
/// calls of its `write`, each of which appends to what the sink holds.
#[verifier::external_body]
fn md5_describe<T: core::hash::Hash>(data: &T, sink: &mut Md5Hasher)
    ensures
        old(sink)@.is_prefix_of(final(sink)@),
{
    data.hash(sink)
}

/// Compute an MD5 digest through the `core::hash` API: the MD5 digest of the bytes
/// that `data` writes to a fresh hasher.
pub fn md5_hash<H: core::hash::Hash>(data: &H) -> (r: [u8; 16])
    ensures
        exists|described: Seq<u8>| r@ == md5_of(described),
{
    let mut hasher = Md5Hasher::new();
    md5_describe(data, &mut hasher);
    hasher.digest()
}

} // verus!
