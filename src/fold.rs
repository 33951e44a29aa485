//! Collapsing a digest into one 64-bit word by XOR of its 8-byte chunks.
use vstd::prelude::*;

verus! {

/// The word whose least significant byte is `b[0]` (little-endian reading).
pub open spec fn word_le(b: Seq<u8>) -> u64
    recommends
        b.len() == 8,
{
    (b[0] as u64) | ((b[1] as u64) << 8u64) | ((b[2] as u64) << 16u64) | ((b[3] as u64) << 24u64)
        | ((b[4] as u64) << 32u64) | ((b[5] as u64) << 40u64) | ((b[6] as u64) << 48u64) | ((
    b[7] as u64) << 56u64)
}

/// The word whose most significant byte is `b[0]` (big-endian reading).
pub open spec fn word_be(b: Seq<u8>) -> u64
    recommends
        b.len() == 8,
{
    (b[7] as u64) | ((b[6] as u64) << 8u64) | ((b[5] as u64) << 16u64) | ((b[4] as u64) << 24u64)
        | ((b[3] as u64) << 32u64) | ((b[2] as u64) << 40u64) | ((b[1] as u64) << 48u64) | ((
    b[0] as u64) << 56u64)
}

/// Eight bytes read as a word in the given byte order.
pub open spec fn word_of(b: Seq<u8>, little: bool) -> u64 {
    if little {
        word_le(b)
    } else {
        word_be(b)
    }
}

/// XOR of the words read from the consecutive 8-byte chunks of `s`, from offset 0;
/// the fold of an empty buffer is 0.
pub open spec fn xor_fold(s: Seq<u8>, little: bool) -> u64
    decreases s.len(),
{
    if s.len() < 8 {
        0
    } else {
        xor_fold(s.subrange(0, s.len() - 8), little) ^ word_of(
            s.subrange(s.len() - 8, s.len() as int),
            little,
        )
    }
}

/// Relies on u64::from_ne_bytes: the bytes read in the host's byte order, which is
/// little- or big-endian.
#[verifier::external_body]
fn u64_from_native_bytes(b: [u8; 8]) -> (r: u64)
    ensures
        r == word_le(b@) || r == word_be(b@),
{
    u64::from_ne_bytes(b)
}

/// Whether the host stores words least significant byte first.
fn native_is_little() -> (r: bool) {
    let probe = u64_from_native_bytes([1u8, 0, 0, 0, 0, 0, 0, 0]);
    probe == 1
}

/// Reads the word held by `s[k..k + 8]` in the given byte order.
fn read_word(s: &[u8], k: usize, little: bool) -> (r: u64)
    requires
        k + 8 <= s@.len(),
    ensures
        r == word_of(s@.subrange(k as int, k + 8), little),
{
    let ghost b = s@.subrange(k as int, k + 8);
    assert(b[0] == s@[k as int] && b[1] == s@[k + 1] && b[2] == s@[k + 2] && b[3] == s@[k + 3]);
    assert(b[4] == s@[k + 4] && b[5] == s@[k + 5] && b[6] == s@[k + 6] && b[7] == s@[k + 7]);
    let b0 = s[k] as u64;
    let b1 = s[k + 1] as u64;
    let b2 = s[k + 2] as u64;
    let b3 = s[k + 3] as u64;
    let b4 = s[k + 4] as u64;
    let b5 = s[k + 5] as u64;
    let b6 = s[k + 6] as u64;
    let b7 = s[k + 7] as u64;
    if little {
        b0 | (b1 << 8u64) | (b2 << 16u64) | (b3 << 24u64) | (b4 << 32u64) | (b5 << 40u64) | (b6
            << 48u64) | (b7 << 56u64)
    } else {
        b7 | (b6 << 8u64) | (b5 << 16u64) | (b4 << 24u64) | (b3 << 32u64) | (b2 << 40u64) | (b1
            << 48u64) | (b0 << 56u64)
    }
}

/// XOR of the 8-byte chunks of `slice`, each read in the given byte order.
pub fn fold_in_order(slice: &[u8], little: bool) -> (r: u64)
    requires
        slice@.len() % 8 == 0,
    ensures
        r == xor_fold(slice@, little),
{
    let len: usize = slice.len();
    let n: usize = len / 8;
    let mut accum: u64 = 0;
    let mut i: usize = 0;
    while i < n
        invariant
            len == slice@.len(),
            n == slice@.len() / 8,
            slice@.len() % 8 == 0,
            i <= n,
            accum == xor_fold(slice@.subrange(0, 8 * i), little),
        decreases n - i,
    {
        assert(8 * i + 8 <= slice@.len()) by (nonlinear_arith)
            requires
                i < n,
                n == slice@.len() / 8,
        ;
        let w = read_word(slice, 8 * i, little);
        proof {
            let next = slice@.subrange(0, 8 * (i + 1));
            assert(next.subrange(0, next.len() - 8) =~= slice@.subrange(0, 8 * i));
            assert(next.subrange(next.len() - 8, next.len() as int) =~= slice@.subrange(
                8 * i,
                8 * i + 8,
            ));
        }
        accum = accum ^ w;
        i = i + 1;
    }
    assert(8 * n == slice@.len());
    assert(slice@.subrange(0, 8 * n) =~= slice@);
    accum
}

/// Collapses `slice` into one word: the XOR of its consecutive 8-byte chunks, each
/// read in the host's byte order. The length must be a multiple of 8.
pub fn bytes_xor_u64(slice: &[u8]) -> (r: u64)
    requires
        slice@.len() % 8 == 0,
    ensures
        r == xor_fold(slice@, true) || r == xor_fold(slice@, false),
{
    let little = native_is_little();
    fold_in_order(slice, little)
}

} // verus!
