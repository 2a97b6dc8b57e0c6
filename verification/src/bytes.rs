//! Little-endian byte views of the scalar types used on the wire.
//!
//! Every multi-byte field of an SLMP frame is little-endian.  The spec
//! functions here give each scalar its byte sequence, and the exec helpers
//! append those bytes to a buffer under construction.

use vstd::prelude::*;

verus! {

/// Low byte of a 16-bit value.
pub open spec fn lo16(x: u16) -> u8 {
    (x % 256) as u8
}

/// High byte of a 16-bit value.
pub open spec fn hi16(x: u16) -> u8 {
    (x / 256) as u8
}

/// The two little-endian bytes of a 16-bit value.
pub open spec fn le16(x: u16) -> Seq<u8> {
    seq![lo16(x), hi16(x)]
}

/// Byte `k` (0 = least significant) of a 32-bit value.
pub open spec fn byte32(x: u32, k: int) -> u8 {
    if k == 0 {
        (x % 256) as u8
    } else if k == 1 {
        ((x / 256) % 256) as u8
    } else if k == 2 {
        ((x / 65536) % 256) as u8
    } else {
        (x / 16777216) as u8
    }
}

/// The four little-endian bytes of a 32-bit value.
pub open spec fn le32(x: u32) -> Seq<u8> {
    seq![byte32(x, 0), byte32(x, 1), byte32(x, 2), byte32(x, 3)]
}

/// The 16-bit value with the given low and high bytes.
pub open spec fn word_of(lo: u8, hi: u8) -> u16 {
    (lo + 256 * (hi as u16)) as u16
}

/// The 32-bit value assembled from four little-endian bytes.
pub open spec fn dword_of(b0: u8, b1: u8, b2: u8, b3: u8) -> u32 {
    (b0 + 256 * (b1 as u32) + 65536 * (b2 as u32) + 16777216 * (b3 as u32)) as u32
}

/// Reassembling the two little-endian bytes of a word gives the word back.
pub proof fn lemma_word_le_round_trip(x: u16)
    ensures
        word_of(lo16(x), hi16(x)) == x,
{
    assert(x % 256 + 256 * (x / 256) == x) by (nonlinear_arith);
}

/// Reassembling the four little-endian bytes of a double word gives it back.
pub proof fn lemma_dword_le_round_trip(x: u32)
    ensures
        dword_of(byte32(x, 0), byte32(x, 1), byte32(x, 2), byte32(x, 3)) == x,
{
    assert(x % 256 + 256 * ((x / 256) % 256) + 65536 * ((x / 65536) % 256) + 16777216 * (x
        / 16777216) == x) by (nonlinear_arith);
}

/// Appends the two little-endian bytes of `x` to `buf`.
pub fn push_le16(buf: &mut Vec<u8>, x: u16)
    ensures
        final(buf)@ == old(buf)@ + le16(x),
{
    buf.push((x % 256) as u8);
    buf.push((x / 256) as u8);
    assert(buf@ =~= old(buf)@ + le16(x));
}

/// Appends the four little-endian bytes of `x` to `buf`.
pub fn push_le32(buf: &mut Vec<u8>, x: u32)
    ensures
        final(buf)@ == old(buf)@ + le32(x),
{
    buf.push((x % 256) as u8);
    buf.push(((x / 256) % 256) as u8);
    buf.push(((x / 65536) % 256) as u8);
    buf.push((x / 16777216) as u8);
    assert(buf@ =~= old(buf)@ + le32(x));
}

/// Reads the 16-bit value whose little-endian bytes sit at `i` in `buf`.
pub fn read_le16(buf: &[u8], i: usize) -> (r: u16)
    requires
        i + 2 <= buf@.len(),
    ensures
        r == word_of(buf@[i as int], buf@[i + 1]),
{
    (buf[i] as u16) + 256 * (buf[i + 1] as u16)
}

/// Reads the 32-bit value whose little-endian bytes sit at `i` in `buf`.
pub fn read_le32(buf: &[u8], i: usize) -> (r: u32)
    requires
        i + 4 <= buf@.len(),
    ensures
        r == dword_of(buf@[i as int], buf@[i + 1], buf@[i + 2], buf@[i + 3]),
{
    (buf[i] as u32) + 256 * (buf[i + 1] as u32) + 65536 * (buf[i + 2] as u32) + 16777216 * (
    buf[i + 3] as u32)
}

/// The byte sequences `f` gives to the elements of `s`, concatenated in
/// order.
pub open spec fn spec_concat_bytes<T>(s: Seq<T>, f: spec_fn(T) -> Seq<u8>) -> Seq<u8>
    decreases s.len(),
{
    if s.len() == 0 {
        Seq::empty()
    } else {
        spec_concat_bytes(s.drop_last(), f) + f(s.last())
    }
}

/// Extending the prefix taken from `s` by one element appends that
/// element's bytes.
pub proof fn lemma_concat_bytes_take_step<T>(s: Seq<T>, f: spec_fn(T) -> Seq<u8>, i: int)
    requires
        0 <= i < s.len(),
    ensures
        spec_concat_bytes(s.take(i + 1), f) == spec_concat_bytes(s.take(i), f) + f(s[i]),
{
    assert(s.take(i + 1).drop_last() =~= s.take(i));
    assert(s.take(i + 1).last() == s[i]);
}

/// The whole sequence is its own full prefix.
pub proof fn lemma_concat_bytes_take_all<T>(s: Seq<T>, f: spec_fn(T) -> Seq<u8>)
    ensures
        spec_concat_bytes(s.take(s.len() as int), f) == spec_concat_bytes(s, f),
{
    assert(s.take(s.len() as int) =~= s);
}

} // verus!
