//! The pack codec: conversions between scalar/boolean arrays and the
//! little-endian byte layouts SLMP puts on the wire.
//!
//! Three distinct boolean encodings exist side by side and are not
//! interchangeable:
//!
//! * by bit: two booleans per byte as a nibble pair, the first boolean in
//!   the high nibble (`0x10`), the second in the low nibble (`0x01`); only
//!   `0x00`, `0x01`, `0x10` and `0x11` are valid bytes;
//! * by word: a plain bitmask, eight booleans per byte, bit `i` of a byte
//!   holding boolean `i`, bytes in little-endian word order;
//! * in a scalar: the bits of a 16- or 32-bit value read from the least
//!   significant end.

use vstd::prelude::*;

use crate::bytes::{
    dword_of, hi16, lo16, word_of, lemma_word_le_round_trip, lemma_dword_le_round_trip,
    push_le16, read_le16,
};

verus! {

/// Bit `i` (0 = least significant) of a byte.
pub open spec fn nth_bit8(b: u8, i: u8) -> bool {
    (b >> i) & 1 == 1
}

/// Bit `i` (0 = least significant) of a 16-bit value.
pub open spec fn nth_bit16(x: u16, i: u16) -> bool {
    (x >> i) & 1 == 1
}

/// Bit `i` (0 = least significant) of a 32-bit value.
pub open spec fn nth_bit32(x: u32, i: u32) -> bool {
    (x >> i) & 1 == 1
}

/// Boolean `8 * j + k` of `s`, taken as `false` beyond the end of `s`.
pub open spec fn mask_bit(s: Seq<bool>, j: int, k: int) -> bool {
    8 * j + k < s.len() && s[8 * j + k]
}

/// Byte `j` of the bitmask encoding of `s`: bit `k` holds boolean `8*j + k`.
pub open spec fn mask_byte(s: Seq<bool>, j: int) -> u8 {
    ((if mask_bit(s, j, 0) { 1int } else { 0 }) + (if mask_bit(s, j, 1) { 2int } else { 0 })
        + (if mask_bit(s, j, 2) { 4int } else { 0 }) + (if mask_bit(s, j, 3) { 8int } else { 0 })
        + (if mask_bit(s, j, 4) { 16int } else { 0 }) + (if mask_bit(s, j, 5) { 32int } else { 0 })
        + (if mask_bit(s, j, 6) { 64int } else { 0 }) + (if mask_bit(s, j, 7) { 128int } else { 0
    })) as u8
}

/// The bitmask encoding of a boolean sequence: one byte per eight booleans,
/// a partial final byte padded with `false`.
pub open spec fn spec_pack_bits_by_word(s: Seq<bool>) -> Seq<u8> {
    Seq::new(((s.len() + 7) / 8) as nat, |j: int| mask_byte(s, j))
}

/// The booleans denoted by a bitmask byte sequence: eight per byte.
pub open spec fn spec_unpack_bits_by_word(b: Seq<u8>) -> Seq<bool> {
    Seq::new((8 * b.len()) as nat, |i: int| nth_bit8(b[i / 8], (i % 8) as u8))
}

/// A byte is a valid nibble pair iff it is one of `0x00`, `0x01`, `0x10`, `0x11`.
pub open spec fn valid_nibble_pair(b: u8) -> bool {
    b == 0x00 || b == 0x01 || b == 0x10 || b == 0x11
}

/// Byte `i` of the nibble-pair encoding of `s`: boolean `2*i` in the high
/// nibble, boolean `2*i + 1` (if present) in the low nibble.
pub open spec fn nibble_byte(s: Seq<bool>, i: int) -> u8 {
    ((if s[2 * i] { 0x10int } else { 0 }) + (if 2 * i + 1 < s.len() && s[2 * i + 1] { 1int } else {
        0
    })) as u8
}

/// The nibble-pair encoding of a boolean sequence: one byte per two booleans.
pub open spec fn spec_pack_bits_by_bit(s: Seq<bool>) -> Seq<u8> {
    Seq::new(((s.len() + 1) / 2) as nat, |i: int| nibble_byte(s, i))
}

/// The booleans denoted by a nibble-pair byte sequence, or `None` if any
/// byte is not a valid nibble pair.
pub open spec fn spec_unpack_bits_by_bit(b: Seq<u8>) -> Option<Seq<bool>> {
    if forall|i: int| 0 <= i < b.len() ==> valid_nibble_pair(#[trigger] b[i]) {
        Some(
            Seq::new(
                (2 * b.len()) as nat,
                |i: int|
                    if i % 2 == 0 {
                        b[i / 2] == 0x10 || b[i / 2] == 0x11
                    } else {
                        b[i / 2] == 0x01 || b[i / 2] == 0x11
                    },
            ),
        )
    } else {
        None
    }
}

/// The little-endian byte pairs of a 16-bit word sequence.
pub open spec fn spec_pack_words_by_word(s: Seq<u16>) -> Seq<u8> {
    Seq::new(
        (2 * s.len()) as nat,
        |i: int|
            if i % 2 == 0 {
                lo16(s[i / 2])
            } else {
                hi16(s[i / 2])
            },
    )
}

/// The words denoted by a little-endian byte sequence, or `None` for an
/// odd byte count.
pub open spec fn spec_unpack_words_by_word(b: Seq<u8>) -> Option<Seq<u16>> {
    if b.len() % 2 == 0 {
        Some(Seq::new((b.len() / 2) as nat, |i: int| word_of(b[2 * i], b[2 * i + 1])))
    } else {
        None
    }
}

/// Byte `k` of `b`, taken as zero beyond the end of `b`.
pub open spec fn byte_or_zero(b: Seq<u8>, k: int) -> u8 {
    if k < b.len() {
        b[k]
    } else {
        0
    }
}

/// The double words denoted by a little-endian byte sequence, four bytes
/// each; a partial final group is padded with zero bytes.
pub open spec fn spec_unpack_dwords_by_dword(b: Seq<u8>) -> Seq<u32> {
    Seq::new(
        ((b.len() + 3) / 4) as nat,
        |i: int|
            dword_of(
                byte_or_zero(b, 4 * i),
                byte_or_zero(b, 4 * i + 1),
                byte_or_zero(b, 4 * i + 2),
                byte_or_zero(b, 4 * i + 3),
            ),
    )
}

/// The four little-endian bytes of each double word of `s`, concatenated.
pub open spec fn spec_dwords_to_bytes(s: Seq<u32>) -> Seq<u8> {
    Seq::new((4 * s.len()) as nat, |i: int| crate::bytes::byte32(s[i / 4], i % 4))
}

/// The sixteen bits of a word, least significant first.
pub open spec fn spec_bits_of_word(x: u16) -> Seq<bool> {
    Seq::new(16, |i: int| nth_bit16(x, i as u16))
}

/// The thirty-two bits of a double word, least significant first.
pub open spec fn spec_bits_of_dword(x: u32) -> Seq<bool> {
    Seq::new(32, |i: int| nth_bit32(x, i as u32))
}

/// The eight bits of a byte, least significant first.
pub open spec fn spec_bits_of_byte(x: u8) -> Seq<bool> {
    Seq::new(8, |i: int| nth_bit8(x, i as u8))
}

/// The byte assembled from eight bits has exactly those bits.
proof fn lemma_byte_from_bits(b0: bool, b1: bool, b2: bool, b3: bool, b4: bool, b5: bool, b6: bool, b7: bool)
    by (bit_vector)
    ensures
        ({
            let v = ((if b0 { 1int } else { 0 }) + (if b1 { 2int } else { 0 }) + (if b2 { 4int } else { 0 })
                + (if b3 { 8int } else { 0 }) + (if b4 { 16int } else { 0 }) + (if b5 { 32int } else { 0 })
                + (if b6 { 64int } else { 0 }) + (if b7 { 128int } else { 0 })) as u8;
            nth_bit8(v, 0) == b0 && nth_bit8(v, 1) == b1 && nth_bit8(v, 2) == b2 && nth_bit8(v, 3)
                == b3 && nth_bit8(v, 4) == b4 && nth_bit8(v, 5) == b5 && nth_bit8(v, 6) == b6
                && nth_bit8(v, 7) == b7
        }),
{
}

/// Bit `k` of a bitmask byte is boolean `8*j + k` of the source sequence.
pub proof fn lemma_mask_byte_bits(s: Seq<bool>, j: int, k: u8)
    requires
        k < 8,
    ensures
        nth_bit8(mask_byte(s, j), k) == mask_bit(s, j, k as int),
{
    lemma_byte_from_bits(
        mask_bit(s, j, 0),
        mask_bit(s, j, 1),
        mask_bit(s, j, 2),
        mask_bit(s, j, 3),
        mask_bit(s, j, 4),
        mask_bit(s, j, 5),
        mask_bit(s, j, 6),
        mask_bit(s, j, 7),
    );
}

/// The bits of a word are the bits of its two little-endian bytes.
pub(crate) proof fn lemma_word_bits_from_bytes(lo: u8, hi: u8)
    by (bit_vector)
    ensures
        forall|i: u16| i < 8 ==> #[trigger] nth_bit16((lo + 256 * (hi as u16)) as u16, i)
            == nth_bit8(lo, i as u8),
        forall|i: u16| 8 <= i < 16 ==> #[trigger] nth_bit16((lo + 256 * (hi as u16)) as u16, i)
            == nth_bit8(hi, (i - 8) as u8),
{
}

/// The bits of a double word are the bits of its four little-endian bytes.
pub(crate) proof fn lemma_dword_bits_from_bytes(b0: u8, b1: u8, b2: u8, b3: u8)
    by (bit_vector)
    ensures
        forall|i: u32| i < 8 ==> #[trigger] nth_bit32(
            (b0 + 256 * (b1 as u32) + 65536 * (b2 as u32) + 16777216 * (b3 as u32)) as u32,
            i,
        ) == nth_bit8(b0, i as u8),
        forall|i: u32| 8 <= i < 16 ==> #[trigger] nth_bit32(
            (b0 + 256 * (b1 as u32) + 65536 * (b2 as u32) + 16777216 * (b3 as u32)) as u32,
            i,
        ) == nth_bit8(b1, (i - 8) as u8),
        forall|i: u32| 16 <= i < 24 ==> #[trigger] nth_bit32(
            (b0 + 256 * (b1 as u32) + 65536 * (b2 as u32) + 16777216 * (b3 as u32)) as u32,
            i,
        ) == nth_bit8(b2, (i - 16) as u8),
        forall|i: u32| 24 <= i < 32 ==> #[trigger] nth_bit32(
            (b0 + 256 * (b1 as u32) + 65536 * (b2 as u32) + 16777216 * (b3 as u32)) as u32,
            i,
        ) == nth_bit8(b3, (i - 24) as u8),
{
}

/// Two words that agree on all sixteen bits are equal.
pub(crate) proof fn lemma_u16_eq_by_bits(a: u16, b: u16)
    by (bit_vector)
    requires
        nth_bit16(a, 0) == nth_bit16(b, 0),
        nth_bit16(a, 1) == nth_bit16(b, 1),
        nth_bit16(a, 2) == nth_bit16(b, 2),
        nth_bit16(a, 3) == nth_bit16(b, 3),
        nth_bit16(a, 4) == nth_bit16(b, 4),
        nth_bit16(a, 5) == nth_bit16(b, 5),
        nth_bit16(a, 6) == nth_bit16(b, 6),
        nth_bit16(a, 7) == nth_bit16(b, 7),
        nth_bit16(a, 8) == nth_bit16(b, 8),
        nth_bit16(a, 9) == nth_bit16(b, 9),
        nth_bit16(a, 10) == nth_bit16(b, 10),
        nth_bit16(a, 11) == nth_bit16(b, 11),
        nth_bit16(a, 12) == nth_bit16(b, 12),
        nth_bit16(a, 13) == nth_bit16(b, 13),
        nth_bit16(a, 14) == nth_bit16(b, 14),
        nth_bit16(a, 15) == nth_bit16(b, 15),
    ensures
        a == b,
{
}

/// Two double words that agree on all thirty-two bits are equal.
pub(crate) proof fn lemma_u32_eq_by_bits(a: u32, b: u32)
    by (bit_vector)
    requires
        nth_bit32(a, 0) == nth_bit32(b, 0),
        nth_bit32(a, 1) == nth_bit32(b, 1),
        nth_bit32(a, 2) == nth_bit32(b, 2),
        nth_bit32(a, 3) == nth_bit32(b, 3),
        nth_bit32(a, 4) == nth_bit32(b, 4),
        nth_bit32(a, 5) == nth_bit32(b, 5),
        nth_bit32(a, 6) == nth_bit32(b, 6),
        nth_bit32(a, 7) == nth_bit32(b, 7),
        nth_bit32(a, 8) == nth_bit32(b, 8),
        nth_bit32(a, 9) == nth_bit32(b, 9),
        nth_bit32(a, 10) == nth_bit32(b, 10),
        nth_bit32(a, 11) == nth_bit32(b, 11),
        nth_bit32(a, 12) == nth_bit32(b, 12),
        nth_bit32(a, 13) == nth_bit32(b, 13),
        nth_bit32(a, 14) == nth_bit32(b, 14),
        nth_bit32(a, 15) == nth_bit32(b, 15),
        nth_bit32(a, 16) == nth_bit32(b, 16),
        nth_bit32(a, 17) == nth_bit32(b, 17),
        nth_bit32(a, 18) == nth_bit32(b, 18),
        nth_bit32(a, 19) == nth_bit32(b, 19),
        nth_bit32(a, 20) == nth_bit32(b, 20),
        nth_bit32(a, 21) == nth_bit32(b, 21),
        nth_bit32(a, 22) == nth_bit32(b, 22),
        nth_bit32(a, 23) == nth_bit32(b, 23),
        nth_bit32(a, 24) == nth_bit32(b, 24),
        nth_bit32(a, 25) == nth_bit32(b, 25),
        nth_bit32(a, 26) == nth_bit32(b, 26),
        nth_bit32(a, 27) == nth_bit32(b, 27),
        nth_bit32(a, 28) == nth_bit32(b, 28),
        nth_bit32(a, 29) == nth_bit32(b, 29),
        nth_bit32(a, 30) == nth_bit32(b, 30),
        nth_bit32(a, 31) == nth_bit32(b, 31),
    ensures
        a == b,
{
}

/// Packs booleans two per byte as nibble pairs: the first of each pair to
/// the high nibble (`0x10`), the second to the low nibble (`0x01`).
pub fn pack_bits_by_bit(data: &[bool]) -> (r: Vec<u8>)
    requires
        data@.len() + 2 <= usize::MAX,
    ensures
        r@ == spec_pack_bits_by_bit(data@),
{
    let n = data.len();
    let mut buf: Vec<u8> = Vec::new();
    let mut idx: usize = 0;
    while idx < n
        invariant
            n == data@.len(),
            n + 2 <= usize::MAX,
            idx % 2 == 0,
            idx <= n + 1,
            buf@.len() == idx / 2,
            forall|k: int| 0 <= k < idx / 2 ==> buf@[k] == nibble_byte(data@, k),
        decreases n + 2 - idx,
    {
        let hi_set = data[idx];
        let lo_set = idx + 1 < n && data[idx + 1];
        let b: u8 = (if hi_set { 0x10 } else { 0 }) + (if lo_set { 1 } else { 0 });
        buf.push(b);
        idx += 2;
    }
    assert(buf@ =~= spec_pack_bits_by_bit(data@));
    buf
}

/// Packs booleans eight per byte as a bitmask: bit `i` of each byte holds
/// boolean `i` of that byte's group; a partial final group is zero-padded.
#[verifier::rlimit(30)]
pub fn pack_bits_by_word(data: &[bool]) -> (r: Vec<u8>)
    requires
        data@.len() + 8 <= usize::MAX,
    ensures
        r@ == spec_pack_bits_by_word(data@),
{
    let n = data.len();
    let mut buf: Vec<u8> = Vec::new();
    let mut idx: usize = 0;
    while idx < n
        invariant
            n == data@.len(),
            n + 8 <= usize::MAX,
            idx % 8 == 0,
            idx <= n + 7,
            buf@.len() == idx / 8,
            forall|j: int| 0 <= j < idx / 8 ==> buf@[j] == mask_byte(data@, j),
        decreases n + 8 - idx,
    {
        let g0 = data[idx];
        let g1 = idx + 1 < n && data[idx + 1];
        let g2 = idx + 2 < n && data[idx + 2];
        let g3 = idx + 3 < n && data[idx + 3];
        let g4 = idx + 4 < n && data[idx + 4];
        let g5 = idx + 5 < n && data[idx + 5];
        let g6 = idx + 6 < n && data[idx + 6];
        let g7 = idx + 7 < n && data[idx + 7];
        let b: u8 = (if g0 { 1 } else { 0 }) + (if g1 { 2 } else { 0 }) + (if g2 { 4 } else { 0 })
            + (if g3 { 8 } else { 0 }) + (if g4 { 16 } else { 0 }) + (if g5 { 32 } else { 0 }) + (
        if g6 { 64 } else { 0 }) + (if g7 { 128 } else { 0 });
        proof {
            let j = idx as int / 8;
            assert(8 * j == idx);
            assert(g0 == mask_bit(data@, j, 0) && g1 == mask_bit(data@, j, 1) && g2 == mask_bit(
                data@,
                j,
                2,
            ) && g3 == mask_bit(data@, j, 3) && g4 == mask_bit(data@, j, 4) && g5 == mask_bit(
                data@,
                j,
                5,
            ) && g6 == mask_bit(data@, j, 6) && g7 == mask_bit(data@, j, 7));
            assert(b == mask_byte(data@, j));
        }
        buf.push(b);
        idx += 8;
    }
    assert(buf@ =~= spec_pack_bits_by_word(data@));
    buf
}

/// Packs each 16-bit word as two little-endian bytes.
pub fn pack_words_by_word(data: &[u16]) -> (r: Vec<u8>)
    ensures
        r@ == spec_pack_words_by_word(data@),
{
    let n = data.len();
    let mut buf: Vec<u8> = Vec::new();
    let mut i: usize = 0;
    while i < n
        invariant
            n == data@.len(),
            i <= n,
            buf@.len() == 2 * i,
            forall|k: int| 0 <= k < 2 * i ==> buf@[k] == spec_pack_words_by_word(data@)[k],
        decreases n - i,
    {
        push_le16(&mut buf, data[i]);
        i += 1;
    }
    assert(buf@ =~= spec_pack_words_by_word(data@));
    buf
}

/// Unpacks nibble-pair bytes back to booleans, two per byte; any byte other
/// than `0x00`, `0x01`, `0x10` or `0x11` makes the whole input invalid.
pub fn unpack_bits_by_bit(data: &[u8]) -> (r: Result<Vec<bool>, &'static str>)
    ensures
        r is Ok <==> spec_unpack_bits_by_bit(data@) is Some,
        r matches Ok(v) ==> spec_unpack_bits_by_bit(data@) == Some(v@),
{
    let n = data.len();
    let mut buf: Vec<bool> = Vec::new();
    let mut i: usize = 0;
    while i < n
        invariant
            n == data@.len(),
            i <= n,
            buf@.len() == 2 * i,
            forall|k: int| 0 <= k < i ==> valid_nibble_pair(#[trigger] data@[k]),
            forall|k: int| 0 <= k < 2 * i ==> buf@[k] == (if k % 2 == 0 {
                data@[k / 2] == 0x10 || data@[k / 2] == 0x11
            } else {
                data@[k / 2] == 0x01 || data@[k / 2] == 0x11
            }),
        decreases n - i,
    {
        let d = data[i];
        if d == 0x00 {
            buf.push(false);
            buf.push(false);
        } else if d == 0x01 {
            buf.push(false);
            buf.push(true);
        } else if d == 0x10 {
            buf.push(true);
            buf.push(false);
        } else if d == 0x11 {
            buf.push(true);
            buf.push(true);
        } else {
            assert(!valid_nibble_pair(data@[i as int]));
            return Err("Invalid Input Data");
        }
        i += 1;
    }
    proof {
        let expect = spec_unpack_bits_by_bit(data@);
        assert(expect is Some);
        assert(buf@ =~= expect->Some_0);
    }
    Ok(buf)
}

/// Unpacks bitmask bytes back to booleans, eight per byte.
pub fn unpack_bits_by_word(data: &[u8]) -> (r: Vec<bool>)
    requires
        8 * data@.len() <= usize::MAX,
    ensures
        r@ == spec_unpack_bits_by_word(data@),
{
    let n = data.len();
    let mut buf: Vec<bool> = Vec::new();
    let mut i: usize = 0;
    while i < n
        invariant
            n == data@.len(),
            8 * n <= usize::MAX,
            i <= n,
            buf@.len() == 8 * i,
            forall|k: int| 0 <= k < 8 * i ==> buf@[k] == nth_bit8(data@[k / 8], (k % 8) as u8),
        decreases n - i,
    {
        let d = data[i];
        let mut k: u8 = 0;
        while k < 8
            invariant
                n == data@.len(),
                i < n,
                d == data@[i as int],
                k <= 8,
                buf@.len() == 8 * i + k,
                forall|m: int| 0 <= m < buf@.len() ==> buf@[m] == nth_bit8(
                    data@[m / 8],
                    (m % 8) as u8,
                ),
            decreases 8 - k,
        {
            buf.push((d >> k) & 1 == 1);
            k += 1;
        }
        i += 1;
    }
    assert(buf@ =~= spec_unpack_bits_by_word(data@));
    buf
}

/// Unpacks little-endian byte pairs back to 16-bit words; an odd byte
/// count is rejected rather than truncated.
pub fn unpack_words_by_word(data: &[u8]) -> (r: Result<Vec<u16>, &'static str>)
    ensures
        r is Ok <==> data@.len() % 2 == 0,
        r matches Ok(v) ==> spec_unpack_words_by_word(data@) == Some(v@),
{
    let n = data.len();
    if n % 2 != 0 {
        return Err("Odd Length Data");
    }
    let mut buf: Vec<u16> = Vec::new();
    let mut i: usize = 0;
    while i < n / 2
        invariant
            n == data@.len(),
            n % 2 == 0,
            i <= n / 2,
            buf@.len() == i,
            forall|k: int| 0 <= k < i ==> buf@[k] == word_of(data@[2 * k], data@[2 * k + 1]),
        decreases n / 2 - i,
    {
        buf.push(read_le16(data, 2 * i));
        i += 1;
    }
    proof {
        let expect = spec_unpack_words_by_word(data@);
        assert(buf@ =~= expect->Some_0);
    }
    Ok(buf)
}

/// Unpacks little-endian byte quadruples back to 32-bit double words; a
/// partial final group is read as if padded with zero bytes.
pub fn unpack_dwords_by_dword(data: &[u8]) -> (r: Vec<u32>)
    requires
        data@.len() + 4 <= usize::MAX,
    ensures
        r@ == spec_unpack_dwords_by_dword(data@),
{
    let n = data.len();
    let mut buf: Vec<u32> = Vec::new();
    let mut idx: usize = 0;
    while idx < n
        invariant
            n == data@.len(),
            n + 4 <= usize::MAX,
            idx % 4 == 0,
            idx <= n + 3,
            buf@.len() == idx / 4,
            forall|k: int| 0 <= k < idx / 4 ==> buf@[k] == spec_unpack_dwords_by_dword(data@)[k],
        decreases n + 4 - idx,
    {
        let b0 = data[idx];
        let b1 = if idx + 1 < n { data[idx + 1] } else { 0 };
        let b2 = if idx + 2 < n { data[idx + 2] } else { 0 };
        let b3 = if idx + 3 < n { data[idx + 3] } else { 0 };
        let v: u32 = (b0 as u32) + 256 * (b1 as u32) + 65536 * (b2 as u32) + 16777216 * (
        b3 as u32);
        buf.push(v);
        idx += 4;
    }
    assert(buf@ =~= spec_unpack_dwords_by_dword(data@));
    buf
}

/// Unpacks the eight bits of a byte, least significant first.
pub fn unpack_bits_in_byte(data: u8) -> (r: Vec<bool>)
    ensures
        r@ == spec_bits_of_byte(data),
{
    let mut buf: Vec<bool> = Vec::new();
    let mut i: u8 = 0;
    while i < 8
        invariant
            i <= 8,
            buf@.len() == i,
            forall|k: int| 0 <= k < i ==> buf@[k] == nth_bit8(data, k as u8),
        decreases 8 - i,
    {
        buf.push((data >> i) & 1 == 1);
        i += 1;
    }
    assert(buf@ =~= spec_bits_of_byte(data));
    buf
}

/// Unpacks the sixteen bits of a word, least significant first.
pub fn unpack_bits_in_word(data: u16) -> (r: Vec<bool>)
    ensures
        r@ == spec_bits_of_word(data),
{
    let mut buf: Vec<bool> = Vec::new();
    let mut i: u16 = 0;
    while i < 16
        invariant
            i <= 16,
            buf@.len() == i,
            forall|k: int| 0 <= k < i ==> buf@[k] == nth_bit16(data, k as u16),
        decreases 16 - i,
    {
        buf.push((data >> i) & 1 == 1);
        i += 1;
    }
    assert(buf@ =~= spec_bits_of_word(data));
    buf
}

/// Unpacks the thirty-two bits of a double word, least significant first.
pub fn unpack_bits_in_dword(data: u32) -> (r: Vec<bool>)
    ensures
        r@ == spec_bits_of_dword(data),
{
    let mut buf: Vec<bool> = Vec::new();
    let mut i: u32 = 0;
    while i < 32
        invariant
            i <= 32,
            buf@.len() == i,
            forall|k: int| 0 <= k < i ==> buf@[k] == nth_bit32(data, k as u32),
        decreases 32 - i,
    {
        buf.push((data >> i) & 1 == 1);
        i += 1;
    }
    assert(buf@ =~= spec_bits_of_dword(data));
    buf
}

/// Round trip of the nibble-pair encoding: packing an even number of
/// booleans by bit and unpacking the bytes gives the booleans back.
pub proof fn lemma_pack_unpack_bits_by_bit(s: Seq<bool>)
    requires
        s.len() % 2 == 0,
    ensures
        spec_unpack_bits_by_bit(spec_pack_bits_by_bit(s)) == Some(s),
{
    let b = spec_pack_bits_by_bit(s);
    assert forall|i: int| 0 <= i < b.len() implies valid_nibble_pair(#[trigger] b[i]) by {
        assert(b[i] == nibble_byte(s, i));
    }
    let u = spec_unpack_bits_by_bit(b)->Some_0;
    assert forall|k: int| 0 <= k < u.len() implies u[k] == s[k] by {
        assert(b[k / 2] == nibble_byte(s, k / 2));
    }
    assert(u =~= s);
}

/// Round trip of the bitmask encoding: packing a multiple of eight
/// booleans by word and unpacking the bytes gives the booleans back.
pub proof fn lemma_pack_unpack_bits_by_word(s: Seq<bool>)
    requires
        s.len() % 8 == 0,
    ensures
        spec_unpack_bits_by_word(spec_pack_bits_by_word(s)) == s,
{
    let b = spec_pack_bits_by_word(s);
    let u = spec_unpack_bits_by_word(b);
    assert forall|k: int| 0 <= k < u.len() implies u[k] == s[k] by {
        lemma_mask_byte_bits(s, k / 8, (k % 8) as u8);
        assert(8 * (k / 8) + (k % 8) == k);
    }
    assert(u =~= s);
}

/// Round trip of the word encoding: packing words as little-endian byte
/// pairs and unpacking the bytes gives the words back.
pub proof fn lemma_pack_unpack_words_by_word(s: Seq<u16>)
    ensures
        spec_unpack_words_by_word(spec_pack_words_by_word(s)) == Some(s),
{
    let b = spec_pack_words_by_word(s);
    let u = spec_unpack_words_by_word(b)->Some_0;
    assert forall|i: int| 0 <= i < u.len() implies u[i] == s[i] by {
        assert(b[2 * i] == lo16(s[i]));
        assert(b[2 * i + 1] == hi16(s[i]));
        lemma_word_le_round_trip(s[i]);
    }
    assert(u =~= s);
}

/// Round trip of the double-word encoding: laying each double word out as
/// four little-endian bytes and unpacking the bytes gives the words back.
pub proof fn lemma_pack_unpack_dwords_by_dword(s: Seq<u32>)
    ensures
        spec_unpack_dwords_by_dword(spec_dwords_to_bytes(s)) == s,
{
    let b = spec_dwords_to_bytes(s);
    let u = spec_unpack_dwords_by_dword(b);
    assert forall|i: int| 0 <= i < u.len() implies u[i] == s[i] by {
        assert(byte_or_zero(b, 4 * i) == crate::bytes::byte32(s[i], 0));
        assert(byte_or_zero(b, 4 * i + 1) == crate::bytes::byte32(s[i], 1));
        assert(byte_or_zero(b, 4 * i + 2) == crate::bytes::byte32(s[i], 2));
        assert(byte_or_zero(b, 4 * i + 3) == crate::bytes::byte32(s[i], 3));
        lemma_dword_le_round_trip(s[i]);
    }
    assert(u =~= s);
}

} // verus!
