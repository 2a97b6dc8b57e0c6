//! The device address model: a single device, a device with a value, a
//! contiguous device block, and a block with backing data.
//!
//! A device is a type code and an unsigned 32-bit address.  A 16- or 32-bit
//! device value expands to 16 or 32 per-bit values at consecutive addresses,
//! bit 0 (least significant) at the source address; the inverse rejects
//! input that is not contiguous, ascending by one, and of a single type.

use vstd::prelude::*;

use crate::bytes::{byte32, hi16, lo16};
use crate::enums::SLMPDeviceCode;
use crate::packing::{
    nth_bit16, nth_bit32, lemma_mask_byte_bits, lemma_word_bits_from_bytes,
    lemma_dword_bits_from_bytes, lemma_u16_eq_by_bits, lemma_u32_eq_by_bits, pack_bits_by_word,
    spec_pack_bits_by_word,
};

verus! {

/// An addressable device: a type code and a 32-bit address.
#[derive(Copy, Clone, Debug, Hash, PartialEq, Eq, Structural)]
pub struct SLMPDevice {
    /// The device type.
    pub d_code: SLMPDeviceCode,
    /// The address within that type's space.
    pub addr: u32,
}

/// The four-byte device field of 16-bit-addressed commands: three address
/// bytes, little-endian, then the one-byte device code.
pub open spec fn spec_dev16(d: SLMPDevice) -> Seq<u8> {
    seq![
        byte32(d.addr, 0),
        byte32(d.addr, 1),
        byte32(d.addr, 2),
        lo16(d.d_code.spec_code()),
    ]
}

/// The six-byte device field of 32-bit-addressed commands: four address
/// bytes, little-endian, then the two-byte device code.
pub open spec fn spec_dev32(d: SLMPDevice) -> Seq<u8> {
    seq![
        byte32(d.addr, 0),
        byte32(d.addr, 1),
        byte32(d.addr, 2),
        byte32(d.addr, 3),
        lo16(d.d_code.spec_code()),
        hi16(d.d_code.spec_code()),
    ]
}

impl SLMPDevice {
    /// The device field in the 16-bit address layout.
    pub fn pack16(&self) -> (r: [u8; 4])
        ensures
            r@ == spec_dev16(*self),
    {
        let a = self.addr;
        let c = self.d_code.code();
        let r = [
            (a % 256) as u8,
            ((a / 256) % 256) as u8,
            ((a / 65536) % 256) as u8,
            (c % 256) as u8,
        ];
        assert(r@ =~= spec_dev16(*self));
        r
    }

    /// The device field in the 32-bit address layout.
    pub fn pack32(&self) -> (r: [u8; 6])
        ensures
            r@ == spec_dev32(*self),
    {
        let a = self.addr;
        let c = self.d_code.code();
        let r = [
            (a % 256) as u8,
            ((a / 256) % 256) as u8,
            ((a / 65536) % 256) as u8,
            (a / 16777216) as u8,
            (c % 256) as u8,
            ((c / 256) % 256) as u8,
        ];
        assert(r@ =~= spec_dev32(*self));
        r
    }
}

/// Appends the 16-bit-layout device field of `d` to `buf`.
pub fn push_dev16(buf: &mut Vec<u8>, d: SLMPDevice)
    ensures
        final(buf)@ == old(buf)@ + spec_dev16(d),
{
    let a = d.addr;
    let c = d.d_code.code();
    buf.push((a % 256) as u8);
    buf.push(((a / 256) % 256) as u8);
    buf.push(((a / 65536) % 256) as u8);
    buf.push((c % 256) as u8);
    assert(buf@ =~= old(buf)@ + spec_dev16(d));
}

/// Appends the 32-bit-layout device field of `d` to `buf`.
pub fn push_dev32(buf: &mut Vec<u8>, d: SLMPDevice)
    ensures
        final(buf)@ == old(buf)@ + spec_dev32(d),
{
    let a = d.addr;
    let c = d.d_code.code();
    buf.push((a % 256) as u8);
    buf.push(((a / 256) % 256) as u8);
    buf.push(((a / 65536) % 256) as u8);
    buf.push((a / 16777216) as u8);
    buf.push((c % 256) as u8);
    buf.push(((c / 256) % 256) as u8);
    assert(buf@ =~= old(buf)@ + spec_dev32(d));
}

/// One reading or writing unit: a device and its value.
#[derive(Copy, Clone, Debug, Hash, PartialEq, Eq)]
pub struct SLMPDeviceData<T> {
    /// The device holding the value.
    pub dev: SLMPDevice,
    /// The value itself.
    pub value: T,
}

impl SLMPDeviceData<bool> {
    /// The device field in the 32-bit layout, a zero pad byte, then the
    /// value as one byte.
    pub fn pack32(&self) -> (r: [u8; 8])
        ensures
            r@ == spec_dev32(self.dev) + seq![0u8, (if self.value { 1u8 } else { 0u8 })],
    {
        let a = self.dev.addr;
        let c = self.dev.d_code.code();
        let r = [
            (a % 256) as u8,
            ((a / 256) % 256) as u8,
            ((a / 65536) % 256) as u8,
            (a / 16777216) as u8,
            (c % 256) as u8,
            ((c / 256) % 256) as u8,
            0u8,
            if self.value { 1u8 } else { 0u8 },
        ];
        assert(r@ =~= spec_dev32(self.dev) + seq![0u8, (if self.value { 1u8 } else { 0u8 })]);
        r
    }

    /// The device field in the 16-bit layout, then the value as one byte.
    pub fn pack16(&self) -> (r: [u8; 5])
        ensures
            r@ == spec_dev16(self.dev) + seq![(if self.value { 1u8 } else { 0u8 })],
    {
        let a = self.dev.addr;
        let c = self.dev.d_code.code();
        let r = [
            (a % 256) as u8,
            ((a / 256) % 256) as u8,
            ((a / 65536) % 256) as u8,
            (c % 256) as u8,
            if self.value { 1u8 } else { 0u8 },
        ];
        assert(r@ =~= spec_dev16(self.dev) + seq![(if self.value { 1u8 } else { 0u8 })]);
        r
    }
}

impl SLMPDeviceData<u16> {
    /// The device field in the 32-bit layout, then the value, little-endian.
    pub fn pack32(&self) -> (r: [u8; 8])
        ensures
            r@ == spec_dev32(self.dev) + seq![lo16(self.value), hi16(self.value)],
    {
        let a = self.dev.addr;
        let c = self.dev.d_code.code();
        let r = [
            (a % 256) as u8,
            ((a / 256) % 256) as u8,
            ((a / 65536) % 256) as u8,
            (a / 16777216) as u8,
            (c % 256) as u8,
            ((c / 256) % 256) as u8,
            (self.value % 256) as u8,
            (self.value / 256) as u8,
        ];
        assert(r@ =~= spec_dev32(self.dev) + seq![lo16(self.value), hi16(self.value)]);
        r
    }

    /// The device field in the 16-bit layout, then the value, little-endian.
    pub fn pack16(&self) -> (r: [u8; 6])
        ensures
            r@ == spec_dev16(self.dev) + seq![lo16(self.value), hi16(self.value)],
    {
        let a = self.dev.addr;
        let c = self.dev.d_code.code();
        let r = [
            (a % 256) as u8,
            ((a / 256) % 256) as u8,
            ((a / 65536) % 256) as u8,
            (c % 256) as u8,
            (self.value % 256) as u8,
            (self.value / 256) as u8,
        ];
        assert(r@ =~= spec_dev16(self.dev) + seq![lo16(self.value), hi16(self.value)]);
        r
    }

    /// Expands this word datum to its sixteen per-bit data.
    pub fn unpack2bits(&self) -> (r: Vec<SLMPDeviceData<bool>>)
        requires
            self.dev.addr + 15 <= u32::MAX,
        ensures
            spec_word_expansion(*self, r@),
    {
        unpack_word2bit(self)
    }
}

impl SLMPDeviceData<u32> {
    /// The device field in the 32-bit layout, then the value, little-endian.
    pub fn pack32(&self) -> (r: [u8; 10])
        ensures
            r@ == spec_dev32(self.dev) + seq![
                byte32(self.value, 0),
                byte32(self.value, 1),
                byte32(self.value, 2),
                byte32(self.value, 3),
            ],
    {
        let a = self.dev.addr;
        let c = self.dev.d_code.code();
        let v = self.value;
        let r = [
            (a % 256) as u8,
            ((a / 256) % 256) as u8,
            ((a / 65536) % 256) as u8,
            (a / 16777216) as u8,
            (c % 256) as u8,
            ((c / 256) % 256) as u8,
            (v % 256) as u8,
            ((v / 256) % 256) as u8,
            ((v / 65536) % 256) as u8,
            (v / 16777216) as u8,
        ];
        assert(r@ =~= spec_dev32(self.dev) + seq![
            byte32(self.value, 0),
            byte32(self.value, 1),
            byte32(self.value, 2),
            byte32(self.value, 3),
        ]);
        r
    }

    /// The device field in the 16-bit layout, then the value, little-endian.
    pub fn pack16(&self) -> (r: [u8; 8])
        ensures
            r@ == spec_dev16(self.dev) + seq![
                byte32(self.value, 0),
                byte32(self.value, 1),
                byte32(self.value, 2),
                byte32(self.value, 3),
            ],
    {
        let a = self.dev.addr;
        let c = self.dev.d_code.code();
        let v = self.value;
        let r = [
            (a % 256) as u8,
            ((a / 256) % 256) as u8,
            ((a / 65536) % 256) as u8,
            (c % 256) as u8,
            (v % 256) as u8,
            ((v / 256) % 256) as u8,
            ((v / 65536) % 256) as u8,
            (v / 16777216) as u8,
        ];
        assert(r@ =~= spec_dev16(self.dev) + seq![
            byte32(self.value, 0),
            byte32(self.value, 1),
            byte32(self.value, 2),
            byte32(self.value, 3),
        ]);
        r
    }

    /// Splits this double-word datum to two word data: the high word at the
    /// source address, the low word at the next address.
    pub fn unpack2words(&self) -> (r: Vec<SLMPDeviceData<u16>>)
        requires
            self.dev.addr < u32::MAX,
        ensures
            r@.len() == 2,
            r@[0].dev == self.dev,
            r@[0].value == self.value / 65536,
            r@[1].dev == (SLMPDevice { d_code: self.dev.d_code, addr: (self.dev.addr + 1) as u32 }),
            r@[1].value == self.value % 65536,
    {
        unpack_dword2word(self)
    }

    /// Expands this double-word datum to its thirty-two per-bit data.
    pub fn unpack2bits(&self) -> (r: Vec<SLMPDeviceData<bool>>)
        requires
            self.dev.addr + 31 <= u32::MAX,
        ensures
            spec_dword_expansion(*self, r@),
    {
        unpack_dword2bit(self)
    }
}

/// The per-bit expansion of a word datum: sixteen boolean data at
/// consecutive addresses, bit 0 at the source address.
pub open spec fn spec_word_expansion(src: SLMPDeviceData<u16>, bits: Seq<SLMPDeviceData<bool>>) -> bool {
    &&& bits.len() == 16
    &&& forall|i: int| 0 <= i < 16 ==> (#[trigger] bits[i]).dev.d_code == src.dev.d_code
    &&& forall|i: int| 0 <= i < 16 ==> (#[trigger] bits[i]).dev.addr == src.dev.addr + i
    &&& forall|i: int| 0 <= i < 16 ==> (#[trigger] bits[i]).value == nth_bit16(src.value, i as u16)
}

/// The per-bit expansion of a double-word datum: thirty-two boolean data
/// at consecutive addresses, bit 0 at the source address.
pub open spec fn spec_dword_expansion(src: SLMPDeviceData<u32>, bits: Seq<SLMPDeviceData<bool>>) -> bool {
    &&& bits.len() == 32
    &&& forall|i: int| 0 <= i < 32 ==> (#[trigger] bits[i]).dev.d_code == src.dev.d_code
    &&& forall|i: int| 0 <= i < 32 ==> (#[trigger] bits[i]).dev.addr == src.dev.addr + i
    &&& forall|i: int| 0 <= i < 32 ==> (#[trigger] bits[i]).value == nth_bit32(src.value, i as u32)
}

/// Expands a word datum to its sixteen per-bit data.
pub fn unpack_word2bit(src: &SLMPDeviceData<u16>) -> (r: Vec<SLMPDeviceData<bool>>)
    requires
        src.dev.addr + 15 <= u32::MAX,
    ensures
        spec_word_expansion(*src, r@),
{
    let mut r: Vec<SLMPDeviceData<bool>> = Vec::new();
    let mut i: u32 = 0;
    while i < 16
        invariant
            src.dev.addr + 15 <= u32::MAX,
            i <= 16,
            r@.len() == i,
            forall|k: int| 0 <= k < i ==> (#[trigger] r@[k]).dev.d_code == src.dev.d_code,
            forall|k: int| 0 <= k < i ==> (#[trigger] r@[k]).dev.addr == src.dev.addr + k,
            forall|k: int| 0 <= k < i ==> (#[trigger] r@[k]).value == nth_bit16(
                src.value,
                k as u16,
            ),
        decreases 16 - i,
    {
        r.push(
            SLMPDeviceData::<bool> {
                dev: SLMPDevice { d_code: src.dev.d_code, addr: src.dev.addr + i },
                value: (src.value >> (i as u16)) & 1 == 1,
            },
        );
        i += 1;
    }
    r
}

/// Expands a double-word datum to its thirty-two per-bit data.
pub fn unpack_dword2bit(src: &SLMPDeviceData<u32>) -> (r: Vec<SLMPDeviceData<bool>>)
    requires
        src.dev.addr + 31 <= u32::MAX,
    ensures
        spec_dword_expansion(*src, r@),
{
    let mut r: Vec<SLMPDeviceData<bool>> = Vec::new();
    let mut i: u32 = 0;
    while i < 32
        invariant
            src.dev.addr + 31 <= u32::MAX,
            i <= 32,
            r@.len() == i,
            forall|k: int| 0 <= k < i ==> (#[trigger] r@[k]).dev.d_code == src.dev.d_code,
            forall|k: int| 0 <= k < i ==> (#[trigger] r@[k]).dev.addr == src.dev.addr + k,
            forall|k: int| 0 <= k < i ==> (#[trigger] r@[k]).value == nth_bit32(
                src.value,
                k as u32,
            ),
        decreases 32 - i,
    {
        r.push(
            SLMPDeviceData::<bool> {
                dev: SLMPDevice { d_code: src.dev.d_code, addr: src.dev.addr + i },
                value: (src.value >> i) & 1 == 1,
            },
        );
        i += 1;
    }
    r
}

/// Splits a double-word datum to two word data: high word first.
pub fn unpack_dword2word(src: &SLMPDeviceData<u32>) -> (r: Vec<SLMPDeviceData<u16>>)
    requires
        src.dev.addr < u32::MAX,
    ensures
        r@.len() == 2,
        r@[0].dev == src.dev,
        r@[0].value == src.value / 65536,
        r@[1].dev == (SLMPDevice { d_code: src.dev.d_code, addr: (src.dev.addr + 1) as u32 }),
        r@[1].value == src.value % 65536,
{
    let mut r: Vec<SLMPDeviceData<u16>> = Vec::new();
    r.push(
        SLMPDeviceData::<u16> { dev: src.dev, value: (src.value / 65536) as u16 },
    );
    r.push(
        SLMPDeviceData::<u16> {
            dev: SLMPDevice { d_code: src.dev.d_code, addr: src.dev.addr + 1 },
            value: (src.value % 65536) as u16,
        },
    );
    r
}

/// Sixteen (or thirty-two) per-bit data are packable when every one has
/// the type of the first and the address ascending by one from the first.
pub open spec fn spec_contiguous_bits(s: Seq<SLMPDeviceData<bool>>) -> bool {
    forall|i: int| 0 <= i < s.len() ==> (#[trigger] s[i]).dev.d_code == s[0].dev.d_code
        && s[i].dev.addr == s[0].dev.addr + i
}

/// Packs sixteen per-bit data at consecutive addresses of one device type
/// back to a single word datum at the first address; rejects input whose
/// addresses are not ascending by one or whose types differ.
pub fn pack_bit2word(src: &[SLMPDeviceData<bool>; 16]) -> (r: Result<
    SLMPDeviceData<u16>,
    &'static str,
>)
    ensures
        r is Ok <==> spec_contiguous_bits(src@),
        r matches Ok(v) ==> v.dev == src@[0].dev && (forall|i: int|
            0 <= i < 16 ==> nth_bit16(v.value, i as u16) == (#[trigger] src@[i]).value),
{
    let mut i: usize = 1;
    while i < 16
        invariant
            1 <= i <= 16,
            forall|k: int| 0 < k < i ==> (#[trigger] src@[k]).dev.d_code == src@[0].dev.d_code
                && src@[k].dev.addr == src@[0].dev.addr + k,
        decreases 16 - i,
    {
        if !(src[i].dev.d_code == src[0].dev.d_code) {
            assert(!spec_contiguous_bits(src@));
            return Err("Different device type");
        }
        if !((src[i].dev.addr as u64) == (src[0].dev.addr as u64) + (i as u64)) {
            assert(!spec_contiguous_bits(src@));
            return Err("Address not contiguous");
        }
        i += 1;
    }
    let mut bits: Vec<bool> = Vec::new();
    let mut k: usize = 0;
    while k < 16
        invariant
            k <= 16,
            bits@.len() == k,
            forall|m: int| 0 <= m < k ==> bits@[m] == (#[trigger] src@[m]).value,
        decreases 16 - k,
    {
        bits.push(src[k].value);
        k += 1;
    }
    let packed = pack_bits_by_word(bits.as_slice());
    let b0 = packed[0];
    let b1 = packed[1];
    let value: u16 = (b0 as u16) + 256 * (b1 as u16);
    proof {
        lemma_word_bits_from_bytes(b0, b1);
        assert forall|i: int| 0 <= i < 16 implies nth_bit16(value, i as u16) == (
        #[trigger] src@[i]).value by {
            lemma_mask_byte_bits(bits@, i / 8, (i % 8) as u8);
            assert(8 * (i / 8) + (i % 8) == i);
        }
    }
    Ok(SLMPDeviceData::<u16> { dev: src[0].dev, value })
}

/// Packs thirty-two per-bit data at consecutive addresses of one device
/// type back to a single double-word datum at the first address; rejects
/// input whose addresses are not ascending by one or whose types differ.
pub fn pack_bit2dword(src: &[SLMPDeviceData<bool>; 32]) -> (r: Result<
    SLMPDeviceData<u32>,
    &'static str,
>)
    ensures
        r is Ok <==> spec_contiguous_bits(src@),
        r matches Ok(v) ==> v.dev == src@[0].dev && (forall|i: int|
            0 <= i < 32 ==> nth_bit32(v.value, i as u32) == (#[trigger] src@[i]).value),
{
    let mut i: usize = 1;
    while i < 32
        invariant
            1 <= i <= 32,
            forall|k: int| 0 < k < i ==> (#[trigger] src@[k]).dev.d_code == src@[0].dev.d_code
                && src@[k].dev.addr == src@[0].dev.addr + k,
        decreases 32 - i,
    {
        if !(src[i].dev.d_code == src[0].dev.d_code) {
            assert(!spec_contiguous_bits(src@));
            return Err("Different device type");
        }
        if !((src[i].dev.addr as u64) == (src[0].dev.addr as u64) + (i as u64)) {
            assert(!spec_contiguous_bits(src@));
            return Err("Address not contiguous");
        }
        i += 1;
    }
    let mut bits: Vec<bool> = Vec::new();
    let mut k: usize = 0;
    while k < 32
        invariant
            k <= 32,
            bits@.len() == k,
            forall|m: int| 0 <= m < k ==> bits@[m] == (#[trigger] src@[m]).value,
        decreases 32 - k,
    {
        bits.push(src[k].value);
        k += 1;
    }
    let packed = pack_bits_by_word(bits.as_slice());
    let b0 = packed[0];
    let b1 = packed[1];
    let b2 = packed[2];
    let b3 = packed[3];
    let value: u32 = (b0 as u32) + 256 * (b1 as u32) + 65536 * (b2 as u32) + 16777216 * (
    b3 as u32);
    proof {
        lemma_dword_bits_from_bytes(b0, b1, b2, b3);
        assert forall|i: int| 0 <= i < 32 implies nth_bit32(value, i as u32) == (
        #[trigger] src@[i]).value by {
            lemma_mask_byte_bits(bits@, i / 8, (i % 8) as u8);
            assert(8 * (i / 8) + (i % 8) == i);
        }
    }
    Ok(SLMPDeviceData::<u32> { dev: src[0].dev, value })
}

/// A word is determined by its sixteen bits: two words that agree on every
/// bit are equal.  With the contracts of [`unpack_word2bit`] and
/// [`pack_bit2word`] this gives the expansion round trip.
pub proof fn lemma_word_determined_by_bits(a: u16, b: u16)
    requires
        forall|i: u16| i < 16 ==> nth_bit16(a, i) == nth_bit16(b, i),
    ensures
        a == b,
{
    assert(nth_bit16(a, 0) == nth_bit16(b, 0));
    assert(nth_bit16(a, 1) == nth_bit16(b, 1));
    assert(nth_bit16(a, 2) == nth_bit16(b, 2));
    assert(nth_bit16(a, 3) == nth_bit16(b, 3));
    assert(nth_bit16(a, 4) == nth_bit16(b, 4));
    assert(nth_bit16(a, 5) == nth_bit16(b, 5));
    assert(nth_bit16(a, 6) == nth_bit16(b, 6));
    assert(nth_bit16(a, 7) == nth_bit16(b, 7));
    assert(nth_bit16(a, 8) == nth_bit16(b, 8));
    assert(nth_bit16(a, 9) == nth_bit16(b, 9));
    assert(nth_bit16(a, 10) == nth_bit16(b, 10));
    assert(nth_bit16(a, 11) == nth_bit16(b, 11));
    assert(nth_bit16(a, 12) == nth_bit16(b, 12));
    assert(nth_bit16(a, 13) == nth_bit16(b, 13));
    assert(nth_bit16(a, 14) == nth_bit16(b, 14));
    assert(nth_bit16(a, 15) == nth_bit16(b, 15));
    lemma_u16_eq_by_bits(a, b);
}

/// A double word is determined by its thirty-two bits.
pub proof fn lemma_dword_determined_by_bits(a: u32, b: u32)
    requires
        forall|i: u32| i < 32 ==> nth_bit32(a, i) == nth_bit32(b, i),
    ensures
        a == b,
{
    assert forall|i: u32| i < 32 implies nth_bit32(a, i) == nth_bit32(b, i) by {}
    lemma_u32_eq_by_bits(a, b);
}

/// Expanding a word datum to per-bit data and re-packing them yields the
/// original datum: the bit data any expansion produces, any packing of
/// them reproduces.  Stated over the contracts of [`unpack_word2bit`]
/// (which yields `bits`) and [`pack_bit2word`] (which yields `v`).
pub proof fn lemma_word_expansion_round_trip(
    src: SLMPDeviceData<u16>,
    bits: Seq<SLMPDeviceData<bool>>,
    v: SLMPDeviceData<u16>,
)
    requires
        spec_word_expansion(src, bits),
        v.dev == bits[0].dev,
        forall|i: int| 0 <= i < 16 ==> nth_bit16(v.value, i as u16) == (#[trigger] bits[i]).value,
    ensures
        v == src,
{
    assert forall|i: u16| i < 16 implies nth_bit16(v.value, i) == nth_bit16(src.value, i) by {
        assert(bits[i as int].value == nth_bit16(src.value, i));
    }
    lemma_word_determined_by_bits(v.value, src.value);
    assert(bits[0].dev.addr == src.dev.addr + 0);
}

/// Expanding a double-word datum to per-bit data and re-packing them
/// yields the original datum.  Stated over the contracts of
/// [`unpack_dword2bit`] and [`pack_bit2dword`].
pub proof fn lemma_dword_expansion_round_trip(
    src: SLMPDeviceData<u32>,
    bits: Seq<SLMPDeviceData<bool>>,
    v: SLMPDeviceData<u32>,
)
    requires
        spec_dword_expansion(src, bits),
        v.dev == bits[0].dev,
        forall|i: int| 0 <= i < 32 ==> nth_bit32(v.value, i as u32) == (#[trigger] bits[i]).value,
    ensures
        v == src,
{
    assert forall|i: u32| i < 32 implies nth_bit32(v.value, i) == nth_bit32(src.value, i) by {
        assert(bits[i as int].value == nth_bit32(src.value, i));
    }
    lemma_dword_determined_by_bits(v.value, src.value);
    assert(bits[0].dev.addr == src.dev.addr + 0);
}

/// An expansion's bit data are always packable: they are contiguous,
/// ascending by one, of a single device type.
pub proof fn lemma_expansion_is_contiguous(src: SLMPDeviceData<u16>, bits: Seq<SLMPDeviceData<bool>>)
    requires
        spec_word_expansion(src, bits),
    ensures
        spec_contiguous_bits(bits),
{
    assert forall|i: int| 0 <= i < bits.len() implies (#[trigger] bits[i]).dev.d_code
        == bits[0].dev.d_code && bits[i].dev.addr == bits[0].dev.addr + i by {
        assert(bits[0].dev.addr == src.dev.addr + 0);
        assert(bits[0].dev.d_code == src.dev.d_code);
    }
}

/// A contiguous device block: a first device and a point count.  For
/// boolean blocks the count is in 16-bit words; for word blocks it is in
/// elements.
#[derive(Copy, Clone, Debug, Hash, PartialEq, Eq, Structural)]
pub struct SLMPDeviceBlock {
    /// The first device of the run.
    pub top_device: SLMPDevice,
    /// The point count.
    pub count: u16,
}

/// The block field in the 16-bit layout: device field, then the count,
/// little-endian.
pub open spec fn spec_block16(b: SLMPDeviceBlock) -> Seq<u8> {
    spec_dev16(b.top_device) + crate::bytes::le16(b.count)
}

/// The block field in the 32-bit layout.
pub open spec fn spec_block32(b: SLMPDeviceBlock) -> Seq<u8> {
    spec_dev32(b.top_device) + crate::bytes::le16(b.count)
}

impl SLMPDeviceBlock {
    /// The block field in the 16-bit address layout.
    pub fn pack16(&self) -> (r: [u8; 6])
        ensures
            r@ == spec_block16(*self),
    {
        let a = self.top_device.addr;
        let c = self.top_device.d_code.code();
        let r = [
            (a % 256) as u8,
            ((a / 256) % 256) as u8,
            ((a / 65536) % 256) as u8,
            (c % 256) as u8,
            (self.count % 256) as u8,
            (self.count / 256) as u8,
        ];
        assert(r@ =~= spec_block16(*self));
        r
    }

    /// The block field in the 32-bit address layout.
    pub fn pack32(&self) -> (r: [u8; 8])
        ensures
            r@ == spec_block32(*self),
    {
        let a = self.top_device.addr;
        let c = self.top_device.d_code.code();
        let r = [
            (a % 256) as u8,
            ((a / 256) % 256) as u8,
            ((a / 65536) % 256) as u8,
            (a / 16777216) as u8,
            (c % 256) as u8,
            ((c / 256) % 256) as u8,
            (self.count % 256) as u8,
            (self.count / 256) as u8,
        ];
        assert(r@ =~= spec_block32(*self));
        r
    }
}

/// Appends the 16-bit-layout block field of `b` to `buf`.
pub fn push_block16(buf: &mut Vec<u8>, b: SLMPDeviceBlock)
    ensures
        final(buf)@ == old(buf)@ + spec_block16(b),
{
    push_dev16(buf, b.top_device);
    crate::bytes::push_le16(buf, b.count);
    assert(buf@ =~= old(buf)@ + spec_block16(b));
}

/// Appends the 32-bit-layout block field of `b` to `buf`.
pub fn push_block32(buf: &mut Vec<u8>, b: SLMPDeviceBlock)
    ensures
        final(buf)@ == old(buf)@ + spec_block32(b),
{
    push_dev32(buf, b.top_device);
    crate::bytes::push_le16(buf, b.count);
    assert(buf@ =~= old(buf)@ + spec_block32(b));
}

/// A device block together with its dense backing data.  Element `i` sits
/// at address `top_device.addr + i`; all elements share the block's device
/// type; the data is mutated only through bounds-checked access.
#[derive(Clone, Debug, Hash)]
pub struct SLMPDeviceBlockData<T> {
    /// The block the data belongs to.
    pub device_block: SLMPDeviceBlock,
    value: Vec<T>,
}

impl<T> SLMPDeviceBlockData<T> {
    /// The backing elements, in address order.
    pub closed spec fn values(&self) -> Seq<T> {
        self.value@
    }

    /// The block the data belongs to, for use in contracts.
    pub closed spec fn spec_block(&self) -> SLMPDeviceBlock {
        self.device_block
    }

}

impl SLMPDeviceBlockData<bool> {
    /// A boolean block is well formed when it holds sixteen booleans per
    /// counted word.
    pub open spec fn wf(&self) -> bool {
        self.values().len() == 16 * self.spec_block().count
    }

    /// A fresh boolean block, all elements `false`.
    pub fn new(top_device: SLMPDevice, count: u16) -> (r: SLMPDeviceBlockData<bool>)
        ensures
            r.spec_block() == (SLMPDeviceBlock { top_device, count }),
            r.wf(),
            r.values() == Seq::new((16 * count) as nat, |i: int| false),
    {
        let mut value: Vec<bool> = Vec::new();
        let total: usize = 16 * (count as usize);
        let mut i: usize = 0;
        while i < total
            invariant
                i <= total,
                value@.len() == i,
                forall|k: int| 0 <= k < i ==> value@[k] == false,
            decreases total - i,
        {
            value.push(false);
            i += 1;
        }
        let r = SLMPDeviceBlockData::<bool> {
            device_block: SLMPDeviceBlock { top_device, count },
            value,
        };
        assert(r.values() =~= Seq::new((16 * count) as nat, |i: int| false));
        r
    }

    /// Replaces the whole backing data; `buf` must have exactly the
    /// block's length.
    pub fn sets(&mut self, buf: &[bool])
        requires
            buf@.len() == old(self).values().len(),
        ensures
            final(self).spec_block() == old(self).spec_block(),
            final(self).values() == buf@,
    {
        self.value.clear();
        let n = buf.len();
        let mut i: usize = 0;
        while i < n
            invariant
                n == buf@.len(),
                i <= n,
                self.value@.len() == i,
                self.device_block == old(self).device_block,
                forall|k: int| 0 <= k < i ==> self.value@[k] == buf@[k],
            decreases n - i,
        {
            self.value.push(buf[i]);
            i += 1;
        }
        assert(self.value@ =~= buf@);
    }

    /// Stores one bit datum at its device's address.  The datum is
    /// rejected if its device type differs from the block's, or its
    /// address falls outside `top .. top + 16 * count`.
    pub fn set(&mut self, dd: SLMPDeviceData<bool>) -> (r: Result<(), &'static str>)
        requires
            old(self).wf(),
        ensures
            final(self).wf(),
            final(self).spec_block() == old(self).spec_block(),
            r is Ok <==> dd.dev.d_code == old(self).spec_block().top_device.d_code
                && old(self).spec_block().top_device.addr <= dd.dev.addr
                && dd.dev.addr - old(self).spec_block().top_device.addr < 16 * old(
                self,
            ).spec_block().count,
            r is Ok ==> final(self).values() == old(self).values().update(
                dd.dev.addr - old(self).spec_block().top_device.addr,
                dd.value,
            ),
            r is Err ==> final(self).values() == old(self).values(),
    {
        if !(dd.dev.d_code == self.device_block.top_device.d_code) {
            return Err("Different device");
        }
        let top = self.device_block.top_device.addr;
        if dd.dev.addr < top {
            return Err("Address Not in range");
        }
        let off = dd.dev.addr - top;
        if off >= 16 * (self.device_block.count as u32) {
            return Err("Address Not in range");
        }
        let idx = off as usize;
        self.value[idx] = dd.value;
        Ok(())
    }

    /// Reads one bit datum by device.  The same bounds rule as [`Self::set`].
    pub fn get(&self, dev: SLMPDevice) -> (r: Result<SLMPDeviceData<bool>, &'static str>)
        requires
            self.wf(),
        ensures
            r is Ok <==> dev.d_code == self.spec_block().top_device.d_code
                && self.spec_block().top_device.addr <= dev.addr && dev.addr
                - self.spec_block().top_device.addr < 16 * self.spec_block().count,
            r matches Ok(v) ==> v.dev == dev && v.value == self.values()[dev.addr
                - self.spec_block().top_device.addr],
    {
        if !(dev.d_code == self.device_block.top_device.d_code) {
            return Err("Different device");
        }
        let top = self.device_block.top_device.addr;
        if dev.addr < top {
            return Err("Address Not in range");
        }
        let off = dev.addr - top;
        if off >= 16 * (self.device_block.count as u32) {
            return Err("Address Not in range");
        }
        let idx = off as usize;
        Ok(SLMPDeviceData::<bool> { dev, value: self.value[idx] })
    }

    /// The first `count` bit data of the block, one per counted point.
    pub fn gets(&self) -> (r: Vec<SLMPDeviceData<bool>>)
        requires
            self.wf(),
            self.spec_block().top_device.addr + self.spec_block().count <= u32::MAX + 1,
        ensures
            r@.len() == self.spec_block().count,
            forall|i: int| 0 <= i < r@.len() ==> #[trigger] r@[i] == (SLMPDeviceData::<bool> {
                dev: SLMPDevice {
                    d_code: self.spec_block().top_device.d_code,
                    addr: (self.spec_block().top_device.addr + i) as u32,
                },
                value: self.values()[i],
            }),
    {
        let mut r: Vec<SLMPDeviceData<bool>> = Vec::new();
        let count = self.device_block.count;
        let mut i: usize = 0;
        while i < count as usize
            invariant
                self.wf(),
                count == self.device_block.count,
                self.device_block.top_device.addr + count <= u32::MAX + 1,
                i <= count,
                r@.len() == i,
                forall|k: int| 0 <= k < i ==> #[trigger] r@[k] == (SLMPDeviceData::<bool> {
                    dev: SLMPDevice {
                        d_code: self.device_block.top_device.d_code,
                        addr: (self.device_block.top_device.addr + k) as u32,
                    },
                    value: self.values()[k],
                }),
            decreases count - i,
        {
            r.push(
                SLMPDeviceData::<bool> {
                    dev: SLMPDevice {
                        d_code: self.device_block.top_device.d_code,
                        addr: self.device_block.top_device.addr + (i as u32),
                    },
                    value: self.value[i],
                },
            );
            i += 1;
        }
        r
    }

    /// The block field in the 16-bit layout followed by the data, packed
    /// by word.
    pub fn pack16(&self) -> (r: Vec<u8>)
        requires
            self.wf(),
        ensures
            r@ == spec_block16(self.spec_block()) + spec_pack_bits_by_word(self.values()),
    {
        let mut buf: Vec<u8> = Vec::new();
        push_block16(&mut buf, self.device_block);
        let mut packed = pack_bits_by_word(self.value.as_slice());
        buf.append(&mut packed);
        buf
    }

    /// The block field in the 32-bit layout followed by the data, packed
    /// by word.
    pub fn pack32(&self) -> (r: Vec<u8>)
        requires
            self.wf(),
        ensures
            r@ == spec_block32(self.spec_block()) + spec_pack_bits_by_word(self.values()),
    {
        let mut buf: Vec<u8> = Vec::new();
        push_block32(&mut buf, self.device_block);
        let mut packed = pack_bits_by_word(self.value.as_slice());
        buf.append(&mut packed);
        buf
    }

    /// Fills the block from a response payload: two bitmask bytes per
    /// counted word.
    pub fn decode(&mut self, buf: &[u8])
        requires
            old(self).wf(),
            buf@.len() == 2 * old(self).spec_block().count,
        ensures
            final(self).spec_block() == old(self).spec_block(),
            final(self).wf(),
            final(self).values() == crate::packing::spec_unpack_bits_by_word(buf@),
    {
        let data = crate::packing::unpack_bits_by_word(buf);
        self.sets(data.as_slice());
    }
}

impl SLMPDeviceBlockData<u16> {
    /// A word block is well formed when it holds one word per counted
    /// point.
    pub open spec fn wf(&self) -> bool {
        self.values().len() == self.spec_block().count
    }

    /// A fresh word block, all elements zero.
    pub fn new(top_device: SLMPDevice, count: u16) -> (r: SLMPDeviceBlockData<u16>)
        ensures
            r.spec_block() == (SLMPDeviceBlock { top_device, count }),
            r.wf(),
            r.values() == Seq::new(count as nat, |i: int| 0u16),
    {
        let mut value: Vec<u16> = Vec::new();
        let mut i: usize = 0;
        while i < count as usize
            invariant
                i <= count,
                value@.len() == i,
                forall|k: int| 0 <= k < i ==> value@[k] == 0u16,
            decreases count - i,
        {
            value.push(0u16);
            i += 1;
        }
        let r = SLMPDeviceBlockData::<u16> {
            device_block: SLMPDeviceBlock { top_device, count },
            value,
        };
        assert(r.values() =~= Seq::new(count as nat, |i: int| 0u16));
        r
    }

    /// Replaces the whole backing data; `buf` must have exactly the
    /// block's length.
    pub fn sets(&mut self, buf: &[u16])
        requires
            buf@.len() == old(self).values().len(),
        ensures
            final(self).spec_block() == old(self).spec_block(),
            final(self).values() == buf@,
    {
        self.value.clear();
        let n = buf.len();
        let mut i: usize = 0;
        while i < n
            invariant
                n == buf@.len(),
                i <= n,
                self.value@.len() == i,
                self.device_block == old(self).device_block,
                forall|k: int| 0 <= k < i ==> self.value@[k] == buf@[k],
            decreases n - i,
        {
            self.value.push(buf[i]);
            i += 1;
        }
        assert(self.value@ =~= buf@);
    }

    /// Stores one word datum at its device's address.  The datum is
    /// rejected if its device type differs from the block's, or its
    /// address falls outside `top .. top + count`.
    pub fn set(&mut self, dd: SLMPDeviceData<u16>) -> (r: Result<(), &'static str>)
        requires
            old(self).wf(),
        ensures
            final(self).wf(),
            final(self).spec_block() == old(self).spec_block(),
            r is Ok <==> dd.dev.d_code == old(self).spec_block().top_device.d_code
                && old(self).spec_block().top_device.addr <= dd.dev.addr
                && dd.dev.addr - old(self).spec_block().top_device.addr < old(
                self,
            ).spec_block().count,
            r is Ok ==> final(self).values() == old(self).values().update(
                dd.dev.addr - old(self).spec_block().top_device.addr,
                dd.value,
            ),
            r is Err ==> final(self).values() == old(self).values(),
    {
        if !(dd.dev.d_code == self.device_block.top_device.d_code) {
            return Err("Different device");
        }
        let top = self.device_block.top_device.addr;
        if dd.dev.addr < top {
            return Err("Address Not in range");
        }
        let off = dd.dev.addr - top;
        if off >= self.device_block.count as u32 {
            return Err("Address Not in range");
        }
        let idx = off as usize;
        self.value[idx] = dd.value;
        Ok(())
    }

    /// Reads one word datum by device.  The same bounds rule as
    /// [`Self::set`]: the address must fall in `top .. top + count`.
    pub fn get(&self, dev: SLMPDevice) -> (r: Result<SLMPDeviceData<u16>, &'static str>)
        requires
            self.wf(),
        ensures
            r is Ok <==> dev.d_code == self.spec_block().top_device.d_code
                && self.spec_block().top_device.addr <= dev.addr && dev.addr
                - self.spec_block().top_device.addr < self.spec_block().count,
            r matches Ok(v) ==> v.dev == dev && v.value == self.values()[dev.addr
                - self.spec_block().top_device.addr],
    {
        if !(dev.d_code == self.device_block.top_device.d_code) {
            return Err("Different device");
        }
        let top = self.device_block.top_device.addr;
        if dev.addr < top {
            return Err("Address Not in range");
        }
        let off = dev.addr - top;
        if off >= self.device_block.count as u32 {
            return Err("Address Not in range");
        }
        let idx = off as usize;
        Ok(SLMPDeviceData::<u16> { dev, value: self.value[idx] })
    }

    /// The word data of the block, one per counted point.
    pub fn gets(&self) -> (r: Vec<SLMPDeviceData<u16>>)
        requires
            self.wf(),
            self.spec_block().top_device.addr + self.spec_block().count <= u32::MAX + 1,
        ensures
            r@.len() == self.spec_block().count,
            forall|i: int| 0 <= i < r@.len() ==> #[trigger] r@[i] == (SLMPDeviceData::<u16> {
                dev: SLMPDevice {
                    d_code: self.spec_block().top_device.d_code,
                    addr: (self.spec_block().top_device.addr + i) as u32,
                },
                value: self.values()[i],
            }),
    {
        let mut r: Vec<SLMPDeviceData<u16>> = Vec::new();
        let count = self.device_block.count;
        let mut i: usize = 0;
        while i < count as usize
            invariant
                self.wf(),
                count == self.device_block.count,
                self.device_block.top_device.addr + count <= u32::MAX + 1,
                i <= count,
                r@.len() == i,
                forall|k: int| 0 <= k < i ==> #[trigger] r@[k] == (SLMPDeviceData::<u16> {
                    dev: SLMPDevice {
                        d_code: self.device_block.top_device.d_code,
                        addr: (self.device_block.top_device.addr + k) as u32,
                    },
                    value: self.values()[k],
                }),
            decreases count - i,
        {
            r.push(
                SLMPDeviceData::<u16> {
                    dev: SLMPDevice {
                        d_code: self.device_block.top_device.d_code,
                        addr: self.device_block.top_device.addr + (i as u32),
                    },
                    value: self.value[i],
                },
            );
            i += 1;
        }
        r
    }

    /// The block field in the 16-bit layout followed by the data, one
    /// little-endian byte pair per word.
    pub fn pack16(&self) -> (r: Vec<u8>)
        requires
            self.wf(),
        ensures
            r@ == spec_block16(self.spec_block()) + crate::packing::spec_pack_words_by_word(
                self.values(),
            ),
    {
        let mut buf: Vec<u8> = Vec::new();
        push_block16(&mut buf, self.device_block);
        let mut packed = crate::packing::pack_words_by_word(self.value.as_slice());
        buf.append(&mut packed);
        buf
    }

    /// The block field in the 32-bit layout followed by the data, one
    /// little-endian byte pair per word.
    pub fn pack32(&self) -> (r: Vec<u8>)
        requires
            self.wf(),
        ensures
            r@ == spec_block32(self.spec_block()) + crate::packing::spec_pack_words_by_word(
                self.values(),
            ),
    {
        let mut buf: Vec<u8> = Vec::new();
        push_block32(&mut buf, self.device_block);
        let mut packed = crate::packing::pack_words_by_word(self.value.as_slice());
        buf.append(&mut packed);
        buf
    }

    /// Fills the block from a response payload: one little-endian byte
    /// pair per counted word.
    pub fn decode(&mut self, buf: &[u8])
        requires
            old(self).wf(),
            buf@.len() == 2 * old(self).spec_block().count,
        ensures
            final(self).spec_block() == old(self).spec_block(),
            final(self).wf(),
            Some(final(self).values()) == crate::packing::spec_unpack_words_by_word(buf@),
    {
        match crate::packing::unpack_words_by_word(buf) {
            Ok(data) => {
                self.sets(data.as_slice());
            },
            Err(_) => {
                proof {
                    assert(false);
                }
            },
        }
    }
}

/// A double-word expansion's bit data are always packable too.
pub proof fn lemma_dword_expansion_is_contiguous(
    src: SLMPDeviceData<u32>,
    bits: Seq<SLMPDeviceData<bool>>,
)
    requires
        spec_dword_expansion(src, bits),
    ensures
        spec_contiguous_bits(bits),
{
    assert forall|i: int| 0 <= i < bits.len() implies (#[trigger] bits[i]).dev.d_code
        == bits[0].dev.d_code && bits[i].dev.addr == bits[0].dev.addr + i by {
        assert(bits[0].dev.addr == src.dev.addr + 0);
        assert(bits[0].dev.d_code == src.dev.d_code);
    }
}

/// The partial order of devices: by address within one device type,
/// undefined across differing types.
pub open spec fn spec_device_order(a: SLMPDevice, b: SLMPDevice) -> Option<core::cmp::Ordering> {
    if a.d_code == b.d_code {
        if a.addr == b.addr {
            Some(core::cmp::Ordering::Equal)
        } else if a.addr < b.addr {
            Some(core::cmp::Ordering::Less)
        } else {
            Some(core::cmp::Ordering::Greater)
        }
    } else {
        None
    }
}

impl PartialOrd for SLMPDevice {
    fn partial_cmp(&self, other: &Self) -> (r: Option<core::cmp::Ordering>) {
        if self.d_code == other.d_code {
            if self.addr == other.addr {
                Some(core::cmp::Ordering::Equal)
            } else if self.addr < other.addr {
                Some(core::cmp::Ordering::Less)
            } else {
                Some(core::cmp::Ordering::Greater)
            }
        } else {
            None
        }
    }
}

impl vstd::std_specs::cmp::PartialOrdSpecImpl for SLMPDevice {
    open spec fn obeys_partial_cmp_spec() -> bool {
        true
    }

    open spec fn partial_cmp_spec(&self, other: &Self) -> Option<core::cmp::Ordering> {
        spec_device_order(*self, *other)
    }
}

impl PartialOrd for SLMPDeviceData<bool> {
    fn partial_cmp(&self, other: &Self) -> (r: Option<core::cmp::Ordering>) {
        self.dev.partial_cmp(&other.dev)
    }
}

impl vstd::std_specs::cmp::PartialOrdSpecImpl for SLMPDeviceData<bool> {
    open spec fn obeys_partial_cmp_spec() -> bool {
        true
    }

    open spec fn partial_cmp_spec(&self, other: &Self) -> Option<core::cmp::Ordering> {
        spec_device_order(self.dev, other.dev)
    }
}

impl PartialOrd for SLMPDeviceData<u16> {
    fn partial_cmp(&self, other: &Self) -> (r: Option<core::cmp::Ordering>) {
        self.dev.partial_cmp(&other.dev)
    }
}

impl vstd::std_specs::cmp::PartialOrdSpecImpl for SLMPDeviceData<u16> {
    open spec fn obeys_partial_cmp_spec() -> bool {
        true
    }

    open spec fn partial_cmp_spec(&self, other: &Self) -> Option<core::cmp::Ordering> {
        spec_device_order(self.dev, other.dev)
    }
}

impl PartialOrd for SLMPDeviceData<u32> {
    fn partial_cmp(&self, other: &Self) -> (r: Option<core::cmp::Ordering>) {
        self.dev.partial_cmp(&other.dev)
    }
}

impl vstd::std_specs::cmp::PartialOrdSpecImpl for SLMPDeviceData<u32> {
    open spec fn obeys_partial_cmp_spec() -> bool {
        true
    }

    open spec fn partial_cmp_spec(&self, other: &Self) -> Option<core::cmp::Ordering> {
        spec_device_order(self.dev, other.dev)
    }
}

impl PartialOrd for SLMPDeviceBlock {
    fn partial_cmp(&self, other: &Self) -> (r: Option<core::cmp::Ordering>) {
        self.top_device.partial_cmp(&other.top_device)
    }
}

impl vstd::std_specs::cmp::PartialOrdSpecImpl for SLMPDeviceBlock {
    open spec fn obeys_partial_cmp_spec() -> bool {
        true
    }

    open spec fn partial_cmp_spec(&self, other: &Self) -> Option<core::cmp::Ordering> {
        spec_device_order(self.top_device, other.top_device)
    }
}

} // verus!
