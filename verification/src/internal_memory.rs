//! Request builders and decoders for device access: batch read/write,
//! random access, monitor registration and block transfer.
//!
//! Builders validate their arguments and shape the payload; decoders turn
//! response payloads back into device data.  16- and 32-bit variants
//! differ only in the device field layout and the sub-command.

use vstd::prelude::*;

use crate::bytes::{
    dword_of, le16, lemma_concat_bytes_take_all, lemma_concat_bytes_take_step, push_le16,
    spec_concat_bytes, word_of,
};
use crate::device::{
    push_block16, push_block32, push_dev16, push_dev32, spec_block16, spec_block32, spec_dev16,
    spec_dev32, SLMPDevice, SLMPDeviceBlock, SLMPDeviceBlockData, SLMPDeviceData,
};
use crate::enums::SLMPCommand;
use crate::packing::{
    pack_bits_by_bit, pack_words_by_word, spec_pack_bits_by_bit, spec_pack_words_by_word,
    spec_unpack_bits_by_bit, spec_unpack_bits_by_word, spec_unpack_words_by_word,
    unpack_bits_by_bit, unpack_words_by_word,
};
use crate::session::{spec_sent, SLMPConnectionInfo, SendRequest};

verus! {

/// A bit read must ask for an even number of points: an odd count is
/// rounded up by one.
pub open spec fn spec_even_count(count: u16) -> u16 {
    if count % 2 == 1 {
        (count + 1) as u16
    } else {
        count
    }
}

/// Prepares a batch read of `count` devices from `target` on, with 16-bit
/// addressing.  A bit read (`is_bit`) uses sub-command 1 and rounds an odd
/// count up to even; a word read uses sub-command 0.
pub fn send_read_cmd_16(
    connection_info: &mut SLMPConnectionInfo,
    timeout: u16,
    target: SLMPDevice,
    count: u16,
    is_bit: bool,
) -> (r: SendRequest)
    requires
        old(connection_info).wf(),
        !(is_bit && count == 0xFFFF),
    ensures
        spec_sent(
            *old(connection_info),
            *final(connection_info),
            r,
            timeout,
            SLMPCommand::DeviceRead,
            (if is_bit { 1u16 } else { 0u16 }),
            spec_dev16(target) + le16(if is_bit { spec_even_count(count) } else { count }),
        ),
{
    let c: u16 = if is_bit && count % 2 == 1 { count + 1 } else { count };
    let s_cmd: u16 = if is_bit { 1 } else { 0 };
    let mut buf: Vec<u8> = Vec::new();
    push_dev16(&mut buf, target);
    push_le16(&mut buf, c);
    assert(buf@ =~= spec_dev16(target) + le16(if is_bit { spec_even_count(count) } else { count }));
    connection_info.send_cmd(timeout, SLMPCommand::DeviceRead, s_cmd, buf.as_slice())
}

/// Prepares a batch read of `count` devices from `target` on, with 32-bit
/// addressing.  A bit read uses sub-command 3; a word read, 2.
pub fn send_read_cmd_32(
    connection_info: &mut SLMPConnectionInfo,
    timeout: u16,
    target: SLMPDevice,
    count: u16,
    is_bit: bool,
) -> (r: SendRequest)
    requires
        old(connection_info).wf(),
        !(is_bit && count == 0xFFFF),
    ensures
        spec_sent(
            *old(connection_info),
            *final(connection_info),
            r,
            timeout,
            SLMPCommand::DeviceRead,
            (if is_bit { 3u16 } else { 2u16 }),
            spec_dev32(target) + le16(if is_bit { spec_even_count(count) } else { count }),
        ),
{
    let c: u16 = if is_bit && count % 2 == 1 { count + 1 } else { count };
    let s_cmd: u16 = if is_bit { 3 } else { 2 };
    let mut buf: Vec<u8> = Vec::new();
    push_dev32(&mut buf, target);
    push_le16(&mut buf, c);
    assert(buf@ =~= spec_dev32(target) + le16(if is_bit { spec_even_count(count) } else { count }));
    connection_info.send_cmd(timeout, SLMPCommand::DeviceRead, s_cmd, buf.as_slice())
}

/// Decodes a bit-read response: each nibble-pair byte yields two bit data
/// at consecutive addresses from `target` on.  A byte that is no valid
/// nibble pair makes the whole payload invalid.
pub fn decode_read_bit_response(buf: &[u8], target: SLMPDevice) -> (r: Result<
    Vec<SLMPDeviceData<bool>>,
    &'static str,
>)
    requires
        target.addr + 2 * buf@.len() <= u32::MAX + 1,
    ensures
        r is Ok <==> spec_unpack_bits_by_bit(buf@) is Some,
        r matches Ok(v) ==> {
            &&& v@.len() == 2 * buf@.len()
            &&& forall|i: int| 0 <= i < v@.len() ==> (#[trigger] v@[i]).dev.d_code == target.d_code
            &&& forall|i: int| 0 <= i < v@.len() ==> (#[trigger] v@[i]).dev.addr == target.addr + i
            &&& forall|i: int| 0 <= i < v@.len() ==> (#[trigger] v@[i]).value
                == spec_unpack_bits_by_bit(buf@)->Some_0[i]
        },
{
    let bs = match unpack_bits_by_bit(buf) {
        Ok(bs) => bs,
        Err(e) => {
            return Err(e);
        },
    };
    let mut ret: Vec<SLMPDeviceData<bool>> = Vec::new();
    let n = bs.len();
    let mut i: usize = 0;
    while i < n
        invariant
            n == bs@.len(),
            n == 2 * buf@.len(),
            target.addr + n <= u32::MAX + 1,
            i <= n,
            ret@.len() == i,
            forall|k: int| 0 <= k < i ==> (#[trigger] ret@[k]).dev.d_code == target.d_code,
            forall|k: int| 0 <= k < i ==> (#[trigger] ret@[k]).dev.addr == target.addr + k,
            forall|k: int| 0 <= k < i ==> (#[trigger] ret@[k]).value == bs@[k],
        decreases n - i,
    {
        ret.push(
            SLMPDeviceData::<bool> {
                dev: SLMPDevice { d_code: target.d_code, addr: target.addr + (i as u32) },
                value: bs[i],
            },
        );
        i += 1;
    }
    Ok(ret)
}

/// Decodes a word-read response: each little-endian byte pair yields one
/// word datum at consecutive addresses from `target` on.  An odd byte
/// count is rejected.
pub fn decode_read_word_response(buf: &[u8], target: SLMPDevice) -> (r: Result<
    Vec<SLMPDeviceData<u16>>,
    &'static str,
>)
    requires
        target.addr + buf@.len() / 2 <= u32::MAX + 1,
    ensures
        r is Ok <==> buf@.len() % 2 == 0,
        r matches Ok(v) ==> {
            &&& v@.len() == buf@.len() / 2
            &&& forall|i: int| 0 <= i < v@.len() ==> (#[trigger] v@[i]).dev.d_code == target.d_code
            &&& forall|i: int| 0 <= i < v@.len() ==> (#[trigger] v@[i]).dev.addr == target.addr + i
            &&& forall|i: int| 0 <= i < v@.len() ==> (#[trigger] v@[i]).value == word_of(
                buf@[2 * i],
                buf@[2 * i + 1],
            )
        },
{
    let ws = match unpack_words_by_word(buf) {
        Ok(ws) => ws,
        Err(e) => {
            return Err(e);
        },
    };
    let mut ret: Vec<SLMPDeviceData<u16>> = Vec::new();
    let n = ws.len();
    let mut i: usize = 0;
    while i < n
        invariant
            n == ws@.len(),
            n == buf@.len() / 2,
            Some(ws@) == spec_unpack_words_by_word(buf@),
            target.addr + n <= u32::MAX + 1,
            i <= n,
            ret@.len() == i,
            forall|k: int| 0 <= k < i ==> (#[trigger] ret@[k]).dev.d_code == target.d_code,
            forall|k: int| 0 <= k < i ==> (#[trigger] ret@[k]).dev.addr == target.addr + k,
            forall|k: int| 0 <= k < i ==> (#[trigger] ret@[k]).value == word_of(
                buf@[2 * k],
                buf@[2 * k + 1],
            ),
        decreases n - i,
    {
        ret.push(
            SLMPDeviceData::<u16> {
                dev: SLMPDevice { d_code: target.d_code, addr: target.addr + (i as u32) },
                value: ws[i],
            },
        );
        i += 1;
    }
    Ok(ret)
}

/// The boolean values of a run of bit data, in order.
pub open spec fn spec_bit_values(s: Seq<SLMPDeviceData<bool>>) -> Seq<bool> {
    s.map_values(|d: SLMPDeviceData<bool>| d.value)
}

/// The word values of a run of word data, in order.
pub open spec fn spec_word_values(s: Seq<SLMPDeviceData<u16>>) -> Seq<u16> {
    s.map_values(|d: SLMPDeviceData<u16>| d.value)
}

/// Prepares a batch write of bit data, 16-bit addressing: the first
/// datum's device field, the point count, then the values packed by bit.
pub fn send_write_bit_cmd_16(
    connection_info: &mut SLMPConnectionInfo,
    timeout: u16,
    targets: &[SLMPDeviceData<bool>],
) -> (r: SendRequest)
    requires
        old(connection_info).wf(),
        1 <= targets@.len() <= 0xFFFF,
    ensures
        spec_sent(
            *old(connection_info),
            *final(connection_info),
            r,
            timeout,
            SLMPCommand::DeviceWrite,
            1,
            spec_dev16(targets@[0].dev) + le16(targets@.len() as u16) + spec_pack_bits_by_bit(
                spec_bit_values(targets@),
            ),
        ),
{
    let mut values: Vec<bool> = Vec::new();
    let n = targets.len();
    let mut i: usize = 0;
    while i < n
        invariant
            n == targets@.len(),
            i <= n,
            values@.len() == i,
            forall|k: int| 0 <= k < i ==> values@[k] == (#[trigger] targets@[k]).value,
        decreases n - i,
    {
        values.push(targets[i].value);
        i += 1;
    }
    assert(values@ =~= spec_bit_values(targets@));
    let mut buf: Vec<u8> = Vec::new();
    push_dev16(&mut buf, targets[0].dev);
    push_le16(&mut buf, n as u16);
    let mut packed = pack_bits_by_bit(values.as_slice());
    buf.append(&mut packed);
    assert(buf@ =~= spec_dev16(targets@[0].dev) + le16(targets@.len() as u16)
        + spec_pack_bits_by_bit(spec_bit_values(targets@)));
    connection_info.send_cmd(timeout, SLMPCommand::DeviceWrite, 1, buf.as_slice())
}

/// Prepares a batch write of bit data, 32-bit addressing.
pub fn send_write_bit_cmd_32(
    connection_info: &mut SLMPConnectionInfo,
    timeout: u16,
    targets: &[SLMPDeviceData<bool>],
) -> (r: SendRequest)
    requires
        old(connection_info).wf(),
        1 <= targets@.len() <= 0xFFFF,
    ensures
        spec_sent(
            *old(connection_info),
            *final(connection_info),
            r,
            timeout,
            SLMPCommand::DeviceWrite,
            3,
            spec_dev32(targets@[0].dev) + le16(targets@.len() as u16) + spec_pack_bits_by_bit(
                spec_bit_values(targets@),
            ),
        ),
{
    let mut values: Vec<bool> = Vec::new();
    let n = targets.len();
    let mut i: usize = 0;
    while i < n
        invariant
            n == targets@.len(),
            i <= n,
            values@.len() == i,
            forall|k: int| 0 <= k < i ==> values@[k] == (#[trigger] targets@[k]).value,
        decreases n - i,
    {
        values.push(targets[i].value);
        i += 1;
    }
    assert(values@ =~= spec_bit_values(targets@));
    let mut buf: Vec<u8> = Vec::new();
    push_dev32(&mut buf, targets[0].dev);
    push_le16(&mut buf, n as u16);
    let mut packed = pack_bits_by_bit(values.as_slice());
    buf.append(&mut packed);
    assert(buf@ =~= spec_dev32(targets@[0].dev) + le16(targets@.len() as u16)
        + spec_pack_bits_by_bit(spec_bit_values(targets@)));
    connection_info.send_cmd(timeout, SLMPCommand::DeviceWrite, 3, buf.as_slice())
}

/// Prepares a batch write of word data, 16-bit addressing: the first
/// datum's device field, the point count, then the values packed by word.
pub fn send_write_word_cmd_16(
    connection_info: &mut SLMPConnectionInfo,
    timeout: u16,
    targets: &[SLMPDeviceData<u16>],
) -> (r: SendRequest)
    requires
        old(connection_info).wf(),
        1 <= targets@.len(),
        2 * targets@.len() + 10 <= 0xFFFF,
    ensures
        spec_sent(
            *old(connection_info),
            *final(connection_info),
            r,
            timeout,
            SLMPCommand::DeviceWrite,
            0,
            spec_dev16(targets@[0].dev) + le16(targets@.len() as u16) + spec_pack_words_by_word(
                spec_word_values(targets@),
            ),
        ),
{
    let mut values: Vec<u16> = Vec::new();
    let n = targets.len();
    let mut i: usize = 0;
    while i < n
        invariant
            n == targets@.len(),
            i <= n,
            values@.len() == i,
            forall|k: int| 0 <= k < i ==> values@[k] == (#[trigger] targets@[k]).value,
        decreases n - i,
    {
        values.push(targets[i].value);
        i += 1;
    }
    assert(values@ =~= spec_word_values(targets@));
    let mut buf: Vec<u8> = Vec::new();
    push_dev16(&mut buf, targets[0].dev);
    push_le16(&mut buf, n as u16);
    let mut packed = pack_words_by_word(values.as_slice());
    buf.append(&mut packed);
    assert(buf@ =~= spec_dev16(targets@[0].dev) + le16(targets@.len() as u16)
        + spec_pack_words_by_word(spec_word_values(targets@)));
    connection_info.send_cmd(timeout, SLMPCommand::DeviceWrite, 0, buf.as_slice())
}

/// Prepares a batch write of word data, 32-bit addressing.
pub fn send_write_word_cmd_32(
    connection_info: &mut SLMPConnectionInfo,
    timeout: u16,
    targets: &[SLMPDeviceData<u16>],
) -> (r: SendRequest)
    requires
        old(connection_info).wf(),
        1 <= targets@.len(),
        2 * targets@.len() + 12 <= 0xFFFF,
    ensures
        spec_sent(
            *old(connection_info),
            *final(connection_info),
            r,
            timeout,
            SLMPCommand::DeviceWrite,
            2,
            spec_dev32(targets@[0].dev) + le16(targets@.len() as u16) + spec_pack_words_by_word(
                spec_word_values(targets@),
            ),
        ),
{
    let mut values: Vec<u16> = Vec::new();
    let n = targets.len();
    let mut i: usize = 0;
    while i < n
        invariant
            n == targets@.len(),
            i <= n,
            values@.len() == i,
            forall|k: int| 0 <= k < i ==> values@[k] == (#[trigger] targets@[k]).value,
        decreases n - i,
    {
        values.push(targets[i].value);
        i += 1;
    }
    assert(values@ =~= spec_word_values(targets@));
    let mut buf: Vec<u8> = Vec::new();
    push_dev32(&mut buf, targets[0].dev);
    push_le16(&mut buf, n as u16);
    let mut packed = pack_words_by_word(values.as_slice());
    buf.append(&mut packed);
    assert(buf@ =~= spec_dev32(targets@[0].dev) + le16(targets@.len() as u16)
        + spec_pack_words_by_word(spec_word_values(targets@)));
    connection_info.send_cmd(timeout, SLMPCommand::DeviceWrite, 2, buf.as_slice())
}

/// The 16-bit-layout device field, as a function value for concatenation.
pub open spec fn dev16_bytes() -> spec_fn(SLMPDevice) -> Seq<u8> {
    |d: SLMPDevice| spec_dev16(d)
}

/// The 32-bit-layout device field, as a function value for concatenation.
pub open spec fn dev32_bytes() -> spec_fn(SLMPDevice) -> Seq<u8> {
    |d: SLMPDevice| spec_dev32(d)
}

/// The random-write chunk of one bit datum, 16-bit layout: the device
/// field and the value byte, which the wire carries twice.
pub open spec fn wr_bit16_bytes() -> spec_fn(SLMPDeviceData<bool>) -> Seq<u8> {
    |d: SLMPDeviceData<bool>|
        spec_dev16(d.dev) + seq![
            (if d.value { 1u8 } else { 0u8 }),
            (if d.value { 1u8 } else { 0u8 }),
        ]
}

/// The random-write chunk of one bit datum, 32-bit layout: the device
/// field, a pad byte, the value byte twice, and a pad byte.
pub open spec fn wr_bit32_bytes() -> spec_fn(SLMPDeviceData<bool>) -> Seq<u8> {
    |d: SLMPDeviceData<bool>|
        spec_dev32(d.dev) + seq![
            0u8,
            (if d.value { 1u8 } else { 0u8 }),
            (if d.value { 1u8 } else { 0u8 }),
            0u8,
        ]
}

/// The random-write chunk of one word datum, 16-bit layout: the device
/// field and the value, which the wire carries twice.
pub open spec fn wr_word16_bytes() -> spec_fn(SLMPDeviceData<u16>) -> Seq<u8> {
    |d: SLMPDeviceData<u16>| spec_dev16(d.dev) + le16(d.value) + le16(d.value)
}

/// The random-write chunk of one double-word datum, 16-bit layout.
pub open spec fn wr_dword16_bytes() -> spec_fn(SLMPDeviceData<u32>) -> Seq<u8> {
    |d: SLMPDeviceData<u32>| spec_dev16(d.dev) + crate::bytes::le32(d.value) + crate::bytes::le32(
        d.value,
    )
}

/// The random-write chunk of one word datum, 32-bit layout.
pub open spec fn wr_word32_bytes() -> spec_fn(SLMPDeviceData<u16>) -> Seq<u8> {
    |d: SLMPDeviceData<u16>| spec_dev32(d.dev) + le16(d.value) + le16(d.value)
}

/// The random-write chunk of one double-word datum, 32-bit layout.
pub open spec fn wr_dword32_bytes() -> spec_fn(SLMPDeviceData<u32>) -> Seq<u8> {
    |d: SLMPDeviceData<u32>| spec_dev32(d.dev) + crate::bytes::le32(d.value) + crate::bytes::le32(
        d.value,
    )
}

/// The 16-bit-layout block field, as a function value for concatenation.
pub open spec fn block16_bytes() -> spec_fn(SLMPDeviceBlock) -> Seq<u8> {
    |b: SLMPDeviceBlock| spec_block16(b)
}

/// The 32-bit-layout block field, as a function value for concatenation.
pub open spec fn block32_bytes() -> spec_fn(SLMPDeviceBlock) -> Seq<u8> {
    |b: SLMPDeviceBlock| spec_block32(b)
}

/// Appends the 16-bit-layout device fields of `devs`, in order.
fn push_devs16(buf: &mut Vec<u8>, devs: &[SLMPDevice])
    ensures
        final(buf)@ == old(buf)@ + spec_concat_bytes(devs@, dev16_bytes()),
        final(buf)@.len() == old(buf)@.len() + 4 * devs@.len(),
{
    let n = devs.len();
    let mut i: usize = 0;
    assert(buf@ =~= old(buf)@ + spec_concat_bytes(devs@.take(0), dev16_bytes()));
    while i < n
        invariant
            n == devs@.len(),
            i <= n,
            buf@ == old(buf)@ + spec_concat_bytes(devs@.take(i as int), dev16_bytes()),
            buf@.len() == old(buf)@.len() + 4 * i,
        decreases n - i,
    {
        push_dev16(buf, devs[i]);
        proof {
            lemma_concat_bytes_take_step(devs@, dev16_bytes(), i as int);
            assert(buf@ =~= old(buf)@ + spec_concat_bytes(devs@.take(i + 1), dev16_bytes()));
        }
        i += 1;
    }
    proof {
        lemma_concat_bytes_take_all(devs@, dev16_bytes());
    }
}

/// Appends the 32-bit-layout device fields of `devs`, in order.
fn push_devs32(buf: &mut Vec<u8>, devs: &[SLMPDevice])
    ensures
        final(buf)@ == old(buf)@ + spec_concat_bytes(devs@, dev32_bytes()),
        final(buf)@.len() == old(buf)@.len() + 6 * devs@.len(),
{
    let n = devs.len();
    let mut i: usize = 0;
    assert(buf@ =~= old(buf)@ + spec_concat_bytes(devs@.take(0), dev32_bytes()));
    while i < n
        invariant
            n == devs@.len(),
            i <= n,
            buf@ == old(buf)@ + spec_concat_bytes(devs@.take(i as int), dev32_bytes()),
            buf@.len() == old(buf)@.len() + 6 * i,
        decreases n - i,
    {
        push_dev32(buf, devs[i]);
        proof {
            lemma_concat_bytes_take_step(devs@, dev32_bytes(), i as int);
            assert(buf@ =~= old(buf)@ + spec_concat_bytes(devs@.take(i + 1), dev32_bytes()));
        }
        i += 1;
    }
    proof {
        lemma_concat_bytes_take_all(devs@, dev32_bytes());
    }
}

/// The payload opening of every two-list command: the two list lengths as
/// single bytes.
pub open spec fn spec_two_counts(w: int, d: int) -> Seq<u8> {
    seq![w as u8, d as u8]
}

/// Prepares a random read, 16-bit addressing: up to 255 word devices and
/// 255 double-word devices, each as its device field.
pub fn send_read_random_cmd_16(
    connection_info: &mut SLMPConnectionInfo,
    timeout: u16,
    target_word: &[SLMPDevice],
    target_dword: &[SLMPDevice],
) -> (r: Option<SendRequest>)
    requires
        old(connection_info).wf(),
    ensures
        r is Some <==> target_word@.len() <= 0xFF && target_dword@.len() <= 0xFF,
        r is None ==> *final(connection_info) == *old(connection_info),
        r matches Some(req) ==> spec_sent(
            *old(connection_info),
            *final(connection_info),
            req,
            timeout,
            SLMPCommand::DeviceReadRandom,
            0,
            spec_two_counts(target_word@.len() as int, target_dword@.len() as int)
                + spec_concat_bytes(target_word@, dev16_bytes()) + spec_concat_bytes(
                target_dword@,
                dev16_bytes(),
            ),
        ),
{
    if target_word.len() > 0xFF || target_dword.len() > 0xFF {
        return None;
    }
    let mut buf: Vec<u8> = Vec::new();
    buf.push(target_word.len() as u8);
    buf.push(target_dword.len() as u8);
    push_devs16(&mut buf, target_word);
    push_devs16(&mut buf, target_dword);
    assert(buf@ =~= spec_two_counts(target_word@.len() as int, target_dword@.len() as int)
        + spec_concat_bytes(target_word@, dev16_bytes()) + spec_concat_bytes(
        target_dword@,
        dev16_bytes(),
    ));
    Some(connection_info.send_cmd(timeout, SLMPCommand::DeviceReadRandom, 0, buf.as_slice()))
}

/// Prepares a random read, 32-bit addressing.
pub fn send_read_random_cmd_32(
    connection_info: &mut SLMPConnectionInfo,
    timeout: u16,
    target_word: &[SLMPDevice],
    target_dword: &[SLMPDevice],
) -> (r: Option<SendRequest>)
    requires
        old(connection_info).wf(),
    ensures
        r is Some <==> target_word@.len() <= 0xFF && target_dword@.len() <= 0xFF,
        r is None ==> *final(connection_info) == *old(connection_info),
        r matches Some(req) ==> spec_sent(
            *old(connection_info),
            *final(connection_info),
            req,
            timeout,
            SLMPCommand::DeviceReadRandom,
            2,
            spec_two_counts(target_word@.len() as int, target_dword@.len() as int)
                + spec_concat_bytes(target_word@, dev32_bytes()) + spec_concat_bytes(
                target_dword@,
                dev32_bytes(),
            ),
        ),
{
    if target_word.len() > 0xFF || target_dword.len() > 0xFF {
        return None;
    }
    let mut buf: Vec<u8> = Vec::new();
    buf.push(target_word.len() as u8);
    buf.push(target_dword.len() as u8);
    push_devs32(&mut buf, target_word);
    push_devs32(&mut buf, target_dword);
    assert(buf@ =~= spec_two_counts(target_word@.len() as int, target_dword@.len() as int)
        + spec_concat_bytes(target_word@, dev32_bytes()) + spec_concat_bytes(
        target_dword@,
        dev32_bytes(),
    ));
    Some(connection_info.send_cmd(timeout, SLMPCommand::DeviceReadRandom, 2, buf.as_slice()))
}

/// Decodes a random-read response: one little-endian word per word
/// device, then one little-endian double word per double-word device,
/// each at its requested device.
pub fn decode_read_random_response(
    buf: &[u8],
    target_word: &[SLMPDevice],
    target_dword: &[SLMPDevice],
) -> (r: (Vec<SLMPDeviceData<u16>>, Vec<SLMPDeviceData<u32>>))
    requires
        buf@.len() >= 2 * target_word@.len() + 4 * target_dword@.len(),
    ensures
        r.0@.len() == target_word@.len(),
        forall|i: int| 0 <= i < r.0@.len() ==> (#[trigger] r.0@[i]).dev == target_word@[i],
        forall|i: int| 0 <= i < r.0@.len() ==> (#[trigger] r.0@[i]).value == word_of(
            buf@[2 * i],
            buf@[2 * i + 1],
        ),
        r.1@.len() == target_dword@.len(),
        forall|j: int| 0 <= j < r.1@.len() ==> (#[trigger] r.1@[j]).dev == target_dword@[j],
        forall|j: int| 0 <= j < r.1@.len() ==> (#[trigger] r.1@[j]).value == dword_of(
            buf@[2 * target_word@.len() + 4 * j],
            buf@[2 * target_word@.len() + 4 * j + 1],
            buf@[2 * target_word@.len() + 4 * j + 2],
            buf@[2 * target_word@.len() + 4 * j + 3],
        ),
{
    let wn = target_word.len();
    let dn = target_dword.len();
    let blen = buf.len();
    let mut ret_word: Vec<SLMPDeviceData<u16>> = Vec::new();
    let mut i: usize = 0;
    while i < wn
        invariant
            wn == target_word@.len(),
            blen == buf@.len(),
            buf@.len() >= 2 * wn + 4 * target_dword@.len(),
            i <= wn,
            ret_word@.len() == i,
            forall|k: int| 0 <= k < i ==> (#[trigger] ret_word@[k]).dev == target_word@[k],
            forall|k: int| 0 <= k < i ==> (#[trigger] ret_word@[k]).value == word_of(
                buf@[2 * k],
                buf@[2 * k + 1],
            ),
        decreases wn - i,
    {
        let v = crate::bytes::read_le16(buf, 2 * i);
        ret_word.push(SLMPDeviceData::<u16> { dev: target_word[i], value: v });
        i += 1;
    }
    let mut ret_dword: Vec<SLMPDeviceData<u32>> = Vec::new();
    let mut j: usize = 0;
    while j < dn
        invariant
            wn == target_word@.len(),
            dn == target_dword@.len(),
            blen == buf@.len(),
            buf@.len() >= 2 * wn + 4 * dn,
            j <= dn,
            ret_dword@.len() == j,
            forall|k: int| 0 <= k < j ==> (#[trigger] ret_dword@[k]).dev == target_dword@[k],
            forall|k: int| 0 <= k < j ==> (#[trigger] ret_dword@[k]).value == dword_of(
                buf@[2 * wn + 4 * k],
                buf@[2 * wn + 4 * k + 1],
                buf@[2 * wn + 4 * k + 2],
                buf@[2 * wn + 4 * k + 3],
            ),
        decreases dn - j,
    {
        let v = crate::bytes::read_le32(buf, 2 * wn + 4 * j);
        ret_dword.push(SLMPDeviceData::<u32> { dev: target_dword[j], value: v });
        j += 1;
    }
    (ret_word, ret_dword)
}

/// Prepares a monitor registration, 16-bit addressing: the same two
/// device lists as a random read, under the entry-monitor command.
pub fn send_entry_monitor_device_cmd_16(
    connection_info: &mut SLMPConnectionInfo,
    timeout: u16,
    target_word: &[SLMPDevice],
    target_dword: &[SLMPDevice],
) -> (r: Option<SendRequest>)
    requires
        old(connection_info).wf(),
    ensures
        r is Some <==> target_word@.len() <= 0xFF && target_dword@.len() <= 0xFF,
        r is None ==> *final(connection_info) == *old(connection_info),
        r matches Some(req) ==> spec_sent(
            *old(connection_info),
            *final(connection_info),
            req,
            timeout,
            SLMPCommand::EntryMonitorDevice,
            0,
            spec_two_counts(target_word@.len() as int, target_dword@.len() as int)
                + spec_concat_bytes(target_word@, dev16_bytes()) + spec_concat_bytes(
                target_dword@,
                dev16_bytes(),
            ),
        ),
{
    if target_word.len() > 0xFF || target_dword.len() > 0xFF {
        return None;
    }
    let mut buf: Vec<u8> = Vec::new();
    buf.push(target_word.len() as u8);
    buf.push(target_dword.len() as u8);
    push_devs16(&mut buf, target_word);
    push_devs16(&mut buf, target_dword);
    assert(buf@ =~= spec_two_counts(target_word@.len() as int, target_dword@.len() as int)
        + spec_concat_bytes(target_word@, dev16_bytes()) + spec_concat_bytes(
        target_dword@,
        dev16_bytes(),
    ));
    Some(connection_info.send_cmd(timeout, SLMPCommand::EntryMonitorDevice, 0, buf.as_slice()))
}

/// Prepares a monitor registration, 32-bit addressing.
pub fn send_entry_monitor_device_cmd_32(
    connection_info: &mut SLMPConnectionInfo,
    timeout: u16,
    target_word: &[SLMPDevice],
    target_dword: &[SLMPDevice],
) -> (r: Option<SendRequest>)
    requires
        old(connection_info).wf(),
    ensures
        r is Some <==> target_word@.len() <= 0xFF && target_dword@.len() <= 0xFF,
        r is None ==> *final(connection_info) == *old(connection_info),
        r matches Some(req) ==> spec_sent(
            *old(connection_info),
            *final(connection_info),
            req,
            timeout,
            SLMPCommand::EntryMonitorDevice,
            2,
            spec_two_counts(target_word@.len() as int, target_dword@.len() as int)
                + spec_concat_bytes(target_word@, dev32_bytes()) + spec_concat_bytes(
                target_dword@,
                dev32_bytes(),
            ),
        ),
{
    if target_word.len() > 0xFF || target_dword.len() > 0xFF {
        return None;
    }
    let mut buf: Vec<u8> = Vec::new();
    buf.push(target_word.len() as u8);
    buf.push(target_dword.len() as u8);
    push_devs32(&mut buf, target_word);
    push_devs32(&mut buf, target_dword);
    assert(buf@ =~= spec_two_counts(target_word@.len() as int, target_dword@.len() as int)
        + spec_concat_bytes(target_word@, dev32_bytes()) + spec_concat_bytes(
        target_dword@,
        dev32_bytes(),
    ));
    Some(connection_info.send_cmd(timeout, SLMPCommand::EntryMonitorDevice, 2, buf.as_slice()))
}

/// Prepares an execute-monitor request; it carries no payload.
pub fn send_execute_monitor_cmd(connection_info: &mut SLMPConnectionInfo, timeout: u16) -> (r:
    SendRequest)
    requires
        old(connection_info).wf(),
    ensures
        spec_sent(
            *old(connection_info),
            *final(connection_info),
            r,
            timeout,
            SLMPCommand::ExecuteMonitor,
            0,
            Seq::<u8>::empty(),
        ),
{
    let buf: Vec<u8> = Vec::new();
    assert(buf@ =~= Seq::<u8>::empty());
    connection_info.send_cmd(timeout, SLMPCommand::ExecuteMonitor, 0, buf.as_slice())
}

/// Appends the random-write chunks of bit data, 16-bit layout.
fn push_wr_bits16(buf: &mut Vec<u8>, targets: &[SLMPDeviceData<bool>])
    ensures
        final(buf)@ == old(buf)@ + spec_concat_bytes(targets@, wr_bit16_bytes()),
        final(buf)@.len() == old(buf)@.len() + 6 * targets@.len(),
{
    let n = targets.len();
    let mut i: usize = 0;
    assert(buf@ =~= old(buf)@ + spec_concat_bytes(targets@.take(0), wr_bit16_bytes()));
    while i < n
        invariant
            n == targets@.len(),
            i <= n,
            buf@ == old(buf)@ + spec_concat_bytes(targets@.take(i as int), wr_bit16_bytes()),
            buf@.len() == old(buf)@.len() + 6 * i,
        decreases n - i,
    {
        let d = targets[i];
        push_dev16(buf, d.dev);
        let vb: u8 = if d.value { 1 } else { 0 };
        buf.push(vb);
        buf.push(vb);
        proof {
            lemma_concat_bytes_take_step(targets@, wr_bit16_bytes(), i as int);
            assert(buf@ =~= old(buf)@ + spec_concat_bytes(targets@.take(i + 1), wr_bit16_bytes()));
        }
        i += 1;
    }
    proof {
        lemma_concat_bytes_take_all(targets@, wr_bit16_bytes());
    }
}

/// Appends the random-write chunks of bit data, 32-bit layout.
fn push_wr_bits32(buf: &mut Vec<u8>, targets: &[SLMPDeviceData<bool>])
    ensures
        final(buf)@ == old(buf)@ + spec_concat_bytes(targets@, wr_bit32_bytes()),
        final(buf)@.len() == old(buf)@.len() + 10 * targets@.len(),
{
    let n = targets.len();
    let mut i: usize = 0;
    assert(buf@ =~= old(buf)@ + spec_concat_bytes(targets@.take(0), wr_bit32_bytes()));
    while i < n
        invariant
            n == targets@.len(),
            i <= n,
            buf@ == old(buf)@ + spec_concat_bytes(targets@.take(i as int), wr_bit32_bytes()),
            buf@.len() == old(buf)@.len() + 10 * i,
        decreases n - i,
    {
        let d = targets[i];
        push_dev32(buf, d.dev);
        let vb: u8 = if d.value { 1 } else { 0 };
        buf.push(0u8);
        buf.push(vb);
        buf.push(vb);
        buf.push(0u8);
        proof {
            lemma_concat_bytes_take_step(targets@, wr_bit32_bytes(), i as int);
            assert(buf@ =~= old(buf)@ + spec_concat_bytes(targets@.take(i + 1), wr_bit32_bytes()));
        }
        i += 1;
    }
    proof {
        lemma_concat_bytes_take_all(targets@, wr_bit32_bytes());
    }
}

/// Appends the random-write chunks of word data, 16-bit layout.
fn push_wr_words16(buf: &mut Vec<u8>, targets: &[SLMPDeviceData<u16>])
    ensures
        final(buf)@ == old(buf)@ + spec_concat_bytes(targets@, wr_word16_bytes()),
        final(buf)@.len() == old(buf)@.len() + 8 * targets@.len(),
{
    let n = targets.len();
    let mut i: usize = 0;
    assert(buf@ =~= old(buf)@ + spec_concat_bytes(targets@.take(0), wr_word16_bytes()));
    while i < n
        invariant
            n == targets@.len(),
            i <= n,
            buf@ == old(buf)@ + spec_concat_bytes(targets@.take(i as int), wr_word16_bytes()),
            buf@.len() == old(buf)@.len() + 8 * i,
        decreases n - i,
    {
        let d = targets[i];
        push_dev16(buf, d.dev);
        push_le16(buf, d.value);
        push_le16(buf, d.value);
        proof {
            lemma_concat_bytes_take_step(targets@, wr_word16_bytes(), i as int);
            assert(buf@ =~= old(buf)@ + spec_concat_bytes(targets@.take(i + 1), wr_word16_bytes()));
        }
        i += 1;
    }
    proof {
        lemma_concat_bytes_take_all(targets@, wr_word16_bytes());
    }
}

/// Appends the random-write chunks of double-word data, 16-bit layout.
fn push_wr_dwords16(buf: &mut Vec<u8>, targets: &[SLMPDeviceData<u32>])
    ensures
        final(buf)@ == old(buf)@ + spec_concat_bytes(targets@, wr_dword16_bytes()),
        final(buf)@.len() == old(buf)@.len() + 12 * targets@.len(),
{
    let n = targets.len();
    let mut i: usize = 0;
    assert(buf@ =~= old(buf)@ + spec_concat_bytes(targets@.take(0), wr_dword16_bytes()));
    while i < n
        invariant
            n == targets@.len(),
            i <= n,
            buf@ == old(buf)@ + spec_concat_bytes(targets@.take(i as int), wr_dword16_bytes()),
            buf@.len() == old(buf)@.len() + 12 * i,
        decreases n - i,
    {
        let d = targets[i];
        push_dev16(buf, d.dev);
        crate::bytes::push_le32(buf, d.value);
        crate::bytes::push_le32(buf, d.value);
        proof {
            lemma_concat_bytes_take_step(targets@, wr_dword16_bytes(), i as int);
            assert(buf@ =~= old(buf)@ + spec_concat_bytes(
                targets@.take(i + 1),
                wr_dword16_bytes(),
            ));
        }
        i += 1;
    }
    proof {
        lemma_concat_bytes_take_all(targets@, wr_dword16_bytes());
    }
}

/// Appends the random-write chunks of word data, 32-bit layout.
fn push_wr_words32(buf: &mut Vec<u8>, targets: &[SLMPDeviceData<u16>])
    ensures
        final(buf)@ == old(buf)@ + spec_concat_bytes(targets@, wr_word32_bytes()),
        final(buf)@.len() == old(buf)@.len() + 10 * targets@.len(),
{
    let n = targets.len();
    let mut i: usize = 0;
    assert(buf@ =~= old(buf)@ + spec_concat_bytes(targets@.take(0), wr_word32_bytes()));
    while i < n
        invariant
            n == targets@.len(),
            i <= n,
            buf@ == old(buf)@ + spec_concat_bytes(targets@.take(i as int), wr_word32_bytes()),
            buf@.len() == old(buf)@.len() + 10 * i,
        decreases n - i,
    {
        let d = targets[i];
        push_dev32(buf, d.dev);
        push_le16(buf, d.value);
        push_le16(buf, d.value);
        proof {
            lemma_concat_bytes_take_step(targets@, wr_word32_bytes(), i as int);
            assert(buf@ =~= old(buf)@ + spec_concat_bytes(targets@.take(i + 1), wr_word32_bytes()));
        }
        i += 1;
    }
    proof {
        lemma_concat_bytes_take_all(targets@, wr_word32_bytes());
    }
}

/// Appends the random-write chunks of double-word data, 32-bit layout.
fn push_wr_dwords32(buf: &mut Vec<u8>, targets: &[SLMPDeviceData<u32>])
    ensures
        final(buf)@ == old(buf)@ + spec_concat_bytes(targets@, wr_dword32_bytes()),
        final(buf)@.len() == old(buf)@.len() + 14 * targets@.len(),
{
    let n = targets.len();
    let mut i: usize = 0;
    assert(buf@ =~= old(buf)@ + spec_concat_bytes(targets@.take(0), wr_dword32_bytes()));
    while i < n
        invariant
            n == targets@.len(),
            i <= n,
            buf@ == old(buf)@ + spec_concat_bytes(targets@.take(i as int), wr_dword32_bytes()),
            buf@.len() == old(buf)@.len() + 14 * i,
        decreases n - i,
    {
        let d = targets[i];
        push_dev32(buf, d.dev);
        crate::bytes::push_le32(buf, d.value);
        crate::bytes::push_le32(buf, d.value);
        proof {
            lemma_concat_bytes_take_step(targets@, wr_dword32_bytes(), i as int);
            assert(buf@ =~= old(buf)@ + spec_concat_bytes(
                targets@.take(i + 1),
                wr_dword32_bytes(),
            ));
        }
        i += 1;
    }
    proof {
        lemma_concat_bytes_take_all(targets@, wr_dword32_bytes());
    }
}

/// Prepares a random write of bit data, 16-bit addressing: the point
/// count, then one chunk per bit device.
pub fn send_write_random_bits_cmd_16(
    connection_info: &mut SLMPConnectionInfo,
    timeout: u16,
    targets: &[SLMPDeviceData<bool>],
) -> (r: Option<SendRequest>)
    requires
        old(connection_info).wf(),
    ensures
        r is Some <==> targets@.len() <= 0xFF,
        r is None ==> *final(connection_info) == *old(connection_info),
        r matches Some(req) ==> spec_sent(
            *old(connection_info),
            *final(connection_info),
            req,
            timeout,
            SLMPCommand::DeviceWriteRandom,
            1,
            seq![targets@.len() as u8] + spec_concat_bytes(targets@, wr_bit16_bytes()),
        ),
{
    if targets.len() > 0xFF {
        return None;
    }
    let mut buf: Vec<u8> = Vec::new();
    buf.push(targets.len() as u8);
    push_wr_bits16(&mut buf, targets);
    assert(buf@ =~= seq![targets@.len() as u8] + spec_concat_bytes(targets@, wr_bit16_bytes()));
    Some(connection_info.send_cmd(timeout, SLMPCommand::DeviceWriteRandom, 1, buf.as_slice()))
}

/// Prepares a random write of bit data, 32-bit addressing.
pub fn send_write_random_bits_cmd_32(
    connection_info: &mut SLMPConnectionInfo,
    timeout: u16,
    targets: &[SLMPDeviceData<bool>],
) -> (r: Option<SendRequest>)
    requires
        old(connection_info).wf(),
    ensures
        r is Some <==> targets@.len() <= 0xFF,
        r is None ==> *final(connection_info) == *old(connection_info),
        r matches Some(req) ==> spec_sent(
            *old(connection_info),
            *final(connection_info),
            req,
            timeout,
            SLMPCommand::DeviceWriteRandom,
            3,
            seq![targets@.len() as u8] + spec_concat_bytes(targets@, wr_bit32_bytes()),
        ),
{
    if targets.len() > 0xFF {
        return None;
    }
    let mut buf: Vec<u8> = Vec::new();
    buf.push(targets.len() as u8);
    push_wr_bits32(&mut buf, targets);
    assert(buf@ =~= seq![targets@.len() as u8] + spec_concat_bytes(targets@, wr_bit32_bytes()));
    Some(connection_info.send_cmd(timeout, SLMPCommand::DeviceWriteRandom, 3, buf.as_slice()))
}

/// Prepares a random write of word and double-word data, 16-bit
/// addressing: the two point counts, then one chunk per datum.
pub fn send_write_random_words_cmd_16(
    connection_info: &mut SLMPConnectionInfo,
    timeout: u16,
    target_word: &[SLMPDeviceData<u16>],
    target_dword: &[SLMPDeviceData<u32>],
) -> (r: Option<SendRequest>)
    requires
        old(connection_info).wf(),
    ensures
        r is Some <==> target_word@.len() <= 0xFF && target_dword@.len() <= 0xFF,
        r is None ==> *final(connection_info) == *old(connection_info),
        r matches Some(req) ==> spec_sent(
            *old(connection_info),
            *final(connection_info),
            req,
            timeout,
            SLMPCommand::DeviceWriteRandom,
            0,
            spec_two_counts(target_word@.len() as int, target_dword@.len() as int)
                + spec_concat_bytes(target_word@, wr_word16_bytes()) + spec_concat_bytes(
                target_dword@,
                wr_dword16_bytes(),
            ),
        ),
{
    if target_word.len() > 0xFF || target_dword.len() > 0xFF {
        return None;
    }
    let mut buf: Vec<u8> = Vec::new();
    buf.push(target_word.len() as u8);
    buf.push(target_dword.len() as u8);
    push_wr_words16(&mut buf, target_word);
    push_wr_dwords16(&mut buf, target_dword);
    assert(buf@ =~= spec_two_counts(target_word@.len() as int, target_dword@.len() as int)
        + spec_concat_bytes(target_word@, wr_word16_bytes()) + spec_concat_bytes(
        target_dword@,
        wr_dword16_bytes(),
    ));
    Some(connection_info.send_cmd(timeout, SLMPCommand::DeviceWriteRandom, 0, buf.as_slice()))
}

/// Prepares a random write of word and double-word data, 32-bit
/// addressing.
pub fn send_write_random_words_cmd_32(
    connection_info: &mut SLMPConnectionInfo,
    timeout: u16,
    target_word: &[SLMPDeviceData<u16>],
    target_dword: &[SLMPDeviceData<u32>],
) -> (r: Option<SendRequest>)
    requires
        old(connection_info).wf(),
    ensures
        r is Some <==> target_word@.len() <= 0xFF && target_dword@.len() <= 0xFF,
        r is None ==> *final(connection_info) == *old(connection_info),
        r matches Some(req) ==> spec_sent(
            *old(connection_info),
            *final(connection_info),
            req,
            timeout,
            SLMPCommand::DeviceWriteRandom,
            2,
            spec_two_counts(target_word@.len() as int, target_dword@.len() as int)
                + spec_concat_bytes(target_word@, wr_word32_bytes()) + spec_concat_bytes(
                target_dword@,
                wr_dword32_bytes(),
            ),
        ),
{
    if target_word.len() > 0xFF || target_dword.len() > 0xFF {
        return None;
    }
    let mut buf: Vec<u8> = Vec::new();
    buf.push(target_word.len() as u8);
    buf.push(target_dword.len() as u8);
    push_wr_words32(&mut buf, target_word);
    push_wr_dwords32(&mut buf, target_dword);
    assert(buf@ =~= spec_two_counts(target_word@.len() as int, target_dword@.len() as int)
        + spec_concat_bytes(target_word@, wr_word32_bytes()) + spec_concat_bytes(
        target_dword@,
        wr_dword32_bytes(),
    ));
    Some(connection_info.send_cmd(timeout, SLMPCommand::DeviceWriteRandom, 2, buf.as_slice()))
}

/// Appends the 16-bit-layout block fields of `blocks`, in order.
fn push_blocks16(buf: &mut Vec<u8>, blocks: &[SLMPDeviceBlock])
    ensures
        final(buf)@ == old(buf)@ + spec_concat_bytes(blocks@, block16_bytes()),
        final(buf)@.len() == old(buf)@.len() + 6 * blocks@.len(),
{
    let n = blocks.len();
    let mut i: usize = 0;
    assert(buf@ =~= old(buf)@ + spec_concat_bytes(blocks@.take(0), block16_bytes()));
    while i < n
        invariant
            n == blocks@.len(),
            i <= n,
            buf@ == old(buf)@ + spec_concat_bytes(blocks@.take(i as int), block16_bytes()),
            buf@.len() == old(buf)@.len() + 6 * i,
        decreases n - i,
    {
        push_block16(buf, blocks[i]);
        proof {
            lemma_concat_bytes_take_step(blocks@, block16_bytes(), i as int);
            assert(buf@ =~= old(buf)@ + spec_concat_bytes(blocks@.take(i + 1), block16_bytes()));
        }
        i += 1;
    }
    proof {
        lemma_concat_bytes_take_all(blocks@, block16_bytes());
    }
}

/// Appends the 32-bit-layout block fields of `blocks`, in order.
fn push_blocks32(buf: &mut Vec<u8>, blocks: &[SLMPDeviceBlock])
    ensures
        final(buf)@ == old(buf)@ + spec_concat_bytes(blocks@, block32_bytes()),
        final(buf)@.len() == old(buf)@.len() + 8 * blocks@.len(),
{
    let n = blocks.len();
    let mut i: usize = 0;
    assert(buf@ =~= old(buf)@ + spec_concat_bytes(blocks@.take(0), block32_bytes()));
    while i < n
        invariant
            n == blocks@.len(),
            i <= n,
            buf@ == old(buf)@ + spec_concat_bytes(blocks@.take(i as int), block32_bytes()),
            buf@.len() == old(buf)@.len() + 8 * i,
        decreases n - i,
    {
        push_block32(buf, blocks[i]);
        proof {
            lemma_concat_bytes_take_step(blocks@, block32_bytes(), i as int);
            assert(buf@ =~= old(buf)@ + spec_concat_bytes(blocks@.take(i + 1), block32_bytes()));
        }
        i += 1;
    }
    proof {
        lemma_concat_bytes_take_all(blocks@, block32_bytes());
    }
}

/// Prepares a block read, 16-bit addressing: up to 255 word blocks and
/// 255 bit blocks, each as its block field.
pub fn send_read_block_cmd_16(
    connection_info: &mut SLMPConnectionInfo,
    timeout: u16,
    target_word: &[SLMPDeviceBlock],
    target_bit: &[SLMPDeviceBlock],
) -> (r: Option<SendRequest>)
    requires
        old(connection_info).wf(),
    ensures
        r is Some <==> target_word@.len() <= 0xFF && target_bit@.len() <= 0xFF,
        r is None ==> *final(connection_info) == *old(connection_info),
        r matches Some(req) ==> spec_sent(
            *old(connection_info),
            *final(connection_info),
            req,
            timeout,
            SLMPCommand::ReadBlock,
            0,
            spec_two_counts(target_word@.len() as int, target_bit@.len() as int)
                + spec_concat_bytes(target_word@, block16_bytes()) + spec_concat_bytes(
                target_bit@,
                block16_bytes(),
            ),
        ),
{
    if target_word.len() > 0xFF || target_bit.len() > 0xFF {
        return None;
    }
    let mut buf: Vec<u8> = Vec::new();
    buf.push(target_word.len() as u8);
    buf.push(target_bit.len() as u8);
    push_blocks16(&mut buf, target_word);
    push_blocks16(&mut buf, target_bit);
    assert(buf@ =~= spec_two_counts(target_word@.len() as int, target_bit@.len() as int)
        + spec_concat_bytes(target_word@, block16_bytes()) + spec_concat_bytes(
        target_bit@,
        block16_bytes(),
    ));
    Some(connection_info.send_cmd(timeout, SLMPCommand::ReadBlock, 0, buf.as_slice()))
}

/// Prepares a block read, 32-bit addressing.
pub fn send_read_block_cmd_32(
    connection_info: &mut SLMPConnectionInfo,
    timeout: u16,
    target_word: &[SLMPDeviceBlock],
    target_bit: &[SLMPDeviceBlock],
) -> (r: Option<SendRequest>)
    requires
        old(connection_info).wf(),
    ensures
        r is Some <==> target_word@.len() <= 0xFF && target_bit@.len() <= 0xFF,
        r is None ==> *final(connection_info) == *old(connection_info),
        r matches Some(req) ==> spec_sent(
            *old(connection_info),
            *final(connection_info),
            req,
            timeout,
            SLMPCommand::ReadBlock,
            2,
            spec_two_counts(target_word@.len() as int, target_bit@.len() as int)
                + spec_concat_bytes(target_word@, block32_bytes()) + spec_concat_bytes(
                target_bit@,
                block32_bytes(),
            ),
        ),
{
    if target_word.len() > 0xFF || target_bit.len() > 0xFF {
        return None;
    }
    let mut buf: Vec<u8> = Vec::new();
    buf.push(target_word.len() as u8);
    buf.push(target_bit.len() as u8);
    push_blocks32(&mut buf, target_word);
    push_blocks32(&mut buf, target_bit);
    assert(buf@ =~= spec_two_counts(target_word@.len() as int, target_bit@.len() as int)
        + spec_concat_bytes(target_word@, block32_bytes()) + spec_concat_bytes(
        target_bit@,
        block32_bytes(),
    ));
    Some(connection_info.send_cmd(timeout, SLMPCommand::ReadBlock, 2, buf.as_slice()))
}

/// The write-block chunk of one word block: its block field, then its
/// data packed by word.
pub open spec fn blockdata_w16_bytes() -> spec_fn(SLMPDeviceBlockData<u16>) -> Seq<u8> {
    |d: SLMPDeviceBlockData<u16>| spec_block16(d.spec_block()) + spec_pack_words_by_word(d.values())
}

/// The write-block chunk of one bit block: its block field, then its data
/// packed by word (bitmask bytes).
pub open spec fn blockdata_b16_bytes() -> spec_fn(SLMPDeviceBlockData<bool>) -> Seq<u8> {
    |d: SLMPDeviceBlockData<bool>| spec_block16(d.spec_block()) + crate::packing::spec_pack_bits_by_word(
        d.values(),
    )
}

/// The write-block chunk of one word block, 32-bit layout.
pub open spec fn blockdata_w32_bytes() -> spec_fn(SLMPDeviceBlockData<u16>) -> Seq<u8> {
    |d: SLMPDeviceBlockData<u16>| spec_block32(d.spec_block()) + spec_pack_words_by_word(d.values())
}

/// The write-block chunk of one bit block, 32-bit layout.
pub open spec fn blockdata_b32_bytes() -> spec_fn(SLMPDeviceBlockData<bool>) -> Seq<u8> {
    |d: SLMPDeviceBlockData<bool>| spec_block32(d.spec_block()) + crate::packing::spec_pack_bits_by_word(
        d.values(),
    )
}

/// Appends the write-block chunks of word blocks, 16-bit layout.
fn push_blockdatas_w16(buf: &mut Vec<u8>, targets: &[SLMPDeviceBlockData<u16>])
    requires
        forall|k: int| 0 <= k < targets@.len() ==> (#[trigger] targets@[k]).wf(),
    ensures
        final(buf)@ == old(buf)@ + spec_concat_bytes(targets@, blockdata_w16_bytes()),
{
    let n = targets.len();
    let mut i: usize = 0;
    assert(buf@ =~= old(buf)@ + spec_concat_bytes(targets@.take(0), blockdata_w16_bytes()));
    while i < n
        invariant
            n == targets@.len(),
            i <= n,
            forall|k: int| 0 <= k < n ==> (#[trigger] targets@[k]).wf(),
            buf@ == old(buf)@ + spec_concat_bytes(targets@.take(i as int), blockdata_w16_bytes()),
        decreases n - i,
    {
        let d = vstd::slice::slice_index_get(targets, i);
        let mut packed = d.pack16();
        buf.append(&mut packed);
        proof {
            lemma_concat_bytes_take_step(targets@, blockdata_w16_bytes(), i as int);
            assert(buf@ =~= old(buf)@ + spec_concat_bytes(
                targets@.take(i + 1),
                blockdata_w16_bytes(),
            ));
        }
        i += 1;
    }
    proof {
        lemma_concat_bytes_take_all(targets@, blockdata_w16_bytes());
    }
}

/// Appends the write-block chunks of bit blocks, 16-bit layout.
fn push_blockdatas_b16(buf: &mut Vec<u8>, targets: &[SLMPDeviceBlockData<bool>])
    requires
        forall|k: int| 0 <= k < targets@.len() ==> (#[trigger] targets@[k]).wf(),
    ensures
        final(buf)@ == old(buf)@ + spec_concat_bytes(targets@, blockdata_b16_bytes()),
{
    let n = targets.len();
    let mut i: usize = 0;
    assert(buf@ =~= old(buf)@ + spec_concat_bytes(targets@.take(0), blockdata_b16_bytes()));
    while i < n
        invariant
            n == targets@.len(),
            i <= n,
            forall|k: int| 0 <= k < n ==> (#[trigger] targets@[k]).wf(),
            buf@ == old(buf)@ + spec_concat_bytes(targets@.take(i as int), blockdata_b16_bytes()),
        decreases n - i,
    {
        let d = vstd::slice::slice_index_get(targets, i);
        let mut packed = d.pack16();
        buf.append(&mut packed);
        proof {
            lemma_concat_bytes_take_step(targets@, blockdata_b16_bytes(), i as int);
            assert(buf@ =~= old(buf)@ + spec_concat_bytes(
                targets@.take(i + 1),
                blockdata_b16_bytes(),
            ));
        }
        i += 1;
    }
    proof {
        lemma_concat_bytes_take_all(targets@, blockdata_b16_bytes());
    }
}

/// Appends the write-block chunks of word blocks, 32-bit layout.
fn push_blockdatas_w32(buf: &mut Vec<u8>, targets: &[SLMPDeviceBlockData<u16>])
    requires
        forall|k: int| 0 <= k < targets@.len() ==> (#[trigger] targets@[k]).wf(),
    ensures
        final(buf)@ == old(buf)@ + spec_concat_bytes(targets@, blockdata_w32_bytes()),
{
    let n = targets.len();
    let mut i: usize = 0;
    assert(buf@ =~= old(buf)@ + spec_concat_bytes(targets@.take(0), blockdata_w32_bytes()));
    while i < n
        invariant
            n == targets@.len(),
            i <= n,
            forall|k: int| 0 <= k < n ==> (#[trigger] targets@[k]).wf(),
            buf@ == old(buf)@ + spec_concat_bytes(targets@.take(i as int), blockdata_w32_bytes()),
        decreases n - i,
    {
        let d = vstd::slice::slice_index_get(targets, i);
        let mut packed = d.pack32();
        buf.append(&mut packed);
        proof {
            lemma_concat_bytes_take_step(targets@, blockdata_w32_bytes(), i as int);
            assert(buf@ =~= old(buf)@ + spec_concat_bytes(
                targets@.take(i + 1),
                blockdata_w32_bytes(),
            ));
        }
        i += 1;
    }
    proof {
        lemma_concat_bytes_take_all(targets@, blockdata_w32_bytes());
    }
}

/// Appends the write-block chunks of bit blocks, 32-bit layout.
fn push_blockdatas_b32(buf: &mut Vec<u8>, targets: &[SLMPDeviceBlockData<bool>])
    requires
        forall|k: int| 0 <= k < targets@.len() ==> (#[trigger] targets@[k]).wf(),
    ensures
        final(buf)@ == old(buf)@ + spec_concat_bytes(targets@, blockdata_b32_bytes()),
{
    let n = targets.len();
    let mut i: usize = 0;
    assert(buf@ =~= old(buf)@ + spec_concat_bytes(targets@.take(0), blockdata_b32_bytes()));
    while i < n
        invariant
            n == targets@.len(),
            i <= n,
            forall|k: int| 0 <= k < n ==> (#[trigger] targets@[k]).wf(),
            buf@ == old(buf)@ + spec_concat_bytes(targets@.take(i as int), blockdata_b32_bytes()),
        decreases n - i,
    {
        let d = vstd::slice::slice_index_get(targets, i);
        let mut packed = d.pack32();
        buf.append(&mut packed);
        proof {
            lemma_concat_bytes_take_step(targets@, blockdata_b32_bytes(), i as int);
            assert(buf@ =~= old(buf)@ + spec_concat_bytes(
                targets@.take(i + 1),
                blockdata_b32_bytes(),
            ));
        }
        i += 1;
    }
    proof {
        lemma_concat_bytes_take_all(targets@, blockdata_b32_bytes());
    }
}

/// Prepares a block write, 16-bit addressing: the two block counts, then
/// each block's field and data.  The whole payload must fit the declared-
/// length field of the frame.
pub fn send_write_block_cmd_16(
    connection_info: &mut SLMPConnectionInfo,
    timeout: u16,
    target_word: &[SLMPDeviceBlockData<u16>],
    target_bit: &[SLMPDeviceBlockData<bool>],
) -> (r: Option<SendRequest>)
    requires
        old(connection_info).wf(),
        forall|k: int| 0 <= k < target_word@.len() ==> (#[trigger] target_word@[k]).wf(),
        forall|k: int| 0 <= k < target_bit@.len() ==> (#[trigger] target_bit@[k]).wf(),
        2 + spec_concat_bytes(target_word@, blockdata_w16_bytes()).len() + spec_concat_bytes(
            target_bit@,
            blockdata_b16_bytes(),
        ).len() + 4 <= 0xFFFF,
    ensures
        r is Some <==> target_word@.len() <= 0xFF && target_bit@.len() <= 0xFF,
        r is None ==> *final(connection_info) == *old(connection_info),
        r matches Some(req) ==> spec_sent(
            *old(connection_info),
            *final(connection_info),
            req,
            timeout,
            SLMPCommand::WriteBlock,
            0,
            spec_two_counts(target_word@.len() as int, target_bit@.len() as int)
                + spec_concat_bytes(target_word@, blockdata_w16_bytes()) + spec_concat_bytes(
                target_bit@,
                blockdata_b16_bytes(),
            ),
        ),
{
    if target_word.len() > 0xFF || target_bit.len() > 0xFF {
        return None;
    }
    let mut buf: Vec<u8> = Vec::new();
    buf.push(target_word.len() as u8);
    buf.push(target_bit.len() as u8);
    push_blockdatas_w16(&mut buf, target_word);
    push_blockdatas_b16(&mut buf, target_bit);
    assert(buf@ =~= spec_two_counts(target_word@.len() as int, target_bit@.len() as int)
        + spec_concat_bytes(target_word@, blockdata_w16_bytes()) + spec_concat_bytes(
        target_bit@,
        blockdata_b16_bytes(),
    ));
    Some(connection_info.send_cmd(timeout, SLMPCommand::WriteBlock, 0, buf.as_slice()))
}

/// Prepares a block write, 32-bit addressing.
pub fn send_write_block_cmd_32(
    connection_info: &mut SLMPConnectionInfo,
    timeout: u16,
    target_word: &[SLMPDeviceBlockData<u16>],
    target_bit: &[SLMPDeviceBlockData<bool>],
) -> (r: Option<SendRequest>)
    requires
        old(connection_info).wf(),
        forall|k: int| 0 <= k < target_word@.len() ==> (#[trigger] target_word@[k]).wf(),
        forall|k: int| 0 <= k < target_bit@.len() ==> (#[trigger] target_bit@[k]).wf(),
        2 + spec_concat_bytes(target_word@, blockdata_w32_bytes()).len() + spec_concat_bytes(
            target_bit@,
            blockdata_b32_bytes(),
        ).len() + 4 <= 0xFFFF,
    ensures
        r is Some <==> target_word@.len() <= 0xFF && target_bit@.len() <= 0xFF,
        r is None ==> *final(connection_info) == *old(connection_info),
        r matches Some(req) ==> spec_sent(
            *old(connection_info),
            *final(connection_info),
            req,
            timeout,
            SLMPCommand::WriteBlock,
            2,
            spec_two_counts(target_word@.len() as int, target_bit@.len() as int)
                + spec_concat_bytes(target_word@, blockdata_w32_bytes()) + spec_concat_bytes(
                target_bit@,
                blockdata_b32_bytes(),
            ),
        ),
{
    if target_word.len() > 0xFF || target_bit.len() > 0xFF {
        return None;
    }
    let mut buf: Vec<u8> = Vec::new();
    buf.push(target_word.len() as u8);
    buf.push(target_bit.len() as u8);
    push_blockdatas_w32(&mut buf, target_word);
    push_blockdatas_b32(&mut buf, target_bit);
    assert(buf@ =~= spec_two_counts(target_word@.len() as int, target_bit@.len() as int)
        + spec_concat_bytes(target_word@, blockdata_w32_bytes()) + spec_concat_bytes(
        target_bit@,
        blockdata_b32_bytes(),
    ));
    Some(connection_info.send_cmd(timeout, SLMPCommand::WriteBlock, 2, buf.as_slice()))
}

/// The byte offset at which block `i` of a block-read response begins,
/// counted within its own list: two bytes per counted point.
pub open spec fn spec_blocks_span(s: Seq<SLMPDeviceBlock>, i: int) -> int
    decreases i,
{
    if i <= 0 {
        0
    } else {
        spec_blocks_span(s, i - 1) + 2 * s[i - 1].count
    }
}

/// Block offsets grow with the block index.
proof fn lemma_blocks_span_mono(s: Seq<SLMPDeviceBlock>, i: int, j: int)
    requires
        0 <= i <= j,
    ensures
        spec_blocks_span(s, i) <= spec_blocks_span(s, j),
    decreases j - i,
{
    if i < j {
        lemma_blocks_span_mono(s, i, j - 1);
    }
}

/// Decodes a block-read response: the word blocks' data first, then the
/// bit blocks' data, each block's bytes in its requested length.
pub fn decode_read_block_response(
    buf: &[u8],
    target_word: &[SLMPDeviceBlock],
    target_bit: &[SLMPDeviceBlock],
) -> (r: (Vec<SLMPDeviceBlockData<u16>>, Vec<SLMPDeviceBlockData<bool>>))
    requires
        buf@.len() >= spec_blocks_span(target_word@, target_word@.len() as int) + spec_blocks_span(
            target_bit@,
            target_bit@.len() as int,
        ),
    ensures
        r.0@.len() == target_word@.len(),
        forall|i: int| 0 <= i < r.0@.len() ==> (#[trigger] r.0@[i]).spec_block() == target_word@[i],
        forall|i: int| 0 <= i < r.0@.len() ==> (#[trigger] r.0@[i]).wf(),
        forall|i: int| 0 <= i < r.0@.len() ==> Some((#[trigger] r.0@[i]).values())
            == spec_unpack_words_by_word(
            buf@.subrange(
                spec_blocks_span(target_word@, i),
                spec_blocks_span(target_word@, i) + 2 * target_word@[i].count,
            ),
        ),
        r.1@.len() == target_bit@.len(),
        forall|j: int| 0 <= j < r.1@.len() ==> (#[trigger] r.1@[j]).spec_block() == target_bit@[j],
        forall|j: int| 0 <= j < r.1@.len() ==> (#[trigger] r.1@[j]).wf(),
        forall|j: int| 0 <= j < r.1@.len() ==> (#[trigger] r.1@[j]).values()
            == spec_unpack_bits_by_word(
            buf@.subrange(
                spec_blocks_span(target_word@, target_word@.len() as int) + spec_blocks_span(
                    target_bit@,
                    j,
                ),
                spec_blocks_span(target_word@, target_word@.len() as int) + spec_blocks_span(
                    target_bit@,
                    j,
                ) + 2 * target_bit@[j].count,
            ),
        ),
{
    let wn = target_word.len();
    let bn = target_bit.len();
    let blen = buf.len();
    let mut ret_w: Vec<SLMPDeviceBlockData<u16>> = Vec::new();
    let mut off: usize = 0;
    let mut i: usize = 0;
    while i < wn
        invariant
            wn == target_word@.len(),
            bn == target_bit@.len(),
            blen == buf@.len(),
            blen >= spec_blocks_span(target_word@, wn as int) + spec_blocks_span(
                target_bit@,
                bn as int,
            ),
            i <= wn,
            off == spec_blocks_span(target_word@, i as int),
            ret_w@.len() == i,
            forall|k: int| 0 <= k < i ==> (#[trigger] ret_w@[k]).spec_block() == target_word@[k],
            forall|k: int| 0 <= k < i ==> (#[trigger] ret_w@[k]).wf(),
            forall|k: int| 0 <= k < i ==> Some((#[trigger] ret_w@[k]).values())
                == spec_unpack_words_by_word(
                buf@.subrange(
                    spec_blocks_span(target_word@, k),
                    spec_blocks_span(target_word@, k) + 2 * target_word@[k].count,
                ),
            ),
        decreases wn - i,
    {
        let blk = target_word[i];
        let count2: usize = 2 * (blk.count as usize);
        proof {
            lemma_blocks_span_mono(target_word@, i + 1, wn as int);
            lemma_blocks_span_mono(target_bit@, 0, bn as int);
        }
        let mut tmp: Vec<u8> = Vec::new();
        let mut k: usize = 0;
        while k < count2
            invariant
                k <= count2,
                off + count2 <= blen,
                blen == buf@.len(),
                tmp@ == buf@.subrange(off as int, off + k),
            decreases count2 - k,
        {
            tmp.push(buf[off + k]);
            proof {
                assert(tmp@ =~= buf@.subrange(off as int, off + k + 1));
            }
            k += 1;
        }
        let mut dbd = SLMPDeviceBlockData::<u16>::new(blk.top_device, blk.count);
        dbd.decode(tmp.as_slice());
        ret_w.push(dbd);
        off += count2;
        i += 1;
    }
    let mut ret_b: Vec<SLMPDeviceBlockData<bool>> = Vec::new();
    let mut j: usize = 0;
    while j < bn
        invariant
            wn == target_word@.len(),
            bn == target_bit@.len(),
            blen == buf@.len(),
            blen >= spec_blocks_span(target_word@, wn as int) + spec_blocks_span(
                target_bit@,
                bn as int,
            ),
            j <= bn,
            off == spec_blocks_span(target_word@, wn as int) + spec_blocks_span(
                target_bit@,
                j as int,
            ),
            ret_b@.len() == j,
            forall|k: int| 0 <= k < j ==> (#[trigger] ret_b@[k]).spec_block() == target_bit@[k],
            forall|k: int| 0 <= k < j ==> (#[trigger] ret_b@[k]).wf(),
            forall|k: int| 0 <= k < j ==> (#[trigger] ret_b@[k]).values()
                == spec_unpack_bits_by_word(
                buf@.subrange(
                    spec_blocks_span(target_word@, wn as int) + spec_blocks_span(target_bit@, k),
                    spec_blocks_span(target_word@, wn as int) + spec_blocks_span(target_bit@, k) + 2
                        * target_bit@[k].count,
                ),
            ),
        decreases bn - j,
    {
        let blk = target_bit[j];
        let count2: usize = 2 * (blk.count as usize);
        proof {
            lemma_blocks_span_mono(target_bit@, j + 1, bn as int);
        }
        let mut tmp: Vec<u8> = Vec::new();
        let mut k: usize = 0;
        while k < count2
            invariant
                k <= count2,
                off + count2 <= blen,
                blen == buf@.len(),
                tmp@ == buf@.subrange(off as int, off + k),
            decreases count2 - k,
        {
            tmp.push(buf[off + k]);
            proof {
                assert(tmp@ =~= buf@.subrange(off as int, off + k + 1));
            }
            k += 1;
        }
        let mut dbd = SLMPDeviceBlockData::<bool>::new(blk.top_device, blk.count);
        dbd.decode(tmp.as_slice());
        ret_b.push(dbd);
        off += count2;
        j += 1;
    }
    (ret_w, ret_b)
}

} // verus!
