//! Request builders and decoders for reading and writing the station's
//! dual-port memory and extension-unit memory.
//!
//! Each builder validates its arguments, shapes the command payload, and
//! prepares the request through the session; the session never sees an
//! invalid argument, so no partial request is ever built.

use vstd::prelude::*;

use crate::bytes::{le16, le32, push_le16, push_le32};
use crate::enums::SLMPCommand;
use crate::packing::{spec_pack_words_by_word, pack_words_by_word, spec_unpack_words_by_word, unpack_words_by_word};
use crate::session::{spec_sent, SLMPConnectionInfo, SendRequest};

verus! {

/// Prepares a read of `word_length` words of dual-port memory from
/// `start_addr`.  The length must lie in 1..=480.
pub fn send_read_memory(
    connection_info: &mut SLMPConnectionInfo,
    timeout: u16,
    start_addr: u32,
    word_length: u16,
) -> (r: Option<SendRequest>)
    requires
        old(connection_info).wf(),
    ensures
        r is Some <==> 1 <= word_length <= 480,
        r is None ==> *final(connection_info) == *old(connection_info),
        r matches Some(req) ==> spec_sent(
            *old(connection_info),
            *final(connection_info),
            req,
            timeout,
            SLMPCommand::MemoryRead,
            0,
            le32(start_addr) + le16(word_length),
        ),
{
    if word_length == 0 || word_length > 480 {
        return None;
    }
    let mut buf: Vec<u8> = Vec::new();
    push_le32(&mut buf, start_addr);
    push_le16(&mut buf, word_length);
    assert(buf@ =~= le32(start_addr) + le16(word_length));
    Some(connection_info.send_cmd(timeout, SLMPCommand::MemoryRead, 0, buf.as_slice()))
}

/// Decodes a memory-read response: each word as two little-endian bytes.
/// An odd byte count is rejected rather than truncated.
pub fn decode_read_memory(buf: &[u8]) -> (r: Result<Vec<u16>, &'static str>)
    ensures
        r is Ok <==> buf@.len() % 2 == 0,
        r matches Ok(v) ==> spec_unpack_words_by_word(buf@) == Some(v@),
{
    unpack_words_by_word(buf)
}

/// Prepares a write of `data` into dual-port memory at `start_addr`.  The
/// length must lie in 1..=480 and equal the data's length.
pub fn send_write_memory(
    connection_info: &mut SLMPConnectionInfo,
    timeout: u16,
    start_addr: u32,
    word_length: u16,
    data: &[u16],
) -> (r: Option<SendRequest>)
    requires
        old(connection_info).wf(),
    ensures
        r is Some <==> 1 <= word_length <= 480 && word_length == data@.len(),
        r is None ==> *final(connection_info) == *old(connection_info),
        r matches Some(req) ==> spec_sent(
            *old(connection_info),
            *final(connection_info),
            req,
            timeout,
            SLMPCommand::MemoryWrite,
            0,
            le32(start_addr) + le16(word_length) + spec_pack_words_by_word(data@),
        ),
{
    if word_length == 0 || word_length > 480 {
        return None;
    }
    if (word_length as usize) != data.len() {
        return None;
    }
    let mut buf: Vec<u8> = Vec::new();
    push_le32(&mut buf, start_addr);
    push_le16(&mut buf, word_length);
    let mut packed = pack_words_by_word(data);
    buf.append(&mut packed);
    assert(buf@ =~= le32(start_addr) + le16(word_length) + spec_pack_words_by_word(data@));
    Some(connection_info.send_cmd(timeout, SLMPCommand::MemoryWrite, 0, buf.as_slice()))
}

/// Prepares a read of `byte_length` bytes of extension-unit memory from
/// `start_addr` of unit `unit_no`.  The length must lie in 2..=1920; the
/// address unit is the 2-byte word.
pub fn send_read_extend_unit_memory(
    connection_info: &mut SLMPConnectionInfo,
    timeout: u16,
    start_addr: u32,
    byte_length: u16,
    unit_no: u16,
) -> (r: Option<SendRequest>)
    requires
        old(connection_info).wf(),
    ensures
        r is Some <==> 2 <= byte_length <= 1920,
        r is None ==> *final(connection_info) == *old(connection_info),
        r matches Some(req) ==> spec_sent(
            *old(connection_info),
            *final(connection_info),
            req,
            timeout,
            SLMPCommand::ExtendUnitRead,
            0,
            le32(start_addr) + le16(byte_length) + le16(unit_no),
        ),
{
    if byte_length < 2 || byte_length > 1920 {
        return None;
    }
    let mut buf: Vec<u8> = Vec::new();
    push_le32(&mut buf, start_addr);
    push_le16(&mut buf, byte_length);
    push_le16(&mut buf, unit_no);
    assert(buf@ =~= le32(start_addr) + le16(byte_length) + le16(unit_no));
    Some(connection_info.send_cmd(timeout, SLMPCommand::ExtendUnitRead, 0, buf.as_slice()))
}

/// Prepares a write of `data` into extension-unit memory at `start_addr`
/// of unit `unit_no`.  The byte length must lie in 1..=1920 and equal
/// twice the data's length.
pub fn send_write_extend_unit_memory(
    connection_info: &mut SLMPConnectionInfo,
    timeout: u16,
    start_addr: u32,
    byte_length: u16,
    unit_no: u16,
    data: &[u16],
) -> (r: Option<SendRequest>)
    requires
        old(connection_info).wf(),
    ensures
        r is Some <==> 1 <= byte_length <= 1920 && byte_length == 2 * data@.len(),
        r is None ==> *final(connection_info) == *old(connection_info),
        r matches Some(req) ==> spec_sent(
            *old(connection_info),
            *final(connection_info),
            req,
            timeout,
            SLMPCommand::ExtendUnitWrite,
            0,
            le32(start_addr) + le16(byte_length) + le16(unit_no) + spec_pack_words_by_word(data@),
        ),
{
    if byte_length == 0 || byte_length > 1920 {
        return None;
    }
    if (byte_length as usize) / 2 != data.len() || byte_length % 2 != 0 {
        return None;
    }
    let mut buf: Vec<u8> = Vec::new();
    push_le32(&mut buf, start_addr);
    push_le16(&mut buf, byte_length);
    push_le16(&mut buf, unit_no);
    let mut packed = pack_words_by_word(data);
    buf.append(&mut packed);
    assert(buf@ =~= le32(start_addr) + le16(byte_length) + le16(unit_no)
        + spec_pack_words_by_word(data@));
    Some(connection_info.send_cmd(timeout, SLMPCommand::ExtendUnitWrite, 0, buf.as_slice()))
}

} // verus!
