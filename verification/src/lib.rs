//! Client-side core of SLMP, a request/response protocol for reading and
//! writing memory and I/O devices on PLC-class controllers.
//!
//! The crate covers the byte-level pack codec, the device address model,
//! the frame header codec and the session core (sequence allocation,
//! frame building, and extraction of complete frames from a byte stream).
//! Socket handling lives outside this crate; the session hands frames out
//! as byte vectors and accepts received bytes through [`session::SLMPConnectionInfo`].

use vstd::prelude::*;

use crate::enums::SLMPDeviceCode;

pub mod bytes;
pub mod device;
pub mod dual_port_memory;
pub mod enums;
pub mod headers;
pub mod internal_memory;
pub mod packing;
pub mod remote_control;
pub mod session;

verus! {

/// The device field of a 32-bit-addressed read/write command: the
/// two-byte device code, four address bytes and the two-byte count, all
/// little-endian.
pub fn make_cmd_rw_devices32(d_type: SLMPDeviceCode, first_addr: u32, count: u16) -> (r: Vec<u8>)
    ensures
        r@ == bytes::le16(d_type.spec_code()) + bytes::le32(first_addr) + bytes::le16(count),
{
    let mut buf: Vec<u8> = Vec::new();
    bytes::push_le16(&mut buf, d_type.code());
    bytes::push_le32(&mut buf, first_addr);
    bytes::push_le16(&mut buf, count);
    assert(buf@ =~= bytes::le16(d_type.spec_code()) + bytes::le32(first_addr) + bytes::le16(
        count,
    ));
    buf
}

/// The device field of a 16-bit-addressed read/write command: the
/// one-byte device code, two address bytes, a pad byte and the two-byte
/// count, little-endian.
pub fn make_cmd_rw_devices16(d_type: SLMPDeviceCode, first_addr: u16, count: u16) -> (r: Vec<u8>)
    ensures
        r@ == seq![bytes::lo16(d_type.spec_code())] + bytes::le16(first_addr) + seq![0u8]
            + bytes::le16(count),
{
    let mut buf: Vec<u8> = Vec::new();
    let c = d_type.code();
    buf.push((c % 256) as u8);
    bytes::push_le16(&mut buf, first_addr);
    buf.push(0u8);
    bytes::push_le16(&mut buf, count);
    assert(buf@ =~= seq![bytes::lo16(d_type.spec_code())] + bytes::le16(first_addr) + seq![0u8]
        + bytes::le16(count));
    buf
}

/// Prepares a self test: the data length, little-endian, then the data
/// itself, which the station is to echo back.  At most 960 bytes.
pub fn send_self_test_cmd(
    connection_info: &mut session::SLMPConnectionInfo,
    timeout: u16,
    data: &[u8],
) -> (r: Option<session::SendRequest>)
    requires
        old(connection_info).wf(),
    ensures
        r is Some <==> data@.len() <= 960,
        r is None ==> *final(connection_info) == *old(connection_info),
        r matches Some(req) ==> session::spec_sent(
            *old(connection_info),
            *final(connection_info),
            req,
            timeout,
            enums::SLMPCommand::SelfTest,
            0,
            bytes::le16(data@.len() as u16) + data@,
        ),
{
    let length = data.len();
    if length > 960 {
        return None;
    }
    let mut buf: Vec<u8> = Vec::new();
    bytes::push_le16(&mut buf, length as u16);
    let n = data.len();
    let mut i: usize = 0;
    while i < n
        invariant
            n == data@.len(),
            i <= n,
            buf@ == bytes::le16(n as u16) + data@.take(i as int),
        decreases n - i,
    {
        buf.push(data[i]);
        proof {
            assert(buf@ =~= bytes::le16(n as u16) + data@.take(i + 1));
        }
        i += 1;
    }
    assert(buf@ =~= bytes::le16(data@.len() as u16) + data@);
    Some(connection_info.send_cmd(timeout, enums::SLMPCommand::SelfTest, 0, buf.as_slice()))
}

/// Decodes a self-test response: the echoed data follows the two length
/// bytes.
pub fn decode_self_test_response(buf: &[u8]) -> (r: Vec<u8>)
    requires
        buf@.len() >= 2,
    ensures
        r@ == buf@.skip(2),
{
    let mut ret: Vec<u8> = Vec::new();
    let n = buf.len();
    let mut i: usize = 2;
    while i < n
        invariant
            2 <= i <= n,
            n == buf@.len(),
            ret@ == buf@.subrange(2, i as int),
        decreases n - i,
    {
        ret.push(buf[i]);
        proof {
            assert(ret@ =~= buf@.subrange(2, i + 1));
        }
        i += 1;
    }
    assert(ret@ =~= buf@.skip(2));
    ret
}

/// Prepares an error-clear request; it carries no payload.
pub fn send_clear_error_cmd(connection_info: &mut session::SLMPConnectionInfo, timeout: u16) -> (r:
    session::SendRequest)
    requires
        old(connection_info).wf(),
    ensures
        session::spec_sent(
            *old(connection_info),
            *final(connection_info),
            r,
            timeout,
            enums::SLMPCommand::ClearErrorCode,
            0,
            Seq::<u8>::empty(),
        ),
{
    let buf: Vec<u8> = Vec::new();
    assert(buf@ =~= Seq::<u8>::empty());
    connection_info.send_cmd(timeout, enums::SLMPCommand::ClearErrorCode, 0, buf.as_slice())
}

/// Extracts the data of an on-demand payload: the payload must open with
/// the fixed on-demand command 0x2101 and sub-command 0x0000, little-
/// endian; what follows those four bytes is the data.
pub fn decode_on_demand_data(buf: &[u8]) -> (r: Option<Vec<u8>>)
    requires
        buf@.len() >= 4,
    ensures
        r is Some <==> buf@[0] == 0x01 && buf@[1] == 0x21 && buf@[2] == 0x00 && buf@[3] == 0x00,
        r matches Some(v) ==> v@ == buf@.skip(4),
{
    if buf[0] != 0x01 || buf[1] != 0x21 || buf[2] != 0x00 || buf[3] != 0x00 {
        return None;
    }
    let mut ret: Vec<u8> = Vec::new();
    let n = buf.len();
    let mut i: usize = 4;
    while i < n
        invariant
            4 <= i <= n,
            n == buf@.len(),
            ret@ == buf@.subrange(4, i as int),
        decreases n - i,
    {
        ret.push(buf[i]);
        proof {
            assert(ret@ =~= buf@.subrange(4, i + 1));
        }
        i += 1;
    }
    assert(ret@ =~= buf@.skip(4));
    Some(ret)
}

} // verus!
