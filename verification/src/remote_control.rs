//! Request builders for the remote control commands — run, stop, pause,
//! latch clear, reset — and the type-name query with its decoder.

use vstd::prelude::*;

use crate::bytes::word_of;
use crate::enums::{SLMPClearMode, SLMPCommand};
use crate::session::{spec_sent, SLMPConnectionInfo, SendRequest};

verus! {

/// Prepares a remote RUN request: a mode byte (0x03 forced, 0x01 not), a
/// pad byte, the clear-mode byte, and a pad byte.
pub fn send_remote_run_cmd(
    connection_info: &mut SLMPConnectionInfo,
    timeout: u16,
    force: bool,
    clear_mode: SLMPClearMode,
) -> (r: SendRequest)
    requires
        old(connection_info).wf(),
    ensures
        spec_sent(
            *old(connection_info),
            *final(connection_info),
            r,
            timeout,
            SLMPCommand::RemoteRun,
            0,
            seq![
                (if force { 0x03u8 } else { 0x01u8 }),
                0u8,
                clear_mode.spec_code(),
                0u8,
            ],
        ),
{
    let mut buf: Vec<u8> = Vec::new();
    if force {
        buf.push(0x03);
    } else {
        buf.push(0x01);
    }
    buf.push(0);
    buf.push(clear_mode.code());
    buf.push(0);
    assert(buf@ =~= seq![
        (if force { 0x03u8 } else { 0x01u8 }),
        0u8,
        clear_mode.spec_code(),
        0u8,
    ]);
    connection_info.send_cmd(timeout, SLMPCommand::RemoteRun, 0, buf.as_slice())
}

/// Prepares a remote STOP request.
pub fn send_remote_stop_cmd(connection_info: &mut SLMPConnectionInfo, timeout: u16) -> (r:
    SendRequest)
    requires
        old(connection_info).wf(),
    ensures
        spec_sent(
            *old(connection_info),
            *final(connection_info),
            r,
            timeout,
            SLMPCommand::RemoteStop,
            0,
            seq![1u8, 0u8],
        ),
{
    let mut buf: Vec<u8> = Vec::new();
    buf.push(1);
    buf.push(0);
    assert(buf@ =~= seq![1u8, 0u8]);
    connection_info.send_cmd(timeout, SLMPCommand::RemoteStop, 0, buf.as_slice())
}

/// Prepares a remote PAUSE request: mode byte 0x01 when forced, 0x03 when
/// not, and a pad byte.
pub fn send_remote_pause_cmd(
    connection_info: &mut SLMPConnectionInfo,
    timeout: u16,
    force: bool,
) -> (r: SendRequest)
    requires
        old(connection_info).wf(),
    ensures
        spec_sent(
            *old(connection_info),
            *final(connection_info),
            r,
            timeout,
            SLMPCommand::RemotePause,
            0,
            seq![(if force { 0x01u8 } else { 0x03u8 }), 0u8],
        ),
{
    let mut buf: Vec<u8> = Vec::new();
    if force {
        buf.push(0x01);
    } else {
        buf.push(0x03);
    }
    buf.push(0);
    assert(buf@ =~= seq![(if force { 0x01u8 } else { 0x03u8 }), 0u8]);
    connection_info.send_cmd(timeout, SLMPCommand::RemotePause, 0, buf.as_slice())
}

/// Prepares a remote latch-clear request.
pub fn send_remote_latch_clear(connection_info: &mut SLMPConnectionInfo, timeout: u16) -> (r:
    SendRequest)
    requires
        old(connection_info).wf(),
    ensures
        spec_sent(
            *old(connection_info),
            *final(connection_info),
            r,
            timeout,
            SLMPCommand::RemoteLatchClear,
            0,
            seq![1u8, 0u8],
        ),
{
    let mut buf: Vec<u8> = Vec::new();
    buf.push(1);
    buf.push(0);
    assert(buf@ =~= seq![1u8, 0u8]);
    connection_info.send_cmd(timeout, SLMPCommand::RemoteLatchClear, 0, buf.as_slice())
}

/// Prepares a remote RESET request.
pub fn send_remote_reset_cmd(connection_info: &mut SLMPConnectionInfo, timeout: u16) -> (r:
    SendRequest)
    requires
        old(connection_info).wf(),
    ensures
        spec_sent(
            *old(connection_info),
            *final(connection_info),
            r,
            timeout,
            SLMPCommand::RemoteReset,
            0,
            seq![1u8, 0u8],
        ),
{
    let mut buf: Vec<u8> = Vec::new();
    buf.push(1);
    buf.push(0);
    assert(buf@ =~= seq![1u8, 0u8]);
    connection_info.send_cmd(timeout, SLMPCommand::RemoteReset, 0, buf.as_slice())
}

/// Prepares a type-name query; the response is decoded by
/// [`decode_read_type_name_response`].
pub fn send_read_type_name_cmd(connection_info: &mut SLMPConnectionInfo, timeout: u16) -> (r:
    SendRequest)
    requires
        old(connection_info).wf(),
    ensures
        spec_sent(
            *old(connection_info),
            *final(connection_info),
            r,
            timeout,
            SLMPCommand::ReadTypeName,
            0,
            Seq::<u8>::empty(),
        ),
{
    let buf: Vec<u8> = Vec::new();
    assert(buf@ =~= Seq::<u8>::empty());
    connection_info.send_cmd(timeout, SLMPCommand::ReadTypeName, 0, buf.as_slice())
}

/// Decodes a type-name response: sixteen name characters, then the
/// two-byte type code, little-endian.
pub fn decode_read_type_name_response(buf: &[u8]) -> (r: (String, u16))
    requires
        buf@.len() >= 18,
    ensures
        r.0@.len() == 16,
        forall|i: int| 0 <= i < 16 ==> r.0@[i] == buf@[i] as char,
        r.1 == word_of(buf@[16], buf@[17]),
{
    let mut s = String::new();
    let mut i: usize = 0;
    while i < 16
        invariant
            buf@.len() >= 18,
            i <= 16,
            s@.len() == i,
            forall|k: int| 0 <= k < i ==> s@[k] == buf@[k] as char,
        decreases 16 - i,
    {
        push_byte_char(&mut s, buf[i]);
        i += 1;
    }
    let code = crate::bytes::read_le16(buf, 16);
    (s, code)
}

/// Relies on String::push: appends one character, here always the
/// character with the byte's own code point.
#[verifier::external_body]
fn push_byte_char(s: &mut String, b: u8)
    ensures
        final(s)@ == old(s)@ + seq![b as char],
{
    s.push(b as char)
}

} // verus!
