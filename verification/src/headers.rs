//! The frame header codec: the three sub-header shapes of SLMP frames and
//! the MT header they follow.
//!
//! A request carries identity, payload length and a timer; a response
//! substitutes an end code for the timer; an unsolicited on-demand frame
//! substitutes a reserved field.  All multi-byte fields are little-endian.

use vstd::prelude::*;

use crate::bytes::{hi16, lo16, word_of};

verus! {

/// The MT header opening every frame: frame type, sequence, reserved.
#[derive(Copy, Clone, Debug, PartialEq, Eq, Structural)]
pub struct SlmpMTHeader {
    /// The frame-type tag.
    pub f_type: u16,
    /// The sequence number correlating a response to its request.
    pub serial_no: u16,
    /// Reserved, zero on the wire.
    pub reserved2: u16,
}

impl SlmpMTHeader {
    /// Parses the six header bytes.
    pub fn from(buf: [u8; 6]) -> (r: SlmpMTHeader)
        ensures
            r.f_type == word_of(buf@[0], buf@[1]),
            r.serial_no == word_of(buf@[2], buf@[3]),
            r.reserved2 == word_of(buf@[4], buf@[5]),
    {
        let f_type = (buf[0] as u16) + 256 * (buf[1] as u16);
        let serial_no = (buf[2] as u16) + 256 * (buf[3] as u16);
        let reserved2 = (buf[4] as u16) + 256 * (buf[5] as u16);
        SlmpMTHeader { f_type, serial_no, reserved2 }
    }
}

/// The sub-header of a response frame: identity, payload length, end code.
#[derive(Copy, Clone, Debug, PartialEq, Eq, Structural)]
pub struct SlmpSubHeaderRes {
    /// Network number of the answering station.
    pub net_no: u8,
    /// Node number of the answering station.
    pub node_no: u8,
    /// Processor (I/O unit) number.
    pub dst_proc_no: u16,
    /// Reserved or multidrop number.
    pub reserved1: u8,
    /// Declared payload length, end code included.
    pub dl: u16,
    /// The end code of the response.
    pub end_code: u16,
}

impl SlmpSubHeaderRes {
    /// Parses the nine sub-header bytes.
    pub fn from(buf: [u8; 9]) -> (r: SlmpSubHeaderRes)
        ensures
            r.net_no == buf@[0],
            r.node_no == buf@[1],
            r.dst_proc_no == word_of(buf@[2], buf@[3]),
            r.reserved1 == buf@[4],
            r.dl == word_of(buf@[5], buf@[6]),
            r.end_code == word_of(buf@[7], buf@[8]),
    {
        SlmpSubHeaderRes {
            net_no: buf[0],
            node_no: buf[1],
            dst_proc_no: (buf[2] as u16) + 256 * (buf[3] as u16),
            reserved1: buf[4],
            dl: (buf[5] as u16) + 256 * (buf[6] as u16),
            end_code: (buf[7] as u16) + 256 * (buf[8] as u16),
        }
    }
}

/// The sub-header of a request frame: identity, payload length, timer.
#[derive(Copy, Clone, Debug, PartialEq, Eq, Structural)]
pub struct SlmpSubHeaderReq {
    /// Network number of the addressed station.
    pub net_no: u8,
    /// Node number of the addressed station.
    pub node_no: u8,
    /// Processor (I/O unit) number.
    pub dst_proc_no: u16,
    /// Reserved or multidrop number.
    pub reserved1: u8,
    /// Declared payload length: content length plus four for the trailing
    /// command and sub-command.
    pub dl: u16,
    /// Monitoring timer in units of 250 ms.
    pub timer: u16,
}

/// The nine wire bytes of a request sub-header.
pub open spec fn spec_subheader_req(h: SlmpSubHeaderReq) -> Seq<u8> {
    seq![
        h.net_no,
        h.node_no,
        lo16(h.dst_proc_no),
        hi16(h.dst_proc_no),
        h.reserved1,
        lo16(h.dl),
        hi16(h.dl),
        lo16(h.timer),
        hi16(h.timer),
    ]
}

impl SlmpSubHeaderReq {
    /// Parses the nine sub-header bytes.
    pub fn from(buf: [u8; 9]) -> (r: SlmpSubHeaderReq)
        ensures
            r.net_no == buf@[0],
            r.node_no == buf@[1],
            r.dst_proc_no == word_of(buf@[2], buf@[3]),
            r.reserved1 == buf@[4],
            r.dl == word_of(buf@[5], buf@[6]),
            r.timer == word_of(buf@[7], buf@[8]),
    {
        SlmpSubHeaderReq {
            net_no: buf[0],
            node_no: buf[1],
            dst_proc_no: (buf[2] as u16) + 256 * (buf[3] as u16),
            reserved1: buf[4],
            dl: (buf[5] as u16) + 256 * (buf[6] as u16),
            timer: (buf[7] as u16) + 256 * (buf[8] as u16),
        }
    }

    /// Lays the sub-header out as its nine wire bytes.
    pub fn to(&self) -> (r: [u8; 9])
        ensures
            r@ == spec_subheader_req(*self),
    {
        let r = [
            self.net_no,
            self.node_no,
            (self.dst_proc_no % 256) as u8,
            (self.dst_proc_no / 256) as u8,
            self.reserved1,
            (self.dl % 256) as u8,
            (self.dl / 256) as u8,
            (self.timer % 256) as u8,
            (self.timer / 256) as u8,
        ];
        assert(r@ =~= spec_subheader_req(*self));
        r
    }
}

/// The sub-header of an unsolicited on-demand frame: identity, payload
/// length, reserved.
#[derive(Copy, Clone, Debug, PartialEq, Eq, Structural)]
pub struct SlmpSubHeaderOd {
    /// Network number of the sending station.
    pub net_no: u8,
    /// Node number of the sending station.
    pub node_no: u8,
    /// Processor (I/O unit) number.
    pub dst_proc_no: u16,
    /// Reserved or multidrop number.
    pub reserved1: u8,
    /// Declared payload length.
    pub dl: u16,
    /// Reserved, zero on the wire.
    pub reserved3: u16,
}

impl SlmpSubHeaderOd {
    /// Parses the nine sub-header bytes.
    pub fn from(buf: [u8; 9]) -> (r: SlmpSubHeaderOd)
        ensures
            r.net_no == buf@[0],
            r.node_no == buf@[1],
            r.dst_proc_no == word_of(buf@[2], buf@[3]),
            r.reserved1 == buf@[4],
            r.dl == word_of(buf@[5], buf@[6]),
            r.reserved3 == word_of(buf@[7], buf@[8]),
    {
        SlmpSubHeaderOd {
            net_no: buf[0],
            node_no: buf[1],
            dst_proc_no: (buf[2] as u16) + 256 * (buf[3] as u16),
            reserved1: buf[4],
            dl: (buf[5] as u16) + 256 * (buf[6] as u16),
            reserved3: (buf[7] as u16) + 256 * (buf[8] as u16),
        }
    }
}

/// The error information an on-demand error frame carries: the identity of
/// the faulting station and the command it was handling.
#[derive(Copy, Clone, Debug, PartialEq, Eq, Structural)]
pub struct ErrInfo {
    /// Network number of the faulting station.
    pub net_no: u8,
    /// Node number of the faulting station.
    pub node_no: u8,
    /// Processor (I/O unit) number.
    pub dst_proc_no: u16,
    /// Reserved or multidrop number.
    pub reserved1: u8,
    /// The command of the failed request.
    pub command: u16,
    /// The sub-command of the failed request.
    pub sub_command: u16,
}

impl ErrInfo {
    /// Parses the nine error-information bytes.
    pub fn from(buf: [u8; 9]) -> (r: ErrInfo)
        ensures
            r.net_no == buf@[0],
            r.node_no == buf@[1],
            r.dst_proc_no == word_of(buf@[2], buf@[3]),
            r.reserved1 == buf@[4],
            r.command == word_of(buf@[5], buf@[6]),
            r.sub_command == word_of(buf@[7], buf@[8]),
    {
        ErrInfo {
            net_no: buf[0],
            node_no: buf[1],
            dst_proc_no: (buf[2] as u16) + 256 * (buf[3] as u16),
            reserved1: buf[4],
            command: (buf[5] as u16) + 256 * (buf[6] as u16),
            sub_command: (buf[7] as u16) + 256 * (buf[8] as u16),
        }
    }
}

} // verus!
