//! The session core: station identity, the sequence counter, the frame
//! builder for requests, and extraction of complete frames from the
//! receive-accumulation buffer.
//!
//! The session owns no socket.  A caller builds a request with
//! [`SLMPConnectionInfo::send_cmd`], writes the returned frame bytes to its
//! transport (re-building the frame with [`SendRequest::frame`] on a failed
//! attempt), appends whatever bytes the transport delivers with
//! [`SLMPConnectionInfo::feed`], and asks [`SLMPConnectionInfo::try_recv_cmd`]
//! to cut one complete frame out of the accumulated bytes.

use vstd::prelude::*;

use crate::bytes::{le16, word_of, push_le16, read_le16};
use crate::enums::{spec_end_code, SLMPCommand, SLMPEndCode};

verus! {

/// Relies on rand::random: draws a value from the thread-local generator;
/// nothing is promised of the result.
pub assume_specification<T>[ rand::random::<T> ]() -> (r: T)
    where
        rand::distributions::Standard: rand::distributions::Distribution<T>,
;

/// The session state for one logical target station.
pub struct SLMPConnectionInfo {
    /// Network number of the target station.
    network: u8,
    /// Node number of the target station.
    node: u8,
    /// Processor (I/O unit) number of the target station.
    dst_proc: u16,
    /// Multidrop number of the target station.
    m_drop: u8,
    /// The sequence counter requests are numbered from.
    seq_no: u16,
    /// Bytes received from the transport and not yet cut into frames.
    buf: Vec<u8>,
}

impl SLMPConnectionInfo {
    /// Network number, for use in contracts.
    pub closed spec fn spec_network(&self) -> u8 {
        self.network
    }

    /// Node number, for use in contracts.
    pub closed spec fn spec_node(&self) -> u8 {
        self.node
    }

    /// Processor number, for use in contracts.
    pub closed spec fn spec_dst_proc(&self) -> u16 {
        self.dst_proc
    }

    /// Multidrop number, for use in contracts.
    pub closed spec fn spec_m_drop(&self) -> u8 {
        self.m_drop
    }

    /// The sequence counter, for use in contracts.
    pub closed spec fn spec_seq(&self) -> u16 {
        self.seq_no
    }

    /// The receive-accumulation buffer, for use in contracts.
    pub closed spec fn spec_buf(&self) -> Seq<u8> {
        self.buf@
    }

    /// The station identity fields taken together.
    pub open spec fn spec_identity(&self) -> (u8, u8, u16, u8) {
        (self.spec_network(), self.spec_node(), self.spec_dst_proc(), self.spec_m_drop())
    }

    /// The sequence counter never rests above 0xFF00: past that it is
    /// reseeded from a random byte.
    pub open spec fn wf(&self) -> bool {
        self.spec_seq() <= 0xFF00
    }

    /// Network number of the target station.
    pub fn get_network(&self) -> (r: u8)
        ensures
            r == self.spec_network(),
    {
        self.network
    }

    /// Sets the network number; all other state is kept.
    pub fn set_network(&mut self, network: u8)
        ensures
            final(self).spec_network() == network,
            final(self).spec_node() == old(self).spec_node(),
            final(self).spec_dst_proc() == old(self).spec_dst_proc(),
            final(self).spec_m_drop() == old(self).spec_m_drop(),
            final(self).spec_seq() == old(self).spec_seq(),
            final(self).spec_buf() == old(self).spec_buf(),
    {
        self.network = network;
    }

    /// Node number of the target station.
    pub fn get_node(&self) -> (r: u8)
        ensures
            r == self.spec_node(),
    {
        self.node
    }

    /// Sets the node number; all other state is kept.
    pub fn set_node(&mut self, node: u8)
        ensures
            final(self).spec_node() == node,
            final(self).spec_network() == old(self).spec_network(),
            final(self).spec_dst_proc() == old(self).spec_dst_proc(),
            final(self).spec_m_drop() == old(self).spec_m_drop(),
            final(self).spec_seq() == old(self).spec_seq(),
            final(self).spec_buf() == old(self).spec_buf(),
    {
        self.node = node;
    }

    /// Processor number of the target station.
    pub fn get_dst_proc(&self) -> (r: u16)
        ensures
            r == self.spec_dst_proc(),
    {
        self.dst_proc
    }

    /// Sets the processor number; all other state is kept.
    pub fn set_dst_proc(&mut self, dst_proc: u16)
        ensures
            final(self).spec_dst_proc() == dst_proc,
            final(self).spec_network() == old(self).spec_network(),
            final(self).spec_node() == old(self).spec_node(),
            final(self).spec_m_drop() == old(self).spec_m_drop(),
            final(self).spec_seq() == old(self).spec_seq(),
            final(self).spec_buf() == old(self).spec_buf(),
    {
        self.dst_proc = dst_proc;
    }

    /// Multidrop number of the target station.
    pub fn get_m_drop(&self) -> (r: u8)
        ensures
            r == self.spec_m_drop(),
    {
        self.m_drop
    }

    /// Sets the multidrop number; all other state is kept.
    pub fn set_m_drop(&mut self, m_drop: u8)
        ensures
            final(self).spec_m_drop() == m_drop,
            final(self).spec_network() == old(self).spec_network(),
            final(self).spec_node() == old(self).spec_node(),
            final(self).spec_dst_proc() == old(self).spec_dst_proc(),
            final(self).spec_seq() == old(self).spec_seq(),
            final(self).spec_buf() == old(self).spec_buf(),
    {
        self.m_drop = m_drop;
    }

    /// Allocates the sequence number for a new request: the counter moves
    /// up by 0x10; past 0xFF00 it is replaced by a fresh random byte.
    fn get_new_serial(&mut self) -> (r: u16)
        requires
            old(self).wf(),
        ensures
            final(self).wf(),
            final(self).spec_identity() == old(self).spec_identity(),
            final(self).spec_buf() == old(self).spec_buf(),
            r == final(self).spec_seq(),
            old(self).spec_seq() + 0x10 <= 0xFF00 ==> r == old(self).spec_seq() + 0x10,
            old(self).spec_seq() + 0x10 > 0xFF00 ==> r <= 0xFF,
    {
        self.seq_no = self.seq_no + 0x10;
        if self.seq_no > 0xFF00 {
            let rnd: u8 = rand::random::<u8>();
            self.seq_no = rnd as u16;
        }
        self.seq_no
    }
}

impl Default for SLMPConnectionInfo {
    /// A fresh session: network 1, node 1, processor 0x3FF, multidrop 0,
    /// an empty receive buffer, and a sequence counter seeded from a
    /// random byte.
    fn default() -> (r: SLMPConnectionInfo)
        ensures
            r.spec_network() == 1,
            r.spec_node() == 1,
            r.spec_dst_proc() == 0x3FF,
            r.spec_m_drop() == 0,
            r.spec_seq() <= 0xFF,
            r.spec_buf() == Seq::<u8>::empty(),
            r.wf(),
    {
        let rnd: u8 = rand::random::<u8>();
        let r = SLMPConnectionInfo {
            network: 1,
            node: 1,
            dst_proc: 0x3FF,
            m_drop: 0,
            seq_no: rnd as u16,
            buf: Vec::new(),
        };
        assert(r.spec_buf() =~= Seq::<u8>::empty());
        r
    }
}

/// The sequence number a retried frame carries: the allocated number less
/// the attempt index, wrapping at zero.
pub open spec fn seq_minus(s: u16, d: int) -> u16 {
    (((s + 0x10000) - d) % 0x10000) as u16
}

/// The 19 bytes that open a request frame: frame type 0x0054, sequence,
/// reserved, identity, payload length, timer, command, sub-command.
pub open spec fn spec_request_header(
    net: u8,
    node: u8,
    dst_proc: u16,
    m_drop: u8,
    dl: u16,
    timer: u16,
    seq: u16,
    cmd: SLMPCommand,
    sub_command: u16,
) -> Seq<u8> {
    seq![0x54u8, 0x00u8] + le16(seq) + seq![0x00u8, 0x00u8] + seq![net, node] + le16(dst_proc)
        + seq![m_drop] + le16(dl) + le16(timer) + le16(cmd.spec_code()) + le16(sub_command)
}

/// One prepared request: everything needed to lay out the frame of each
/// write attempt, and the allocated sequence number the caller correlates
/// the response with.
pub struct SendRequest {
    /// The allocated sequence number; the frame of attempt `a` carries
    /// this number less `a`.
    pub seq: u16,
    /// Network number written into the frame.
    pub net_no: u8,
    /// Node number written into the frame.
    pub node_no: u8,
    /// Processor number written into the frame.
    pub dst_proc_no: u16,
    /// Multidrop number written into the frame.
    pub m_drop: u8,
    /// Declared payload length: content length plus four.
    pub dl: u16,
    /// Monitoring timer in units of 250 ms.
    pub timer: u16,
    /// The command code of the request.
    pub command: SLMPCommand,
    /// The sub-command of the request.
    pub sub_command: u16,
    /// The content bytes following command and sub-command.
    pub content: Vec<u8>,
}

impl SendRequest {
    /// The full frame of write attempt `attempt`.
    pub open spec fn spec_frame(&self, attempt: int) -> Seq<u8> {
        spec_request_header(
            self.net_no,
            self.node_no,
            self.dst_proc_no,
            self.m_drop,
            self.dl,
            self.timer,
            seq_minus(self.seq, attempt),
            self.command,
            self.sub_command,
        ) + self.content@
    }

    /// The allocated sequence number, for correlating the response.
    pub fn sequence(&self) -> (r: u16)
        ensures
            r == self.seq,
    {
        self.seq
    }

    /// The transport read timeout this request asks for, in milliseconds:
    /// the timer value times 250.
    pub fn timeout_ms(&self) -> (r: u64)
        ensures
            r == self.timer * 250,
    {
        (self.timer as u64) * 250
    }

    /// Builds the frame of write attempt `attempt`: on each failed write
    /// the next attempt carries the allocated sequence number less one
    /// more.
    pub fn frame(&self, attempt: u8) -> (r: Vec<u8>)
        requires
            attempt < 3,
        ensures
            r@ == self.spec_frame(attempt as int),
    {
        let seq: u16 = ((((self.seq as u32) + 0x10000) - (attempt as u32)) % 0x10000) as u16;
        assert(seq == seq_minus(self.seq, attempt as int));
        let mut buf: Vec<u8> = Vec::new();
        buf.push(0x54);
        buf.push(0x00);
        push_le16(&mut buf, seq);
        buf.push(0x00);
        buf.push(0x00);
        buf.push(self.net_no);
        buf.push(self.node_no);
        push_le16(&mut buf, self.dst_proc_no);
        buf.push(self.m_drop);
        push_le16(&mut buf, self.dl);
        push_le16(&mut buf, self.timer);
        push_le16(&mut buf, self.command.code());
        push_le16(&mut buf, self.sub_command);
        let mut i: usize = 0;
        let n = self.content.len();
        while i < n
            invariant
                n == self.content@.len(),
                i <= n,
                buf@.len() == 19 + i,
                buf@ == self.spec_frame(attempt as int).take(19 + i),
            decreases n - i,
        {
            buf.push(self.content[i]);
            proof {
                assert(buf@ =~= self.spec_frame(attempt as int).take(19 + i + 1));
            }
            i += 1;
        }
        assert(buf@ =~= self.spec_frame(attempt as int));
        buf
    }
}

impl SLMPConnectionInfo {
    /// Prepares one request: allocates a sequence number and captures the
    /// frame fields.  The first write attempt carries the allocated
    /// number; the caller re-builds with [`SendRequest::frame`] for up to
    /// two more attempts, and correlates the response with
    /// [`SendRequest::sequence`].
    pub fn send_cmd(
        &mut self,
        timeout: u16,
        cmd: SLMPCommand,
        sub_command: u16,
        content_data: &[u8],
    ) -> (r: SendRequest)
        requires
            old(self).wf(),
            content_data@.len() + 4 <= 0xFFFF,
        ensures
            final(self).wf(),
            final(self).spec_identity() == old(self).spec_identity(),
            final(self).spec_buf() == old(self).spec_buf(),
            r.seq == final(self).spec_seq(),
            old(self).spec_seq() + 0x10 <= 0xFF00 ==> r.seq == old(self).spec_seq() + 0x10,
            old(self).spec_seq() + 0x10 > 0xFF00 ==> r.seq <= 0xFF,
            r.net_no == old(self).spec_network(),
            r.node_no == old(self).spec_node(),
            r.dst_proc_no == old(self).spec_dst_proc(),
            r.m_drop == old(self).spec_m_drop(),
            r.dl == content_data@.len() + 4,
            r.timer == timeout,
            r.command == cmd,
            r.sub_command == sub_command,
            r.content@ == content_data@,
    {
        let seq = self.get_new_serial();
        let mut content: Vec<u8> = Vec::new();
        let n = content_data.len();
        let mut i: usize = 0;
        while i < n
            invariant
                n == content_data@.len(),
                i <= n,
                content@.len() == i,
                forall|k: int| 0 <= k < i ==> content@[k] == content_data@[k],
            decreases n - i,
        {
            content.push(content_data[i]);
            i += 1;
        }
        assert(content@ =~= content_data@);
        SendRequest {
            seq,
            net_no: self.network,
            node_no: self.node,
            dst_proc_no: self.dst_proc,
            m_drop: self.m_drop,
            dl: (n + 4) as u16,
            timer: timeout,
            command: cmd,
            sub_command,
            content,
        }
    }

    /// Appends bytes the transport delivered to the receive-accumulation
    /// buffer.
    pub fn feed(&mut self, data: &[u8])
        ensures
            final(self).spec_identity() == old(self).spec_identity(),
            final(self).spec_seq() == old(self).spec_seq(),
            final(self).spec_buf() == old(self).spec_buf() + data@,
    {
        let n = data.len();
        let mut i: usize = 0;
        while i < n
            invariant
                n == data@.len(),
                i <= n,
                self.network == old(self).network,
                self.node == old(self).node,
                self.dst_proc == old(self).dst_proc,
                self.m_drop == old(self).m_drop,
                self.seq_no == old(self).seq_no,
                self.buf@ == old(self).buf@ + data@.take(i as int),
            decreases n - i,
        {
            self.buf.push(data[i]);
            proof {
                assert(self.buf@ =~= old(self).buf@ + data@.take(i + 1));
            }
            i += 1;
        }
        assert(self.buf@ =~= old(self).buf@ + data@);
    }

    /// How many bytes the receive buffer currently holds.
    pub fn buffered(&self) -> (r: usize)
        ensures
            r == self.spec_buf().len(),
    {
        self.buf.len()
    }
}

/// The 16-bit value at offset `i` of a byte sequence, little-endian.
pub open spec fn buf_word(b: Seq<u8>, i: int) -> u16 {
    word_of(b[i], b[i + 1])
}

/// Whether the identity fields of a buffered on-demand header match the
/// session's own: network, node, processor and multidrop number.
pub open spec fn spec_od_identity_ok(b: Seq<u8>, net: u8, node: u8, dst_proc: u16, m_drop: u8) -> bool {
    b[6] == net && b[7] == node && buf_word(b, 8) == dst_proc && b[10] == m_drop
}

/// Whether the identity fields of a buffered response header match the
/// session's own: network, node and processor number.
pub open spec fn spec_res_identity_ok(b: Seq<u8>, net: u8, node: u8, dst_proc: u16) -> bool {
    b[6] == net && b[7] == node && buf_word(b, 8) == dst_proc
}

/// The whole length of the frame opening a buffer: 13 plus the declared
/// payload length at offset 11, for both frame shapes.
pub open spec fn spec_frame_total(b: Seq<u8>) -> int {
    13 + buf_word(b, 11)
}

/// One complete frame cut out of the receive buffer.
pub struct RecvFrame {
    /// The sequence number the frame carries.
    pub seq: u16,
    /// The frame's payload bytes.
    pub payload: Vec<u8>,
    /// The end code of a response frame; `None` for an on-demand frame or
    /// an end-code value the code table does not define.
    pub end_code: Option<SLMPEndCode>,
}

/// What one attempt to cut a frame out of the receive buffer yielded.
pub enum RecvStatus {
    /// A complete frame was extracted and consumed.
    Frame(RecvFrame),
    /// The buffer must grow to the given total byte count first; nothing
    /// was consumed.
    NeedMore(usize),
    /// The buffer opens with a malformed frame: a foreign leading byte, a
    /// bad frame-type second byte, an impossible declared length, or an
    /// on-demand frame without the fixed on-demand command.  One byte was
    /// consumed.
    BadFrame,
    /// The frame's station identity is not this session's; nothing was
    /// consumed.
    IdentityMismatch,
}

impl SLMPConnectionInfo {
    /// Cuts the payload bytes `start .. total` out of the buffer and drops
    /// everything before `total`.
    fn extract(&mut self, start: usize, total: usize) -> (payload: Vec<u8>)
        requires
            start <= total,
            total <= old(self).spec_buf().len(),
        ensures
            final(self).spec_identity() == old(self).spec_identity(),
            final(self).spec_seq() == old(self).spec_seq(),
            payload@ == old(self).spec_buf().subrange(start as int, total as int),
            final(self).spec_buf() == old(self).spec_buf().skip(total as int),
    {
        let mut payload: Vec<u8> = Vec::new();
        let mut i: usize = start;
        while i < total
            invariant
                start <= i <= total,
                total <= self.buf@.len(),
                self == old(self),
                payload@ == self.buf@.subrange(start as int, i as int),
            decreases total - i,
        {
            payload.push(self.buf[i]);
            proof {
                assert(payload@ =~= self.buf@.subrange(start as int, i + 1));
            }
            i += 1;
        }
        let rest = self.buf.split_off(total);
        self.buf = rest;
        payload
    }

    /// Attempts to cut one complete frame out of the receive buffer.
    ///
    /// With fewer than 15 bytes buffered nothing can be read.  A buffer
    /// opening with `0x54` is an unsolicited on-demand frame: its identity
    /// fields must match the session's, its declared length must cover the
    /// fixed on-demand command, and that command must be 0x2101 with
    /// sub-command 0x0000.  A buffer opening with `0xD4` is a response:
    /// its identity fields must match, and its declared length covers the
    /// end code and the payload.  Any other leading byte is a malformed
    /// frame.  An identity mismatch consumes nothing and is fatal only for
    /// this receive; a malformed frame consumes one byte.
    pub fn try_recv_cmd(&mut self) -> (r: RecvStatus)
        ensures
            final(self).spec_identity() == old(self).spec_identity(),
            final(self).spec_seq() == old(self).spec_seq(),
            ({
                let b = old(self).spec_buf();
                let net = old(self).spec_network();
                let node = old(self).spec_node();
                let dst_proc = old(self).spec_dst_proc();
                let m_drop = old(self).spec_m_drop();
                match r {
                    RecvStatus::NeedMore(n) => final(self).spec_buf() == b && ((b.len() < 15 && n
                        == 15) || (b.len() >= 15 && b[0] == 0x54 && b[1] == 0x00
                        && spec_od_identity_ok(b, net, node, dst_proc, m_drop) && buf_word(b, 11)
                        >= 6 && n == spec_frame_total(b) && b.len() < n) || (b.len() >= 15 && b[0]
                        == 0xD4 && spec_res_identity_ok(b, net, node, dst_proc) && buf_word(b, 11)
                        >= 2 && n == spec_frame_total(b) && b.len() < n)),
                    RecvStatus::IdentityMismatch => final(self).spec_buf() == b && b.len() >= 15
                        && ((b[0] == 0x54 && b[1] == 0x00 && !spec_od_identity_ok(
                        b,
                        net,
                        node,
                        dst_proc,
                        m_drop,
                    )) || (b[0] == 0xD4 && !spec_res_identity_ok(b, net, node, dst_proc))),
                    RecvStatus::BadFrame => final(self).spec_buf() == b.skip(1) && b.len() >= 15
                        && ((b[0] != 0x54 && b[0] != 0xD4) || (b[0] == 0x54 && b[1] != 0x00) || (
                    b[0] == 0x54 && b[1] == 0x00 && spec_od_identity_ok(b, net, node, dst_proc, m_drop)
                        && buf_word(b, 11) < 6) || (b[0] == 0x54 && b[1] == 0x00
                        && spec_od_identity_ok(b, net, node, dst_proc, m_drop) && buf_word(b, 11)
                        >= 6 && b.len() >= spec_frame_total(b) && (buf_word(b, 15) != 0x2101
                        || buf_word(b, 17) != 0x0000)) || (b[0] == 0xD4 && spec_res_identity_ok(
                        b,
                        net,
                        node,
                        dst_proc,
                    ) && buf_word(b, 11) < 2)),
                    RecvStatus::Frame(f) => b.len() >= 15 && b.len() >= spec_frame_total(b)
                        && f.seq == buf_word(b, 2) && final(self).spec_buf() == b.skip(
                        spec_frame_total(b),
                    ) && ((b[0] == 0x54 && b[1] == 0x00 && spec_od_identity_ok(
                        b,
                        net,
                        node,
                        dst_proc,
                        m_drop,
                    ) && buf_word(b, 11) >= 6 && buf_word(b, 15) == 0x2101 && buf_word(b, 17)
                        == 0x0000 && f.payload@ == b.subrange(19, spec_frame_total(b))
                        && f.end_code is None) || (b[0] == 0xD4 && spec_res_identity_ok(
                        b,
                        net,
                        node,
                        dst_proc,
                    ) && buf_word(b, 11) >= 2 && f.payload@ == b.subrange(15, spec_frame_total(b))
                        && f.end_code == spec_end_code(buf_word(b, 13)))),
                }
            }),
    {
        let blen = self.buf.len();
        if blen < 15 {
            return RecvStatus::NeedMore(15);
        }
        let lead = self.buf[0];
        if lead == 0x54 {
            if self.buf[1] != 0x00 {
                self.buf.remove(0);
                proof {
                    assert(self.buf@ =~= old(self).spec_buf().skip(1));
                }
                return RecvStatus::BadFrame;
            }
            if !(self.buf[6] == self.network && self.buf[7] == self.node && read_le16(
                self.buf.as_slice(),
                8,
            ) == self.dst_proc && self.buf[10] == self.m_drop) {
                return RecvStatus::IdentityMismatch;
            }
            let dl = read_le16(self.buf.as_slice(), 11);
            if dl < 6 {
                self.buf.remove(0);
                proof {
                    assert(self.buf@ =~= old(self).spec_buf().skip(1));
                }
                return RecvStatus::BadFrame;
            }
            let total: usize = 13 + (dl as usize);
            if blen < total {
                return RecvStatus::NeedMore(total);
            }
            if !(read_le16(self.buf.as_slice(), 15) == 0x2101 && read_le16(
                self.buf.as_slice(),
                17,
            ) == 0x0000) {
                self.buf.remove(0);
                proof {
                    assert(self.buf@ =~= old(self).spec_buf().skip(1));
                }
                return RecvStatus::BadFrame;
            }
            let seq = read_le16(self.buf.as_slice(), 2);
            let payload = self.extract(19, total);
            RecvStatus::Frame(RecvFrame { seq, payload, end_code: None })
        } else if lead == 0xD4 {
            if !(self.buf[6] == self.network && self.buf[7] == self.node && read_le16(
                self.buf.as_slice(),
                8,
            ) == self.dst_proc) {
                return RecvStatus::IdentityMismatch;
            }
            let dl = read_le16(self.buf.as_slice(), 11);
            if dl < 2 {
                self.buf.remove(0);
                proof {
                    assert(self.buf@ =~= old(self).spec_buf().skip(1));
                }
                return RecvStatus::BadFrame;
            }
            let total: usize = 13 + (dl as usize);
            if blen < total {
                return RecvStatus::NeedMore(total);
            }
            let seq = read_le16(self.buf.as_slice(), 2);
            let end_code = SLMPEndCode::get(read_le16(self.buf.as_slice(), 13));
            let payload = self.extract(15, total);
            RecvStatus::Frame(RecvFrame { seq, payload, end_code })
        } else {
            self.buf.remove(0);
            proof {
                assert(self.buf@ =~= old(self).spec_buf().skip(1));
            }
            RecvStatus::BadFrame
        }
    }
}

/// The bounded-retry state of one receive: each reassembly phase (each
/// distinct byte target the parser asks for) grants up to three transport
/// reads.
pub struct RecvRetry {
    /// Reads still allowed toward the current target.
    pub attempts_left: u8,
    /// The byte target the attempts count toward.
    pub target: usize,
}

impl RecvRetry {
    /// A fresh retry state: no target yet, three reads for the first one.
    pub fn new() -> (r: RecvRetry)
        ensures
            r.attempts_left == 3,
            r.target == 0,
    {
        RecvRetry { attempts_left: 3, target: 0 }
    }

    /// Asks leave for one more transport read toward `needed` buffered
    /// bytes.  A new target opens a fresh phase of three reads; within a
    /// phase each call spends one, and the call after the third is
    /// refused.
    pub fn may_read(&mut self, needed: usize) -> (r: bool)
        ensures
            needed != old(self).target ==> final(self).target == needed
                && final(self).attempts_left == 2 && r == true,
            needed == old(self).target && old(self).attempts_left > 0 ==> final(self).target
                == needed && final(self).attempts_left == old(self).attempts_left - 1 && r == true,
            needed == old(self).target && old(self).attempts_left == 0 ==> *final(self) == *old(
                self,
            ) && r == false,
    {
        if needed != self.target {
            self.target = needed;
            self.attempts_left = 2;
            true
        } else if self.attempts_left > 0 {
            self.attempts_left = self.attempts_left - 1;
            true
        } else {
            false
        }
    }
}

/// What every request helper guarantees of a prepared request `r`: the
/// session kept its identity and buffer and moved its sequence counter as
/// [`SLMPConnectionInfo::send_cmd`] does, and `r` carries the session's
/// identity, the given timer, command and sub-command, and `payload` as
/// its content.
pub open spec fn spec_sent(
    pre: SLMPConnectionInfo,
    post: SLMPConnectionInfo,
    r: SendRequest,
    timeout: u16,
    cmd: SLMPCommand,
    sub_command: u16,
    payload: Seq<u8>,
) -> bool {
    &&& post.wf()
    &&& post.spec_identity() == pre.spec_identity()
    &&& post.spec_buf() == pre.spec_buf()
    &&& r.seq == post.spec_seq()
    &&& (pre.spec_seq() + 0x10 <= 0xFF00 ==> r.seq == pre.spec_seq() + 0x10)
    &&& (pre.spec_seq() + 0x10 > 0xFF00 ==> r.seq <= 0xFF)
    &&& r.net_no == pre.spec_network()
    &&& r.node_no == pre.spec_node()
    &&& r.dst_proc_no == pre.spec_dst_proc()
    &&& r.m_drop == pre.spec_m_drop()
    &&& r.dl == payload.len() + 4
    &&& r.timer == timeout
    &&& r.command == cmd
    &&& r.sub_command == sub_command
    &&& r.content@ == payload
}

/// Successive requests on one session carry sequence numbers 0x10 apart,
/// absent a reseed: [`SLMPConnectionInfo::send_cmd`] promises each
/// allocation `r1 == s0 + 0x10` while the counter stays at or below
/// 0xFF00, so the next allocation `r2` sits exactly 0x10 above `r1`.
pub proof fn lemma_sequence_stride(s0: u16, r1: u16, r2: u16)
    requires
        s0 + 0x20 <= 0xFF00,
        r1 == s0 + 0x10,
        r2 == r1 + 0x10,
    ensures
        r2 - r1 == 0x10,
        r1 - s0 == 0x10,
{
}

} // verus!
