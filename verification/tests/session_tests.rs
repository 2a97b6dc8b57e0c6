use slmp_client::enums::{SLMPCommand, SLMPEndCode};
use slmp_client::headers::{SlmpMTHeader, SlmpSubHeaderOd, SlmpSubHeaderReq, SlmpSubHeaderRes, ErrInfo};
use slmp_client::session::{RecvRetry, RecvStatus, SLMPConnectionInfo};

fn fresh_session() -> SLMPConnectionInfo {
    SLMPConnectionInfo::default()
}

#[test]
fn sequence_numbers_stride_by_16() {
    let mut conn = fresh_session();
    let r1 = conn.send_cmd(4, SLMPCommand::SelfTest, 0, &[]);
    let r2 = conn.send_cmd(4, SLMPCommand::SelfTest, 0, &[]);
    assert_eq!(r2.sequence().wrapping_sub(r1.sequence()), 0x10);
}

#[test]
fn request_frame_layout() {
    let mut conn = fresh_session();
    conn.set_network(5);
    conn.set_node(7);
    conn.set_dst_proc(0x03FF);
    conn.set_m_drop(2);
    let req = conn.send_cmd(4, SLMPCommand::MemoryRead, 0, &[0xAA, 0xBB]);
    let seq = req.sequence();
    let frame = req.frame(0);
    let expected = [
        0x54,
        0x00,
        (seq % 256) as u8,
        (seq / 256) as u8,
        0x00,
        0x00,
        5,
        7,
        0xFF,
        0x03,
        2,
        6,
        0x00,
        4,
        0x00,
        0x13,
        0x06,
        0x00,
        0x00,
        0xAA,
        0xBB,
    ];
    assert_eq!(frame.as_slice(), expected);
    assert_eq!(req.timeout_ms(), 1000);

    let retry = req.frame(1);
    let seq1 = seq.wrapping_sub(1);
    assert_eq!(retry[2], (seq1 % 256) as u8);
    assert_eq!(retry[3], (seq1 / 256) as u8);
    assert_eq!(&retry[4..], &frame[4..]);
}

#[test]
fn recv_response_frame_with_success() {
    let mut conn = fresh_session();
    let stream = [
        0xD4, 0x00, 0x34, 0x12, 0x00, 0x00, 0x01, 0x01, 0xFF, 0x03, 0x00, 0x05, 0x00, 0x00,
        0x00, 0xAA, 0xBB, 0xCC,
    ];
    conn.feed(&stream);
    match conn.try_recv_cmd() {
        RecvStatus::Frame(f) => {
            assert_eq!(f.seq, 0x1234);
            assert_eq!(f.payload.as_slice(), [0xAA, 0xBB, 0xCC]);
            assert_eq!(f.end_code, Some(SLMPEndCode::Success));
        },
        _ => panic!("expected a complete frame"),
    }
    assert_eq!(conn.buffered(), 0);
}

#[test]
fn recv_response_frame_with_wrong_length_code() {
    let mut conn = fresh_session();
    let stream = [
        0xD4, 0x00, 0x34, 0x12, 0x00, 0x00, 0x01, 0x01, 0xFF, 0x03, 0x00, 0x05, 0x00, 0x61,
        0xC0, 0xAA, 0xBB, 0xCC,
    ];
    conn.feed(&stream);
    match conn.try_recv_cmd() {
        RecvStatus::Frame(f) => {
            assert_eq!(f.seq, 0x1234);
            assert_eq!(f.payload.as_slice(), [0xAA, 0xBB, 0xCC]);
            assert_eq!(f.end_code, Some(SLMPEndCode::WrongLength));
        },
        _ => panic!("expected a complete frame"),
    }
}

#[test]
fn recv_unknown_end_code_maps_to_none() {
    let mut conn = fresh_session();
    let stream = [
        0xD4, 0x00, 0x01, 0x00, 0x00, 0x00, 0x01, 0x01, 0xFF, 0x03, 0x00, 0x02, 0x00, 0x99,
        0x99,
    ];
    conn.feed(&stream);
    match conn.try_recv_cmd() {
        RecvStatus::Frame(f) => {
            assert_eq!(f.seq, 1);
            assert!(f.payload.is_empty());
            assert_eq!(f.end_code, None);
        },
        _ => panic!("expected a complete frame"),
    }
}

#[test]
fn recv_on_demand_frame() {
    let mut conn = fresh_session();
    let stream = [
        0x54, 0x00, 0x78, 0x56, 0x00, 0x00, 0x01, 0x01, 0xFF, 0x03, 0x00, 0x08, 0x00, 0x00,
        0x00, 0x01, 0x21, 0x00, 0x00, 0xDE, 0xAD,
    ];
    conn.feed(&stream);
    match conn.try_recv_cmd() {
        RecvStatus::Frame(f) => {
            assert_eq!(f.seq, 0x5678);
            assert_eq!(f.payload.as_slice(), [0xDE, 0xAD]);
            assert_eq!(f.end_code, None);
        },
        _ => panic!("expected a complete frame"),
    }
}

#[test]
fn recv_needs_more_then_completes() {
    let mut conn = fresh_session();
    let stream = [
        0xD4u8, 0x00, 0x34, 0x12, 0x00, 0x00, 0x01, 0x01, 0xFF, 0x03, 0x00, 0x05, 0x00, 0x00,
        0x00, 0xAA, 0xBB, 0xCC,
    ];
    conn.feed(&stream[..10]);
    match conn.try_recv_cmd() {
        RecvStatus::NeedMore(n) => assert_eq!(n, 15),
        _ => panic!("expected a request for more bytes"),
    }
    conn.feed(&stream[10..16]);
    match conn.try_recv_cmd() {
        RecvStatus::NeedMore(n) => assert_eq!(n, 18),
        _ => panic!("expected a request for the declared length"),
    }
    conn.feed(&stream[16..]);
    match conn.try_recv_cmd() {
        RecvStatus::Frame(f) => assert_eq!(f.payload.as_slice(), [0xAA, 0xBB, 0xCC]),
        _ => panic!("expected a complete frame"),
    }
}

#[test]
fn recv_rejects_foreign_lead_byte() {
    let mut conn = fresh_session();
    conn.feed(&[0x99u8; 15]);
    match conn.try_recv_cmd() {
        RecvStatus::BadFrame => {},
        _ => panic!("expected a malformed frame"),
    }
    assert_eq!(conn.buffered(), 14);
}

#[test]
fn recv_rejects_identity_mismatch() {
    let mut conn = fresh_session();
    let stream = [
        0xD4, 0x00, 0x34, 0x12, 0x00, 0x00, 0x09, 0x01, 0xFF, 0x03, 0x00, 0x05, 0x00, 0x00,
        0x00, 0xAA, 0xBB, 0xCC,
    ];
    conn.feed(&stream);
    match conn.try_recv_cmd() {
        RecvStatus::IdentityMismatch => {},
        _ => panic!("expected an identity mismatch"),
    }
    assert_eq!(conn.buffered(), 18);
}

#[test]
fn recv_retry_grants_three_reads_per_phase() {
    let mut retry = RecvRetry::new();
    assert!(retry.may_read(15));
    assert!(retry.may_read(15));
    assert!(retry.may_read(15));
    assert!(!retry.may_read(15));
    assert!(retry.may_read(42));
    assert!(retry.may_read(42));
    assert!(retry.may_read(42));
    assert!(!retry.may_read(42));
}

#[test]
fn identity_accessors_round_trip() {
    let mut conn = fresh_session();
    assert_eq!(conn.get_network(), 1);
    assert_eq!(conn.get_node(), 1);
    assert_eq!(conn.get_dst_proc(), 0x3FF);
    assert_eq!(conn.get_m_drop(), 0);
    conn.set_network(9);
    conn.set_node(8);
    conn.set_dst_proc(0x123);
    conn.set_m_drop(3);
    assert_eq!(conn.get_network(), 9);
    assert_eq!(conn.get_node(), 8);
    assert_eq!(conn.get_dst_proc(), 0x123);
    assert_eq!(conn.get_m_drop(), 3);
}

#[test]
fn header_codecs_parse_little_endian() {
    let mt = SlmpMTHeader::from([0xD4, 0x00, 0x34, 0x12, 0x00, 0x00]);
    assert_eq!(mt.f_type, 0x00D4);
    assert_eq!(mt.serial_no, 0x1234);
    assert_eq!(mt.reserved2, 0);

    let res = SlmpSubHeaderRes::from([1, 2, 0xFF, 0x03, 4, 0x05, 0x00, 0x61, 0xC0]);
    assert_eq!(res.net_no, 1);
    assert_eq!(res.node_no, 2);
    assert_eq!(res.dst_proc_no, 0x3FF);
    assert_eq!(res.reserved1, 4);
    assert_eq!(res.dl, 5);
    assert_eq!(res.end_code, 0xC061);

    let req = SlmpSubHeaderReq::from([1, 2, 0xFF, 0x03, 4, 0x05, 0x00, 0x08, 0x00]);
    assert_eq!(req.timer, 8);
    assert_eq!(req.to(), [1, 2, 0xFF, 0x03, 4, 0x05, 0x00, 0x08, 0x00]);

    let od = SlmpSubHeaderOd::from([1, 2, 0xFF, 0x03, 4, 0x05, 0x00, 0x00, 0x00]);
    assert_eq!(od.dl, 5);
    assert_eq!(od.reserved3, 0);

    let err = ErrInfo::from([1, 2, 0xFF, 0x03, 4, 0x01, 0x04, 0x00, 0x00]);
    assert_eq!(err.command, 0x0401);
    assert_eq!(err.sub_command, 0);
}

#[test]
fn end_code_lookup_is_fallible() {
    assert_eq!(SLMPEndCode::get(0), Some(SLMPEndCode::Success));
    assert_eq!(SLMPEndCode::get(0xC061), Some(SLMPEndCode::WrongLength));
    assert_eq!(SLMPEndCode::get(0xCEE0), Some(SLMPEndCode::Busy));
    assert_eq!(SLMPEndCode::get(0x1234), None);
}

#[test]
fn command_codes_match_the_table() {
    assert_eq!(SLMPCommand::DeviceRead.code(), 0x0401);
    assert_eq!(SLMPCommand::DeviceWrite.code(), 0x1401);
    assert_eq!(SLMPCommand::MemoryRead.code(), 0x0613);
    assert_eq!(SLMPCommand::SelfTest.code(), 0x0619);
    assert_eq!(SLMPCommand::OnDemand.code(), 0x2101);
}
