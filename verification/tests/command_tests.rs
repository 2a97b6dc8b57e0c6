use slmp_client::decode_on_demand_data;
use slmp_client::decode_self_test_response;
use slmp_client::device::{SLMPDevice, SLMPDeviceBlock, SLMPDeviceData};
use slmp_client::dual_port_memory::{decode_read_memory, send_read_memory, send_write_memory};
use slmp_client::enums::{SLMPClearMode, SLMPCommand, SLMPDeviceCode};
use slmp_client::internal_memory::{
    decode_read_bit_response, decode_read_block_response, decode_read_random_response,
    decode_read_word_response, send_read_block_cmd_16, send_read_cmd_16, send_read_random_cmd_16,
    send_write_bit_cmd_16, send_write_random_bits_cmd_16, send_write_word_cmd_16,
};
use slmp_client::remote_control::{decode_read_type_name_response, send_remote_run_cmd};
use slmp_client::session::SLMPConnectionInfo;
use slmp_client::{make_cmd_rw_devices16, make_cmd_rw_devices32, send_self_test_cmd};

#[test]
fn test_decode_read_memory() {
    let buf = [0x00, 0x05, 0xc1, 0x09, 0xc8, 0x00];
    let ret = decode_read_memory(&buf).unwrap();
    assert_eq!(ret.len(), 3);
    assert_eq!(ret[0], 0x0500);
    assert_eq!(ret[1], 0x09c1);
    assert_eq!(ret[2], 0x00c8);
}

#[test]
fn test_decode_read_random_response() {
    let word_devices = [
        SLMPDevice { d_code: SLMPDeviceCode::D, addr: 0 },
        SLMPDevice { d_code: SLMPDeviceCode::TN, addr: 0 },
        SLMPDevice { d_code: SLMPDeviceCode::M, addr: 100 },
        SLMPDevice { d_code: SLMPDeviceCode::X, addr: 0x20 },
    ];
    let dword_devices = [
        SLMPDevice { d_code: SLMPDeviceCode::D, addr: 1500 },
        SLMPDevice { d_code: SLMPDeviceCode::Y, addr: 0x160 },
        SLMPDevice { d_code: SLMPDeviceCode::M, addr: 1111 },
    ];
    let buf = [
        0x95, 0x19, 0x02, 0x12, 0x30, 0x20, 0x49, 0x48, 0x4e, 0x4f, 0x54, 0x4c, 0xaf, 0xb9,
        0xde, 0xc3, 0xb7, 0xbc, 0xdd, 0xba,
    ];
    let (words, dwords) = decode_read_random_response(&buf, &word_devices, &dword_devices);
    assert_eq!(words.len(), 4);
    assert_eq!(words[0].value, 0x1995);
    assert_eq!(words[1].value, 0x1202);
    assert_eq!(words[2].value, 0x2030);
    assert_eq!(words[3].value, 0x4849);
    assert_eq!(dwords.len(), 3);
    assert_eq!(dwords[0].value, 0x4c544f4e);
    assert_eq!(dwords[1].value, 0xc3deb9af);
    assert_eq!(dwords[2].value, 0xbaddbcb7);
}

#[test]
fn test_decode_read_bit_response() {
    let buf = [0x00, 0x01, 0x00, 0x11];
    let dev = SLMPDevice { d_code: SLMPDeviceCode::M, addr: 100 };
    let ret = decode_read_bit_response(&buf, dev).unwrap();
    assert_eq!(ret.len(), 8);
    assert_eq!(ret[0].value, false);
    assert_eq!(ret[1].value, false);
    assert_eq!(ret[2].value, false);
    assert_eq!(ret[3].value, true);
    assert_eq!(ret[4].value, false);
    assert_eq!(ret[5].value, false);
    assert_eq!(ret[6].value, true);
    assert_eq!(ret[7].value, true);
}

#[test]
fn test_decode_read_word_response() {
    let buf = [0x34, 0x12, 0x02, 0x00];
    let dev = SLMPDevice { d_code: SLMPDeviceCode::M, addr: 100 };
    let ret = decode_read_word_response(&buf, dev).unwrap();
    assert_eq!(ret.len(), 2);
    assert_eq!(ret[0].value, 0x1234);
    assert_eq!(ret[1].value, 0x2);
    let buf = [0x34, 0x12, 0x02, 0x00, 0xef, 0x1d];
    let dev = SLMPDevice { d_code: SLMPDeviceCode::TN, addr: 100 };
    let ret = decode_read_word_response(&buf, dev).unwrap();
    assert_eq!(ret.len(), 3);
    assert_eq!(ret[0].value, 0x1234);
    assert_eq!(ret[1].value, 0x2);
    assert_eq!(ret[2].value, 0x1def);
}

#[test]
fn read_memory_validates_word_length() {
    let mut conn = SLMPConnectionInfo::default();
    assert!(send_read_memory(&mut conn, 4, 0, 0).is_none());
    assert!(send_read_memory(&mut conn, 4, 0, 481).is_none());
    let req = send_read_memory(&mut conn, 4, 0x01020304, 0x10).unwrap();
    assert_eq!(req.content.as_slice(), [0x04, 0x03, 0x02, 0x01, 0x10, 0x00]);
    assert_eq!(req.command.code(), SLMPCommand::MemoryRead.code());
    assert_eq!(req.sub_command, 0);
}

#[test]
fn write_memory_validates_length_match() {
    let mut conn = SLMPConnectionInfo::default();
    assert!(send_write_memory(&mut conn, 4, 0, 3, &[1, 2]).is_none());
    let req = send_write_memory(&mut conn, 4, 0x10, 2, &[0x1234, 0xabcd]).unwrap();
    assert_eq!(
        req.content.as_slice(),
        [0x10, 0x00, 0x00, 0x00, 0x02, 0x00, 0x34, 0x12, 0xcd, 0xab]
    );
}

#[test]
fn read_cmd_16_rounds_bit_counts_up() {
    let mut conn = SLMPConnectionInfo::default();
    let dev = SLMPDevice { d_code: SLMPDeviceCode::M, addr: 0x20 };
    let req = send_read_cmd_16(&mut conn, 4, dev, 5, true);
    assert_eq!(req.content.as_slice(), [0x20, 0x00, 0x00, 0x90, 0x06, 0x00]);
    assert_eq!(req.sub_command, 1);
    let req = send_read_cmd_16(&mut conn, 4, dev, 5, false);
    assert_eq!(req.content.as_slice(), [0x20, 0x00, 0x00, 0x90, 0x05, 0x00]);
    assert_eq!(req.sub_command, 0);
}

#[test]
fn write_bit_cmd_16_packs_by_bit() {
    let mut conn = SLMPConnectionInfo::default();
    let mut targets = [SLMPDeviceData::<bool> {
        dev: SLMPDevice { d_code: SLMPDeviceCode::M, addr: 50 },
        value: false,
    }; 3];
    targets[0].value = true;
    targets[1].dev.addr = 51;
    targets[2].dev.addr = 52;
    targets[2].value = true;
    let req = send_write_bit_cmd_16(&mut conn, 4, &targets);
    assert_eq!(
        req.content.as_slice(),
        [0x32, 0x00, 0x00, 0x90, 0x03, 0x00, 0x10, 0x10]
    );
    assert_eq!(req.command.code(), SLMPCommand::DeviceWrite.code());
    assert_eq!(req.sub_command, 1);
}

#[test]
fn write_word_cmd_16_packs_by_word() {
    let mut conn = SLMPConnectionInfo::default();
    let mut targets = [SLMPDeviceData::<u16> {
        dev: SLMPDevice { d_code: SLMPDeviceCode::D, addr: 100 },
        value: 0x1995,
    }; 2];
    targets[1].dev.addr = 101;
    targets[1].value = 0x1202;
    let req = send_write_word_cmd_16(&mut conn, 4, &targets);
    assert_eq!(
        req.content.as_slice(),
        [0x64, 0x00, 0x00, 0xa8, 0x02, 0x00, 0x95, 0x19, 0x02, 0x12]
    );
    assert_eq!(req.sub_command, 0);
}

#[test]
fn read_random_cmd_16_lists_devices() {
    let mut conn = SLMPConnectionInfo::default();
    let words = [SLMPDevice { d_code: SLMPDeviceCode::D, addr: 0x123456 }];
    let dwords = [SLMPDevice { d_code: SLMPDeviceCode::M, addr: 7 }];
    let req = send_read_random_cmd_16(&mut conn, 4, &words, &dwords).unwrap();
    assert_eq!(
        req.content.as_slice(),
        [0x01, 0x01, 0x56, 0x34, 0x12, 0xa8, 0x07, 0x00, 0x00, 0x90]
    );
    assert_eq!(req.command.code(), SLMPCommand::DeviceReadRandom.code());

    let many = [SLMPDevice { d_code: SLMPDeviceCode::D, addr: 0 }; 256];
    assert!(send_read_random_cmd_16(&mut conn, 4, &many, &dwords).is_none());
}

#[test]
fn write_random_bits_cmd_16_doubles_the_value_byte() {
    let mut conn = SLMPConnectionInfo::default();
    let targets = [SLMPDeviceData::<bool> {
        dev: SLMPDevice { d_code: SLMPDeviceCode::M, addr: 3 },
        value: true,
    }];
    let req = send_write_random_bits_cmd_16(&mut conn, 4, &targets).unwrap();
    assert_eq!(req.content.as_slice(), [0x01, 0x03, 0x00, 0x00, 0x90, 0x01, 0x01]);
    assert_eq!(req.sub_command, 1);
}

#[test]
fn read_block_cmd_16_lists_blocks() {
    let mut conn = SLMPConnectionInfo::default();
    let words = [SLMPDeviceBlock {
        top_device: SLMPDevice { d_code: SLMPDeviceCode::D, addr: 0x20 },
        count: 4,
    }];
    let bits = [SLMPDeviceBlock {
        top_device: SLMPDevice { d_code: SLMPDeviceCode::M, addr: 0x100 },
        count: 1,
    }];
    let req = send_read_block_cmd_16(&mut conn, 4, &words, &bits).unwrap();
    assert_eq!(
        req.content.as_slice(),
        [0x01, 0x01, 0x20, 0x00, 0x00, 0xa8, 0x04, 0x00, 0x00, 0x01, 0x00, 0x90, 0x01, 0x00]
    );
}

#[test]
fn decode_read_block_response_splits_by_count() {
    let words = [SLMPDeviceBlock {
        top_device: SLMPDevice { d_code: SLMPDeviceCode::D, addr: 0x20 },
        count: 2,
    }];
    let bits = [SLMPDeviceBlock {
        top_device: SLMPDevice { d_code: SLMPDeviceCode::M, addr: 0 },
        count: 1,
    }];
    let buf = [0x34, 0x12, 0xcd, 0xab, 0x0f, 0x00];
    let (ws, bs) = decode_read_block_response(&buf, &words, &bits);
    assert_eq!(ws.len(), 1);
    let w0 = ws[0].get(SLMPDevice { d_code: SLMPDeviceCode::D, addr: 0x21 }).unwrap();
    assert_eq!(w0.value, 0xabcd);
    assert_eq!(bs.len(), 1);
    let b0 = bs[0].get(SLMPDevice { d_code: SLMPDeviceCode::M, addr: 3 }).unwrap();
    assert!(b0.value);
    let b4 = bs[0].get(SLMPDevice { d_code: SLMPDeviceCode::M, addr: 4 }).unwrap();
    assert!(!b4.value);
}

#[test]
fn make_cmd_rw_devices_layouts() {
    assert_eq!(
        make_cmd_rw_devices32(SLMPDeviceCode::D, 0x01020304, 0x10).as_slice(),
        [0xa8, 0x00, 0x04, 0x03, 0x02, 0x01, 0x10, 0x00]
    );
    assert_eq!(
        make_cmd_rw_devices16(SLMPDeviceCode::M, 0x1234, 2).as_slice(),
        [0x90, 0x34, 0x12, 0x00, 0x02, 0x00]
    );
}

#[test]
fn self_test_cmd_frames_its_data() {
    let mut conn = SLMPConnectionInfo::default();
    let req = send_self_test_cmd(&mut conn, 40, &[0x31, 0x32, 0x34]).unwrap();
    assert_eq!(req.content.as_slice(), [0x03, 0x00, 0x31, 0x32, 0x34]);
    assert_eq!(req.command.code(), SLMPCommand::SelfTest.code());
    let long = [0u8; 961];
    assert!(send_self_test_cmd(&mut conn, 40, &long).is_none());
}

#[test]
fn self_test_response_echoes_data() {
    let ret = decode_self_test_response(&[0x03, 0x00, 0x31, 0x32, 0x34]);
    assert_eq!(ret.as_slice(), [0x31, 0x32, 0x34]);
}

#[test]
fn on_demand_data_requires_fixed_command() {
    assert_eq!(
        decode_on_demand_data(&[0x01, 0x21, 0x00, 0x00, 0xDE, 0xAD]).unwrap().as_slice(),
        [0xDE, 0xAD]
    );
    assert!(decode_on_demand_data(&[0x02, 0x21, 0x00, 0x00, 0xDE]).is_none());
    assert!(decode_on_demand_data(&[0x01, 0x21, 0x01, 0x00]).is_none());
}

#[test]
fn remote_run_payload_modes() {
    let mut conn = SLMPConnectionInfo::default();
    let req = send_remote_run_cmd(&mut conn, 4, true, SLMPClearMode::AllClear);
    assert_eq!(req.content.as_slice(), [0x03, 0x00, 0x02, 0x00]);
    let req = send_remote_run_cmd(&mut conn, 4, false, SLMPClearMode::Not);
    assert_eq!(req.content.as_slice(), [0x01, 0x00, 0x00, 0x00]);
    assert_eq!(req.command.code(), SLMPCommand::RemoteRun.code());
}

#[test]
fn type_name_response_decodes_name_and_code() {
    let mut buf: Vec<u8> = Vec::new();
    buf.extend_from_slice(b"Q02UCPU         ");
    buf.push(0x63);
    buf.push(0x02);
    let (name, code) = decode_read_type_name_response(buf.as_slice());
    assert_eq!(name, "Q02UCPU         ");
    assert_eq!(code, 0x0263);
}
