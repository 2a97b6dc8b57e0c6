use slmp_client::packing::{
    pack_bits_by_bit, pack_bits_by_word, pack_words_by_word, unpack_bits_by_bit,
    unpack_bits_by_word, unpack_bits_in_byte, unpack_bits_in_dword, unpack_bits_in_word,
    unpack_dwords_by_dword, unpack_words_by_word,
};

#[test]
fn test_unpack_words_by_word() {
    let data = [0x34u8, 0x12, 0x02, 0x00, 0xef, 0x1d];
    let ret = [0x1234u16, 0x0002, 0x1def];
    let buf = unpack_words_by_word(&data).unwrap();
    assert_eq!(buf.as_slice(), ret);
}

#[test]
fn test_unpack_bits_by_word() {
    let data = [0x34u8, 0x12];
    let ret = [
        false, false, true, false, true, true, false, false, false, true, false, false, true,
        false, false, false,
    ];
    let buf = unpack_bits_by_word(&data);
    assert_eq!(buf.as_slice(), ret)
}

#[test]
fn test_unpack_bits_by_bit() {
    let data = [0x00u8, 0x01, 0x00, 0x11];
    let ret = [false, false, false, true, false, false, true, true];
    let buf = unpack_bits_by_bit(&data).unwrap();
    assert_eq!(buf.as_slice(), ret)
}

#[test]
fn test_pack_bits_by_bit() {
    let data = [false, false, false, true, false, false, true, true];
    let ret = [0x00u8, 0x01, 0x00, 0x11];
    let buf = pack_bits_by_bit(&data);
    assert_eq!(buf.as_slice(), ret)
}

#[test]
fn test_bits_by_bit() {
    let data = [false, false, false, true, false, false, true, true];
    let buf = pack_bits_by_bit(&data);
    let ret = unpack_bits_by_bit(buf.as_slice()).unwrap();
    assert_eq!(ret.as_slice(), data)
}

#[test]
fn test_pack_bits_by_word() {
    let data = [true, true, false, true, false, false];
    let ret = [0b00001011u8];
    let buf = pack_bits_by_word(&data);
    assert_eq!(buf.as_slice(), ret)
}

#[test]
fn test_bits_by_word() {
    let data = [true, true, false, true, false, false, true, false];
    let buf = pack_bits_by_word(&data);
    let ret = unpack_bits_by_word(buf.as_slice());
    assert_eq!(ret.as_slice(), data)
}

#[test]
fn test_pack_words_by_word() {
    let data = [0x1995u16, 0x1202u16, 0x1130u16];
    let ret = [0x95u8, 0x19, 0x02, 0x12, 0x30, 0x11];
    let buf = pack_words_by_word(&data);
    assert_eq!(buf.as_slice(), ret)
}

#[test]
fn test_words_by_word() {
    let data = [0x1995u16, 0x1202u16, 0x1130u16];
    let buf = pack_words_by_word(&data);
    let ret = unpack_words_by_word(buf.as_slice()).unwrap();
    assert_eq!(ret.as_slice(), data)
}

#[test]
fn test_unpack_dwords_by_dword() {
    let data = [0x4e, 0x4f, 0x54, 0x4c, 0xaf, 0xb9, 0xde, 0xc3];
    let ret = [0x4c544f4e, 0xc3deb9af];
    let buf = unpack_dwords_by_dword(&data);
    assert_eq!(buf.as_slice(), ret);
}

#[test]
fn test_unpack_bits_in_byte() {
    let data = 0x49;
    let ret = [true, false, false, true, false, false, true, false];
    let buf = unpack_bits_in_byte(data);
    assert_eq!(buf, ret);
    let data = 0xaf;
    let ret = [true, true, true, true, false, true, false, true];
    let buf = unpack_bits_in_byte(data);
    assert_eq!(buf, ret);
}

#[test]
fn test_unpack_bits_in_word() {
    let data = 0x2030;
    let ret = [
        false, false, false, false, true, true, false, false, false, false, false, false, false,
        true, false, false,
    ];
    let buf = unpack_bits_in_word(data);
    assert_eq!(buf, ret);
}

#[test]
fn test_unpack_bits_in_dword() {
    let data = 0xc3deb9af;
    let ret = [
        true, true, true, true, false, true, false, true, true, false, false, true, true, true,
        false, true, false, true, true, true, true, false, true, true, true, true, false, false,
        false, false, true, true,
    ];
    let buf = unpack_bits_in_dword(data);
    assert_eq!(buf, ret)
}

#[test]
fn bits_by_bit_rejects_invalid_byte() {
    assert!(unpack_bits_by_bit(&[0x05u8]).is_err());
    assert!(unpack_bits_by_bit(&[0x00u8, 0x11, 0x02]).is_err());
    assert!(unpack_bits_by_bit(&[0xffu8]).is_err());
}

#[test]
fn words_by_word_rejects_odd_length() {
    assert!(unpack_words_by_word(&[0x12u8]).is_err());
    assert!(unpack_words_by_word(&[0x12u8, 0x34, 0x56]).is_err());
    assert!(unpack_words_by_word(&[]).is_ok());
}

#[test]
fn pack_bits_by_bit_odd_length_pads_low_nibble() {
    assert_eq!(pack_bits_by_bit(&[true]).as_slice(), [0x10u8]);
    assert_eq!(pack_bits_by_bit(&[false, true, true]).as_slice(), [0x01u8, 0x10]);
}

#[test]
fn pack_bits_by_word_pads_final_byte() {
    assert_eq!(pack_bits_by_word(&[true; 9]).as_slice(), [0xffu8, 0x01]);
    assert_eq!(pack_bits_by_word(&[]).as_slice(), [0u8; 0]);
}

#[test]
fn dwords_by_dword_partial_group_reads_as_zero_padded() {
    let buf = unpack_dwords_by_dword(&[0x01u8, 0x02]);
    assert_eq!(buf.as_slice(), [0x0201u32]);
}
