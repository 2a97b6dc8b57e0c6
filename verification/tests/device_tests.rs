use slmp_client::device::{
    pack_bit2dword, pack_bit2word, unpack_dword2bit, unpack_dword2word, unpack_word2bit,
    SLMPDevice, SLMPDeviceBlockData, SLMPDeviceData,
};
use slmp_client::enums::SLMPDeviceCode;

#[test]
fn test_unpack_word2bit() {
    let src = SLMPDeviceData::<u16> {
        dev: SLMPDevice { d_code: SLMPDeviceCode::X, addr: 0x20 },
        value: 0x4849,
    };
    let ret = unpack_word2bit(&src);
    let buf = [
        true, false, false, true, false, false, true, false, false, false, false, true, false,
        false, true, false,
    ];
    for i in 0..16 {
        assert_eq!(ret[i].dev.addr, src.dev.addr + i as u32);
        assert_eq!(ret[i].dev.d_code, src.dev.d_code);
        assert_eq!(ret[i].value, buf[i]);
    }
}

#[test]
fn test_unpack_dword2bit() {
    let src = SLMPDeviceData::<u32> {
        dev: SLMPDevice { d_code: SLMPDeviceCode::M, addr: 1111 },
        value: 0xbaddbcb7,
    };
    let ret = unpack_dword2bit(&src);
    let buf = [
        true, true, true, false, true, true, false, true, false, false, true, true, true, true,
        false, true, true, false, true, true, true, false, true, true, false, true, false, true,
        true, true, false, true,
    ];
    for i in 0..32 {
        assert_eq!(ret[i].dev.addr, src.dev.addr + i as u32);
        assert_eq!(ret[i].dev.d_code, src.dev.d_code);
        assert_eq!(ret[i].value, buf[i]);
    }
}

#[test]
fn test_unpack_dword2word() {
    let src = SLMPDeviceData::<u32> {
        dev: SLMPDevice { d_code: SLMPDeviceCode::D, addr: 1500 },
        value: 0x4c544f4e,
    };
    let ret = unpack_dword2word(&src);
    let buf = [
        SLMPDeviceData::<u16> {
            dev: SLMPDevice { d_code: SLMPDeviceCode::D, addr: 1500 },
            value: 0x4c54,
        },
        SLMPDeviceData::<u16> {
            dev: SLMPDevice { d_code: SLMPDeviceCode::D, addr: 1501 },
            value: 0x4f4e,
        },
    ];
    for i in 0..2 {
        assert_eq!(ret[i], buf[i])
    }
}

#[test]
fn test_pack_bit2word() {
    let mut src = [SLMPDeviceData::<bool> {
        dev: SLMPDevice { d_code: SLMPDeviceCode::M, addr: 100 },
        value: true,
    }; 16];
    let buf = [
        false, false, false, false, true, true, false, false, false, false, false, false, false,
        true, false, false,
    ];
    for i in 0..16 {
        src[i].value = buf[i];
        src[i].dev.addr = 100 + i as u32;
    }
    let ret = pack_bit2word(&src).unwrap();
    assert_eq!(ret.dev, SLMPDevice { d_code: SLMPDeviceCode::M, addr: 100 });
    assert_eq!(ret.value, 0x2030);
}

#[test]
fn test_pack_bit2dword() {
    let mut src = [SLMPDeviceData::<bool> {
        dev: SLMPDevice { d_code: SLMPDeviceCode::M, addr: 1111 },
        value: true,
    }; 32];
    let buf = [
        true, false, true, false, true, true, true, false, false, false, true, false, false,
        false, false, false, true, false, true, false, false, true, false, false, false, false,
        true, false, false, false, false, false,
    ];
    for i in 0..32 {
        src[i].value = buf[i];
        src[i].dev.addr = 1111 + i as u32;
    }
    let ret = pack_bit2dword(&src).unwrap();
    assert_eq!(ret.dev, SLMPDevice { d_code: SLMPDeviceCode::M, addr: 1111 });
    assert_eq!(ret.value, 0x04250475);
}

#[test]
fn word_expansion_round_trips_and_rejects_tampering() {
    let src = SLMPDeviceData::<u16> {
        dev: SLMPDevice { d_code: SLMPDeviceCode::X, addr: 0x20 },
        value: 0x4849,
    };
    let bits = unpack_word2bit(&src);
    let mut arr = [bits[0]; 16];
    for i in 0..16 {
        arr[i] = bits[i];
    }
    let back = pack_bit2word(&arr).unwrap();
    assert_eq!(back, src);

    let mut gap = arr;
    gap[7].dev.addr += 1;
    assert!(pack_bit2word(&gap).is_err());

    let mut foreign = arr;
    foreign[3].dev.d_code = SLMPDeviceCode::M;
    assert!(pack_bit2word(&foreign).is_err());
}

#[test]
fn dword_expansion_round_trips() {
    let src = SLMPDeviceData::<u32> {
        dev: SLMPDevice { d_code: SLMPDeviceCode::M, addr: 1111 },
        value: 0xbaddbcb7,
    };
    let bits = unpack_dword2bit(&src);
    let mut arr = [bits[0]; 32];
    for i in 0..32 {
        arr[i] = bits[i];
    }
    let back = pack_bit2dword(&arr).unwrap();
    assert_eq!(back, src);
}

#[test]
fn word_block_bounds_and_round_trip() {
    let top = SLMPDevice { d_code: SLMPDeviceCode::D, addr: 1500 };
    let mut block = SLMPDeviceBlockData::<u16>::new(top, 10);

    let low = SLMPDevice { d_code: SLMPDeviceCode::D, addr: 1499 };
    assert!(block.get(low).is_err());
    let high = SLMPDevice { d_code: SLMPDeviceCode::D, addr: 1510 };
    assert!(block.get(high).is_err());
    let foreign = SLMPDevice { d_code: SLMPDeviceCode::M, addr: 1500 };
    assert!(block.get(foreign).is_err());

    for i in 0..10u32 {
        let dd = SLMPDeviceData::<u16> {
            dev: SLMPDevice { d_code: SLMPDeviceCode::D, addr: 1500 + i },
            value: 0x1000 + i as u16,
        };
        block.set(dd).unwrap();
    }
    for i in 0..10u32 {
        let dev = SLMPDevice { d_code: SLMPDeviceCode::D, addr: 1500 + i };
        let got = block.get(dev).unwrap();
        assert_eq!(got.dev, dev);
        assert_eq!(got.value, 0x1000 + i as u16);
    }
    assert!(block
        .set(SLMPDeviceData::<u16> { dev: high, value: 1 })
        .is_err());
    assert!(block
        .set(SLMPDeviceData::<u16> { dev: low, value: 1 })
        .is_err());
}

#[test]
fn bit_block_uses_sixteen_points_per_word() {
    let top = SLMPDevice { d_code: SLMPDeviceCode::M, addr: 0 };
    let mut block = SLMPDeviceBlockData::<bool>::new(top, 2);
    for i in 0..32u32 {
        let dd = SLMPDeviceData::<bool> {
            dev: SLMPDevice { d_code: SLMPDeviceCode::M, addr: i },
            value: i % 3 == 0,
        };
        block.set(dd).unwrap();
    }
    let outside = SLMPDevice { d_code: SLMPDeviceCode::M, addr: 32 };
    assert!(block.get(outside).is_err());
    for i in 0..32u32 {
        let got = block.get(SLMPDevice { d_code: SLMPDeviceCode::M, addr: i }).unwrap();
        assert_eq!(got.value, i % 3 == 0);
    }
}

#[test]
fn block_pack_and_decode() {
    let top = SLMPDevice { d_code: SLMPDeviceCode::D, addr: 0x20 };
    let mut block = SLMPDeviceBlockData::<u16>::new(top, 2);
    block
        .set(SLMPDeviceData::<u16> { dev: SLMPDevice { d_code: SLMPDeviceCode::D, addr: 0x20 }, value: 0x1234 })
        .unwrap();
    block
        .set(SLMPDeviceData::<u16> { dev: SLMPDevice { d_code: SLMPDeviceCode::D, addr: 0x21 }, value: 0xabcd })
        .unwrap();
    let packed = block.pack16();
    assert_eq!(packed.as_slice(), [0x20u8, 0x00, 0x00, 0xa8, 0x02, 0x00, 0x34, 0x12, 0xcd, 0xab]);

    let mut fresh = SLMPDeviceBlockData::<u16>::new(top, 2);
    fresh.decode(&[0x34, 0x12, 0xcd, 0xab]);
    let got = fresh.get(SLMPDevice { d_code: SLMPDeviceCode::D, addr: 0x21 }).unwrap();
    assert_eq!(got.value, 0xabcd);
}

#[test]
fn device_packs_are_little_endian() {
    let dev = SLMPDevice { d_code: SLMPDeviceCode::D, addr: 0x00030201 };
    assert_eq!(dev.pack16(), [0x01, 0x02, 0x03, 0xa8]);
    assert_eq!(dev.pack32(), [0x01, 0x02, 0x03, 0x00, 0xa8, 0x00]);

    let dd = SLMPDeviceData::<u16> { dev, value: 0x4849 };
    assert_eq!(dd.pack16(), [0x01, 0x02, 0x03, 0xa8, 0x49, 0x48]);
    assert_eq!(dd.pack32(), [0x01, 0x02, 0x03, 0x00, 0xa8, 0x00, 0x49, 0x48]);

    let db = SLMPDeviceData::<bool> { dev, value: true };
    assert_eq!(db.pack16(), [0x01, 0x02, 0x03, 0xa8, 0x01]);
    assert_eq!(db.pack32(), [0x01, 0x02, 0x03, 0x00, 0xa8, 0x00, 0x00, 0x01]);

    let dw = SLMPDeviceData::<u32> { dev, value: 0xc3deb9af };
    assert_eq!(dw.pack16(), [0x01, 0x02, 0x03, 0xa8, 0xaf, 0xb9, 0xde, 0xc3]);
    assert_eq!(dw.pack32(), [0x01, 0x02, 0x03, 0x00, 0xa8, 0x00, 0xaf, 0xb9, 0xde, 0xc3]);
}

#[test]
fn methods_mirror_free_expansions() {
    let w = SLMPDeviceData::<u16> {
        dev: SLMPDevice { d_code: SLMPDeviceCode::Y, addr: 8 },
        value: 0x8001,
    };
    let bits = w.unpack2bits();
    assert_eq!(bits.len(), 16);
    assert!(bits[0].value);
    assert!(bits[15].value);
    assert!(!bits[7].value);

    let d = SLMPDeviceData::<u32> {
        dev: SLMPDevice { d_code: SLMPDeviceCode::D, addr: 40 },
        value: 0x00010002,
    };
    let words = d.unpack2words();
    assert_eq!(words[0].value, 0x0001);
    assert_eq!(words[1].value, 0x0002);
    assert_eq!(words[1].dev.addr, 41);
    let bits32 = d.unpack2bits();
    assert_eq!(bits32.len(), 32);
    assert!(bits32[1].value);
    assert!(bits32[16].value);
}

#[test]
fn device_order_is_by_address_within_a_type() {
    let a = SLMPDevice { d_code: SLMPDeviceCode::D, addr: 1 };
    let b = SLMPDevice { d_code: SLMPDeviceCode::D, addr: 2 };
    let m = SLMPDevice { d_code: SLMPDeviceCode::M, addr: 1 };
    assert!(a < b);
    assert!(b > a);
    assert_eq!(a.partial_cmp(&a), Some(std::cmp::Ordering::Equal));
    assert_eq!(a.partial_cmp(&m), None);
    let da = SLMPDeviceData::<u16> { dev: a, value: 9 };
    let db = SLMPDeviceData::<u16> { dev: b, value: 1 };
    assert!(da < db);
}
