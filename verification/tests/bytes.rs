use early_boot::bytes::{load_u16, load_u32, load_u64, store_u16, store_u32, store_u64};

#[test]
fn load_reads_least_significant_byte_first() {
    let bytes: Vec<u8> = vec![0xEE, 0x01, 0x02, 0x03, 0x04, 0x05, 0x06, 0x07, 0x08, 0xEE];
    assert_eq!(load_u16(&bytes, 1), 0x0201);
    assert_eq!(load_u32(&bytes, 1), 0x0403_0201);
    assert_eq!(load_u64(&bytes, 1), 0x0807_0605_0403_0201);
}

#[test]
fn store_writes_least_significant_byte_first() {
    let mut bytes: Vec<u8> = vec![0xEE; 12];
    store_u16(&mut bytes, 1, 0xA1B2);
    assert_eq!(bytes[..4], [0xEE, 0xB2, 0xA1, 0xEE]);
    store_u32(&mut bytes, 2, 0xC1C2_C3C4);
    assert_eq!(bytes[..7], [0xEE, 0xB2, 0xC4, 0xC3, 0xC2, 0xC1, 0xEE]);
    store_u64(&mut bytes, 3, 0x1122_3344_5566_7788);
    assert_eq!(
        bytes,
        vec![0xEE, 0xB2, 0xC4, 0x88, 0x77, 0x66, 0x55, 0x44, 0x33, 0x22, 0x11, 0xEE]
    );
}

#[test]
fn store_then_load_gives_the_number_back() {
    let values: [u64; 5] = [0, 1, 0xFF, 0x8000_0000_0000_0001, u64::MAX];
    for &value in values.iter() {
        let mut bytes: Vec<u8> = vec![0; 16];
        store_u64(&mut bytes, 5, value);
        assert_eq!(load_u64(&bytes, 5), value);
        store_u32(&mut bytes, 1, value as u32);
        assert_eq!(load_u32(&bytes, 1), value as u32);
        store_u16(&mut bytes, 14, value as u16);
        assert_eq!(load_u16(&bytes, 14), value as u16);
    }
}
