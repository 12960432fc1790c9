use sputnik::text::{
    format_hex_u32, format_hex_u8, format_reading, format_u16, format_u32, format_u8,
};

#[test]
fn u8_is_plain_decimal() {
    assert_eq!(format_u8(0), b"0".to_vec());
    assert_eq!(format_u8(7), b"7".to_vec());
    assert_eq!(format_u8(10), b"10".to_vec());
    assert_eq!(format_u8(42), b"42".to_vec());
    assert_eq!(format_u8(100), b"100".to_vec());
    assert_eq!(format_u8(255), b"255".to_vec());
}

#[test]
fn u16_is_plain_decimal() {
    assert_eq!(format_u16(0), b"0".to_vec());
    assert_eq!(format_u16(10), b"10".to_vec());
    assert_eq!(format_u16(999), b"999".to_vec());
    assert_eq!(format_u16(1234), b"1234".to_vec());
    assert_eq!(format_u16(10000), b"10000".to_vec());
    assert_eq!(format_u16(12345), b"12345".to_vec());
    assert_eq!(format_u16(65535), b"65535".to_vec());
}

#[test]
fn u32_is_plain_decimal() {
    assert_eq!(format_u32(0), b"0".to_vec());
    assert_eq!(format_u32(500), b"500".to_vec());
    assert_eq!(format_u32(65535), b"65535".to_vec());
    assert_eq!(format_u32(65536), b"65536".to_vec());
    assert_eq!(format_u32(100000), b"100000".to_vec());
    assert_eq!(format_u32(100007), b"100007".to_vec());
    assert_eq!(format_u32(1234567), b"1234567".to_vec());
    assert_eq!(format_u32(u32::MAX), b"4294967295".to_vec());
}

#[test]
fn hex_is_upper_case_and_zero_padded() {
    assert_eq!(format_hex_u8(0x00), b"00".to_vec());
    assert_eq!(format_hex_u8(0x0F), b"0F".to_vec());
    assert_eq!(format_hex_u8(0xAB), b"AB".to_vec());
    assert_eq!(format_hex_u8(0xFF), b"FF".to_vec());
    assert_eq!(format_hex_u32(0x0000_0001), b"00000001".to_vec());
    assert_eq!(format_hex_u32(0x12AB_00FF), b"12AB00FF".to_vec());
    assert_eq!(format_hex_u32(u32::MAX), b"FFFFFFFF".to_vec());
}

#[test]
fn readings_print_sign_integer_point_and_tenths() {
    assert_eq!(format_reading(0, 0), b"0.0".to_vec());
    assert_eq!(format_reading(25, 5), b"25.5".to_vec());
    assert_eq!(format_reading(-3, 5), b"-3.5".to_vec());
    assert_eq!(format_reading(4, -2), b"4.2".to_vec());
    assert_eq!(format_reading(i32::MIN, 7), b"-2147483648.7".to_vec());
    assert_eq!(format_reading(123456, 9), b"123456.9".to_vec());
}
