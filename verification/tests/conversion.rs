use gbemu::utils::conversion::{u16_as_bit_string, u16_as_hex_string, u8_as_bit_string, u8_as_hex_string};
use gbemu::utils::{as_bit_string, as_hex_string};

#[test]
fn test_u8_as_bit_string() {
    assert!(u8_as_bit_string(5) == "0b00000101");
    assert!(u8_as_bit_string(127) == "0b01111111");
    assert!(u8_as_bit_string(128) == "0b10000000");
    assert!(u8_as_bit_string(255) == "0b11111111");
}

#[test]
fn test_u16_as_bit_string() {
    assert!(u16_as_bit_string(256) == "0b0000000100000000");
    assert!(u16_as_bit_string(512) == "0b0000001000000000");
}

#[test]
fn test_u8_as_hex_string() {
    assert!(u8_as_hex_string(5) == "0x05");
    assert!(u8_as_hex_string(10) == "0x0A");
    assert!(u8_as_hex_string(15) == "0x0F");
    assert!(u8_as_hex_string(16) == "0x10");
    assert!(u8_as_hex_string(255) == "0xFF");
}

#[test]
fn u16_hex_string_has_four_digits() {
    assert_eq!(u16_as_hex_string(0), "0x0000");
    assert_eq!(u16_as_hex_string(0xBEEF), "0xBEEF");
    assert_eq!(u16_as_hex_string(0x0A0F), "0x0A0F");
    assert_eq!(u16_as_hex_string(0xFFFF), "0xFFFF");
}

#[test]
fn u16_bit_string_edges() {
    assert_eq!(u16_as_bit_string(0), "0b0000000000000000");
    assert_eq!(u16_as_bit_string(0xFFFF), "0b1111111111111111");
    assert_eq!(u16_as_bit_string(0x8001), "0b1000000000000001");
}

#[test]
fn utils_strings_match_conversion() {
    for x in 0..=255u8 {
        assert_eq!(as_bit_string(x), u8_as_bit_string(x));
        assert_eq!(as_hex_string(x), u8_as_hex_string(x));
    }
    assert_eq!(as_bit_string(0), "0b00000000");
    assert_eq!(as_hex_string(0xC3), "0xC3");
}
