use rv32sim::hex::{to_hex0x12, to_hex0x20, to_hex0x32, to_hex32, to_hex8};

#[test]
fn test_hex() {
    assert_eq!(to_hex8(255), "FF");
    assert_eq!(to_hex32(4294967295), "FFFFFFFF");
    assert_eq!(to_hex0x12(4095), "0xFFF");
    assert_eq!(to_hex0x20(0xfffff), "0xFFFFF");
    assert_eq!(to_hex0x32(4294967295), "0xFFFFFFFF");
}

#[test]
fn hex_zero_values() {
    assert_eq!(to_hex8(0), "00");
    assert_eq!(to_hex32(0), "00000000");
    assert_eq!(to_hex0x32(0), "0x00000000");
    assert_eq!(to_hex0x20(0), "0x00000");
    assert_eq!(to_hex0x12(0), "0x000");
}

#[test]
fn hex_mixed_digits() {
    assert_eq!(to_hex8(0x5a), "5A");
    assert_eq!(to_hex32(0x1234abcd), "1234ABCD");
    assert_eq!(to_hex0x32(0x00100093), "0x00100093");
    assert_eq!(to_hex0x12(0x7b), "0x07B");
    assert_eq!(to_hex0x20(0x12345), "0x12345");
}

#[test]
fn hex_keeps_low_field_bits_only() {
    // Only the low 12 or 20 bits are rendered, at a fixed width.
    assert_eq!(to_hex0x12(0xfffff), "0xFFF");
    assert_eq!(to_hex0x12(0x1001), "0x001");
    assert_eq!(to_hex0x20(0xffffffff), "0xFFFFF");
    assert_eq!(to_hex0x20(0x100001), "0x00001");
}
