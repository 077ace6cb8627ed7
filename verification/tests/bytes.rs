use acpi_tables::bits::{bit_at, field_at};
use acpi_tables::bytes::{read_u128, read_u16, read_u32, read_u64, read_u8};

#[test]
fn fields_are_read_least_significant_byte_first() {
    let bytes: Vec<u8> = (1..=20).collect();
    assert_eq!(read_u8(&bytes, 0), 1);
    assert_eq!(read_u8(&bytes, 19), 20);
    assert_eq!(read_u16(&bytes, 0), 0x0201);
    assert_eq!(read_u16(&bytes, 18), 0x1413);
    assert_eq!(read_u32(&bytes, 0), 0x0403_0201);
    assert_eq!(read_u32(&bytes, 3), 0x0706_0504);
    assert_eq!(read_u64(&bytes, 0), 0x0807_0605_0403_0201);
    assert_eq!(read_u64(&bytes, 12), 0x1413_1211_100F_0E0D);
    assert_eq!(read_u128(&bytes, 0), 0x100F_0E0D_0C0B_0A09_0807_0605_0403_0201);
    assert_eq!(read_u128(&bytes, 4), 0x1413_1211_100F_0E0D_0C0B_0A09_0807_0605);
}

#[test]
fn fields_of_all_ones_do_not_overflow() {
    let bytes = [0xFFu8; 16];
    assert_eq!(read_u16(&bytes, 0), u16::MAX);
    assert_eq!(read_u32(&bytes, 0), u32::MAX);
    assert_eq!(read_u64(&bytes, 0), u64::MAX);
    assert_eq!(read_u128(&bytes, 0), u128::MAX);
}

#[test]
fn readers_agree_with_the_standard_library() {
    let bytes = [0x12u8, 0x34, 0x56, 0x78, 0x9A, 0xBC, 0xDE, 0xF0, 0x0F, 0x1E, 0x2D, 0x3C, 0x4B,
        0x5A, 0x69, 0x78];
    assert_eq!(read_u16(&bytes, 1), u16::from_le_bytes([0x34, 0x56]));
    assert_eq!(read_u32(&bytes, 2), u32::from_le_bytes([0x56, 0x78, 0x9A, 0xBC]));
    assert_eq!(read_u64(&bytes, 8), u64::from_le_bytes(bytes[8..16].try_into().unwrap()));
    assert_eq!(read_u128(&bytes, 0), u128::from_le_bytes(bytes));
}

#[test]
fn bit_at_tests_one_bit() {
    assert!(bit_at(1, 0));
    assert!(!bit_at(1, 1));
    assert!(bit_at(0b1010, 1));
    assert!(!bit_at(0b1010, 2));
    assert!(bit_at(0b1010, 3));
    assert!(bit_at(1u128 << 127, 127));
    assert!(!bit_at(1u128 << 127, 126));
    for index in 0..128u32 {
        assert!(bit_at(u128::MAX, index));
        assert!(!bit_at(0, index));
        for other in 0..128u32 {
            assert_eq!(bit_at(1u128 << index, other), index == other);
        }
    }
}

#[test]
fn field_at_extracts_a_group_of_bits() {
    assert_eq!(field_at(0b1101_1000, 3, 2), 0b11);
    assert_eq!(field_at(0b1101_1000, 4, 3), 0b101);
    assert_eq!(field_at(0xABCD, 0, 8), 0xCD);
    assert_eq!(field_at(0xABCD, 8, 8), 0xAB);
    assert_eq!(field_at(0xABCD, 4, 0), 0);
    assert_eq!(field_at(u64::MAX, 0, 63), u64::MAX >> 1);
    assert_eq!(field_at(u64::MAX, 63, 1), 1);
    assert_eq!(field_at(0x00C0_0000, 22, 2), 3);
    assert_eq!(field_at(0x0080_0000, 22, 2), 2);
    assert_eq!(field_at(0x0040_0000, 22, 2), 1);
}
