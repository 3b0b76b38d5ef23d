use pxe_first_stage::wire::{read_bytes4, read_u16_le, write_u16_be, write_u16_le};

#[test]
fn read_u16_le_reads_low_byte_first() {
    assert_eq!(read_u16_le(&[0x34, 0x12], 0), 0x1234);
    assert_eq!(read_u16_le(&[0, 0xcd, 0xab, 0], 1), 0xabcd);
}

#[test]
fn read_bytes4_reads_in_order() {
    assert_eq!(read_bytes4(&[9, 1, 2, 3, 4, 9], 1), [1, 2, 3, 4]);
}

#[test]
fn write_u16_le_writes_low_byte_first() {
    let mut bytes = [0u8; 4];
    write_u16_le(&mut bytes, 1, 0xbeef);
    assert_eq!(bytes, [0, 0xef, 0xbe, 0]);
    assert_eq!(read_u16_le(&bytes, 1), 0xbeef);
}

#[test]
fn write_u16_be_writes_high_byte_first() {
    let mut bytes = [0u8; 2];
    write_u16_be(&mut bytes, 0, 69);
    assert_eq!(bytes, [0, 69]);
}
