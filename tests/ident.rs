use i2c_passthru::ident::{serial_string, unique_id_from_bytes};

#[test]
fn serial_string_is_upper_hex() {
    assert_eq!(serial_string(0xE66430A64B335337), b"E66430A64B335337".to_vec());
    assert_eq!(serial_string(0), b"0000000000000000".to_vec());
    assert_eq!(serial_string(u64::MAX), b"FFFFFFFFFFFFFFFF".to_vec());
    assert_eq!(serial_string(0x0123456789ABCDEF), b"0123456789ABCDEF".to_vec());
}

#[test]
fn unique_id_is_big_endian() {
    assert_eq!(unique_id_from_bytes([0xE6, 0x64, 0x30, 0xA6, 0x4B, 0x33, 0x53, 0x37]), 0xE66430A64B335337);
    assert_eq!(unique_id_from_bytes([0, 0, 0, 0, 0, 0, 0, 1]), 1);
    assert_eq!(unique_id_from_bytes([0xFF; 8]), u64::MAX);
}
