use atlas_payroll::codec::{read_u64_le, u64_to_le_bytes};

#[test]
fn le_bytes_of_known_value() {
    assert_eq!(u64_to_le_bytes(0x0102_0304_0506_0708), [8, 7, 6, 5, 4, 3, 2, 1]);
    assert_eq!(u64_to_le_bytes(0), [0; 8]);
    assert_eq!(u64_to_le_bytes(u64::MAX), [0xff; 8]);
}

#[test]
fn read_at_offset() {
    let data = [0xaa, 8, 7, 6, 5, 4, 3, 2, 1, 0xbb];
    assert_eq!(read_u64_le(&data, 1), 0x0102_0304_0506_0708);
}

#[test]
fn le_roundtrip_on_values() {
    for x in [0u64, 1, 255, 256, 1_000_000, 0xdead_beef_cafe_f00d, u64::MAX] {
        let b = u64_to_le_bytes(x);
        assert_eq!(read_u64_le(&b, 0), x);
        assert_eq!(u64::from_le_bytes(b), x);
    }
}
