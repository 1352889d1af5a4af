use payaddr::bytes::{push_decimal, u64_from_be_bytes, u64_to_be_bytes};

#[test]
fn big_endian_round_trip() {
    for t in [0u64, 1, 255, 256, 1_700_000_000, u64::MAX, 0x0102_0304_0506_0708] {
        let b = u64_to_be_bytes(t);
        assert_eq!(b, t.to_be_bytes().to_vec());
        assert_eq!(u64_from_be_bytes(&b), t);
    }
    assert_eq!(u64_to_be_bytes(0x0102_0304_0506_0708), vec![1, 2, 3, 4, 5, 6, 7, 8]);
    assert_eq!(u64_from_be_bytes(&[0, 0, 0, 0, 0x65, 0x53, 0xf1, 0x00, 9, 9]), 1_700_000_000);
}

#[test]
fn decimal_digits_are_appended() {
    let mut out = b"Length: ".to_vec();
    push_decimal(&mut out, 40);
    assert_eq!(out, b"Length: 40".to_vec());
    for n in [0usize, 7, 10, 99, 100, 12345, usize::MAX] {
        let mut v = Vec::new();
        push_decimal(&mut v, n);
        assert_eq!(String::from_utf8(v).unwrap(), n.to_string());
    }
}
