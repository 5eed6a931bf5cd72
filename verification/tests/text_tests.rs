use process_console::text::{trim_bytes, u32_decimal};

#[test]
fn trim_removes_surrounding_whitespace_only() {
    assert_eq!(trim_bytes(b"  say hello  "), b"say hello".to_vec());
    assert_eq!(trim_bytes(b"\t\r\n stop \n"), b"stop".to_vec());
    assert_eq!(trim_bytes(b"a b"), b"a b".to_vec());
    assert_eq!(trim_bytes(b"plain"), b"plain".to_vec());
}

#[test]
fn trim_of_whitespace_is_empty() {
    assert_eq!(trim_bytes(b""), b"".to_vec());
    assert_eq!(trim_bytes(b"   "), b"".to_vec());
    assert_eq!(trim_bytes(b" \t\n\r\x0b\x0c"), b"".to_vec());
}

#[test]
fn decimal_rendering_is_exact() {
    assert_eq!(u32_decimal(0), b"0".to_vec());
    assert_eq!(u32_decimal(7), b"7".to_vec());
    assert_eq!(u32_decimal(42), b"42".to_vec());
    assert_eq!(u32_decimal(1000), b"1000".to_vec());
    assert_eq!(u32_decimal(u32::MAX), b"4294967295".to_vec());
}
