use ferro_babe::format::text::{decimal_text, hex4_text, left_aligned_text, padded_hex_text, signed_text};

#[test]
fn decimal_rendering() {
    assert_eq!(decimal_text(0), "0");
    assert_eq!(decimal_text(10), "10");
    assert_eq!(decimal_text(u64::MAX), u64::MAX.to_string());
    assert_eq!(signed_text(-1), "-1");
    assert_eq!(signed_text(i64::MIN), i64::MIN.to_string());
    assert_eq!(signed_text(42), "42");
}

#[test]
fn hexadecimal_rendering() {
    assert_eq!(hex4_text(0), "0000");
    assert_eq!(hex4_text(0xabc), "0abc");
    assert_eq!(hex4_text(0x12345), "12345");
    assert_eq!(padded_hex_text(0xCAFEBABE, 8), "cafebabe");
    assert_eq!(padded_hex_text(1, 8), "00000001");
}

#[test]
fn left_alignment_pads_with_spaces() {
    assert_eq!(left_aligned_text("NOP", 6), "NOP   ");
    assert_eq!(left_aligned_text("MULTIANEWARRAY", 4), "MULTIANEWARRAY");
}
