use ndbank::word::{u32_from_le_bytes, u32_to_le_bytes};

#[test]
fn words_decode_least_significant_byte_first() {
    assert_eq!(u32_from_le_bytes([0x78, 0x56, 0x34, 0x12]), 0x1234_5678);
    assert_eq!(u32_from_le_bytes([0, 0, 0, 0x20]), 0x2000_0000);
    assert_eq!(u32_from_le_bytes([0, 0, 0, 0]), 0);
    assert_eq!(u32_from_le_bytes([0xff, 0xff, 0xff, 0xff]), 0xffff_ffff);
    assert_eq!(u32_from_le_bytes([1, 0, 0, 0]), 1);
}

#[test]
fn words_encode_least_significant_byte_first() {
    assert_eq!(u32_to_le_bytes(0x1234_5678), [0x78, 0x56, 0x34, 0x12]);
    assert_eq!(u32_to_le_bytes(0x2000_0000), [0, 0, 0, 0x20]);
    assert_eq!(u32_to_le_bytes(0), [0, 0, 0, 0]);
    assert_eq!(u32_to_le_bytes(0xffff_ffff), [0xff, 0xff, 0xff, 0xff]);
    assert_eq!(u32_to_le_bytes(0x8000_0001), [1, 0, 0, 0x80]);
}

#[test]
fn words_agree_with_the_standard_library() {
    for word in [0u32, 1, 0x2000_0000, 0xdfff_ffff, 0x0102_0304, 0xffff_ffff, 0xc0ff_aaed] {
        assert_eq!(u32_to_le_bytes(word), word.to_le_bytes());
        assert_eq!(u32_from_le_bytes(word.to_le_bytes()), word);
        assert_eq!(u32_from_le_bytes(u32_to_le_bytes(word)), word);
    }
}
