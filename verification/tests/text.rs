use lane_mask::mask::Vec4Mask;
use lane_mask::text::{debug_words, display_words, hex_string};

#[test]
fn display_of_alternating_mask() {
    assert_eq!(
        Vec4Mask::new(true, false, true, false).to_string(),
        "[true, false, true, false]"
    );
}

#[test]
fn display_of_uniform_masks() {
    assert_eq!(
        Vec4Mask::new(false, false, false, false).to_string(),
        "[false, false, false, false]"
    );
    assert_eq!(Vec4Mask::new(true, true, true, true).to_string(), "[true, true, true, true]");
    assert_eq!(Vec4Mask::default().to_string(), "[false, false, false, false]");
}

#[test]
fn display_matches_standard_formatting() {
    for bits in 0u32..16 {
        let (x, y, z, w) = (bits & 1 != 0, bits & 2 != 0, bits & 4 != 0, bits & 8 != 0);
        assert_eq!(
            Vec4Mask::new(x, y, z, w).to_string(),
            format!("[{}, {}, {}, {}]", x, y, z, w)
        );
    }
}

#[test]
fn display_reads_any_nonzero_word_as_true() {
    assert_eq!(display_words(&[1, 0, 0x8000_0000, 0]), "[true, false, true, false]");
    assert_eq!(display_words(&[0, 0xFFFF_FFFF, 0, 2]), "[false, true, false, true]");
}

#[test]
fn debug_shows_words_in_hexadecimal() {
    assert_eq!(
        Vec4Mask::new(true, false, true, false).to_debug_string(),
        "Vec4Mask(0xffffffff, 0x0, 0xffffffff, 0x0)"
    );
    assert_eq!(Vec4Mask::default().to_debug_string(), "Vec4Mask(0x0, 0x0, 0x0, 0x0)");
    assert_eq!(
        Vec4Mask::new(true, true, true, true).to_debug_string(),
        "Vec4Mask(0xffffffff, 0xffffffff, 0xffffffff, 0xffffffff)"
    );
}

#[test]
fn debug_words_matches_standard_formatting() {
    let words = [0x1F, 0xABCD_EF01, 0, 0x10];
    assert_eq!(debug_words(&words), "Vec4Mask(0x1f, 0xabcdef01, 0x0, 0x10)");
    assert_eq!(
        debug_words(&words),
        format!("Vec4Mask({:#x}, {:#x}, {:#x}, {:#x})", words[0], words[1], words[2], words[3])
    );
}

#[test]
fn hex_string_exact_values() {
    assert_eq!(hex_string(0), "0x0");
    assert_eq!(hex_string(9), "0x9");
    assert_eq!(hex_string(10), "0xa");
    assert_eq!(hex_string(15), "0xf");
    assert_eq!(hex_string(16), "0x10");
    assert_eq!(hex_string(255), "0xff");
    assert_eq!(hex_string(0x1234_5678), "0x12345678");
    assert_eq!(hex_string(0x9ABC_DEF0), "0x9abcdef0");
    assert_eq!(hex_string(0xFFFF_FFFF), "0xffffffff");
}

#[test]
fn hex_string_matches_standard_formatting() {
    let mut value: u32 = 1;
    for _ in 0..200 {
        assert_eq!(hex_string(value), format!("{:#x}", value));
        value = value.wrapping_mul(2_654_435_761).wrapping_add(12_345);
    }
}
