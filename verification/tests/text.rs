use zone_metrics::text::{char_is_whitespace, chars_eq_ignore_ascii_case, content_start_index, first_word_of};

#[test]
fn white_space_matches_std_for_every_char() {
    for code in 0u32..=0x10FFFF {
        if let Some(c) = char::from_u32(code) {
            assert_eq!(char_is_whitespace(c), c.is_whitespace(), "code point {:#x}", code);
        }
    }
}

#[test]
fn first_word_skips_unicode_space() {
    let text = "\u{3000}\t select\u{a0}* from dishes";
    assert_eq!(first_word_of(text), "select");
    assert_eq!(content_start_index("   x"), 3);
    assert_eq!(first_word_of("   "), "");
    assert!(chars_eq_ignore_ascii_case("SeLeCt", "select"));
    assert!(!chars_eq_ignore_ascii_case("selects", "select"));
}
