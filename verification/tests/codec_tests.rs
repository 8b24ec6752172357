// Escape codec tests: encoding of protected characters, passthrough of
// ordinary text, lenient decoding, and the round trip.

use eztrans_rs::codec::{hangul_decode, hangul_encode, is_hangul_range, needs_encoding};

#[test]
fn test_hangul_encode_basic() {
    // Korean characters are escaped
    let input = "안녕하세요";
    let encoded = hangul_encode(input);

    assert!(encoded.contains("+x"));
    assert!(!encoded.contains("안"));
}

#[test]
fn test_hangul_encode_exact() {
    assert_eq!(hangul_encode("안녕"), "+xC548+xB155");
}

#[test]
fn test_hangul_encode_mixed() {
    // Mixed content (Korean + Japanese + ASCII)
    let input = "Hello 안녕 こんにちは";
    let encoded = hangul_encode(input);

    // ASCII and Japanese stay unchanged
    assert!(encoded.contains("Hello"));
    assert!(encoded.contains("こんにちは"));
    // Korean is encoded
    assert!(!encoded.contains("안녕"));
}

#[test]
fn test_hangul_encode_at_symbol() {
    // @ is escaped
    let input = "test@example.com";
    let encoded = hangul_encode(input);

    assert!(encoded.contains("+x0040")); // @ = U+0040
    assert_eq!(encoded, "test+x0040example.com");
}

#[test]
fn test_hangul_encode_special_chars() {
    // Characters from the corrupted-symbol table use the +X marker
    let input = "테스트♥심볼♠";
    let encoded = hangul_encode(input);

    assert!(encoded.contains("+X"));
    assert!(encoded.contains("+X2665")); // ♥ = U+2665
    assert!(encoded.contains("+X2660")); // ♠ = U+2660
}

#[test]
fn test_hangul_decode_basic() {
    let encoded = "+xC548+xB155"; // 안녕
    let decoded = hangul_decode(encoded);

    assert_eq!(decoded, "안녕");
}

#[test]
fn test_hangul_decode_capital_marker() {
    // The decoder accepts both marker variants and lowercase hex digits
    assert_eq!(hangul_decode("+X2665"), "♥");
    assert_eq!(hangul_decode("+xc548"), "안");
}

#[test]
fn test_hangul_encode_decode_roundtrip() {
    let original = "안녕하세요 Hello 世界";
    let encoded = hangul_encode(original);
    let decoded = hangul_decode(&encoded);

    assert_eq!(decoded, original);
}

#[test]
fn test_hangul_decode_invalid_hex() {
    // Invalid hex is preserved
    let input = "+xGGGG test";
    let decoded = hangul_decode(input);

    assert_eq!(decoded, "+xGGGG test");
}

#[test]
fn test_hangul_decode_incomplete() {
    // An incomplete sequence is preserved
    let input = "+x12 test";
    let decoded = hangul_decode(input);

    assert_eq!(decoded, "+x12 test");
}

#[test]
fn test_hangul_decode_passthrough_mixed_markers() {
    // Markers, partial digits and stray plus signs, none forming a
    // well-formed escape: the whole text passes through unchanged.
    let input = "+x+X+x123+Xzz+";
    assert_eq!(hangul_decode(input), input);
}

#[test]
fn test_hangul_decode_surrogate_passthrough() {
    // A surrogate code point is no character, so the escape stays literal
    assert_eq!(hangul_decode("+xD800ab"), "+xD800ab");
}

#[test]
fn test_hangul_decode_unmarked_text() {
    // Text without the marker passes through untouched
    assert_eq!(hangul_decode("plain + text"), "plain + text");
}

#[test]
fn test_encode_leaves_plain_text() {
    // Text with no protected characters is untouched
    let input = "Today's weather is fine. 今日はいい天気ですね。";
    assert_eq!(hangul_encode(input), input);
}

#[test]
fn test_needs_encoding() {
    assert!(!needs_encoding("hello world"));
    assert!(!needs_encoding("こんにちは"));
    assert!(needs_encoding("안녕"));
    assert!(needs_encoding("test@example.com"));
    assert!(needs_encoding("심볼♥"));
    assert!(needs_encoding("\0"));
}

#[test]
fn test_is_hangul_range_syllables() {
    // Hangul Syllables block (AC00-D7A3)
    assert!(is_hangul_range('가' as u32)); // U+AC00
    assert!(is_hangul_range('힣' as u32)); // U+D7A3
}

#[test]
fn test_is_hangul_range_jamo() {
    // Hangul Jamo block (1100-11FF)
    assert!(is_hangul_range(0x1100));
    assert!(is_hangul_range(0x11FF));

    // Hangul Compatibility Jamo (3130-318F)
    assert!(is_hangul_range(0x3130));
    assert!(is_hangul_range(0x318F));
}

#[test]
fn test_is_hangul_range_non_hangul() {
    // ASCII
    assert!(!is_hangul_range('A' as u32));
    assert!(!is_hangul_range('z' as u32));

    // Japanese
    assert!(!is_hangul_range('あ' as u32));
    assert!(!is_hangul_range('漢' as u32));
}

#[test]
fn test_protected_char_roundtrip_each_kind() {
    // One protected character of each kind survives the round trip
    for s in ["가", "\u{1100}", "@", "\0", "♥", "€", "↔"] {
        let encoded = hangul_encode(s);
        assert_ne!(encoded, s);
        assert_eq!(hangul_decode(&encoded), s);
    }
}

#[test]
fn test_accepted_ambiguity() {
    // A text that already spells out an escape is passed through by the
    // encoder and read as an escape by the decoder: the accepted ambiguity.
    let lookalike = "+x0041";
    assert_eq!(hangul_encode(lookalike), lookalike);
    assert_eq!(hangul_decode(lookalike), "A");
}
