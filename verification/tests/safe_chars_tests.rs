use eztrans_rs::safe_chars_function::is_safe_chars;

#[test]
fn test_safe_chars() {
    // Safe characters (inside the listed ranges)
    assert!(is_safe_chars(' ')); // U+000020
    assert!(is_safe_chars('¡')); // U+0000A1
    assert!(is_safe_chars('À')); // U+0000C0
    assert!(is_safe_chars('Ø')); // U+0000D8

    // Unsafe characters (full-width forms and anything outside the ranges)
    assert!(!is_safe_chars('A')); // U+000041 (out of range)
    assert!(!is_safe_chars('Ａ')); // U+FF21 (full-width A)
    assert!(!is_safe_chars('０')); // U+FF10 (full-width 0)
    assert!(!is_safe_chars('　')); // U+003000 (ideographic space)
}
