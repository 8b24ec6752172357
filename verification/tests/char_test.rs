use eztrans_rs::char_ranges::is_safe_chars;

fn needs_special_encoding(c: char) -> bool {
    !is_safe_chars(c)
}

#[test]
fn test_special_encoding_basic() {
    // Circled numbers (U+2460-2473) - now in safe range
    assert!(!needs_special_encoding('①'));
    assert!(!needs_special_encoding('②'));

    // Currency (U+20AC) - not in safe range
    assert!(needs_special_encoding('€'));

    // CJK Compatibility (U+3395, 3396) - not in safe range
    assert!(needs_special_encoding('㎕'));
    assert!(needs_special_encoding('㎖'));

    // Basic arrows
    // '→' (U+2192) is in safe range (U+2190-2193)
    assert!(!needs_special_encoding('→'));
    // '↔' (U+2194) is NOT in safe range
    assert!(needs_special_encoding('↔'));
}

#[test]
fn test_safe_characters() {
    // ASCII letters and numbers
    assert!(!needs_special_encoding('A'));
    assert!(!needs_special_encoding('z'));
    assert!(!needs_special_encoding('0'));
    assert!(!needs_special_encoding('9'));

    // Hiragana
    assert!(!needs_special_encoding('あ'));
    assert!(!needs_special_encoding('ん'));

    // Katakana
    assert!(!needs_special_encoding('ア'));
    assert!(!needs_special_encoding('ン'));

    // Kanji
    assert!(!needs_special_encoding('日'));
    assert!(!needs_special_encoding('本'));
}

#[test]
fn test_at_symbol() {
    // @ is now treated as safe character (ASCII range)
    assert!(!needs_special_encoding('@'));
}

#[test]
fn test_control_characters() {
    assert!(needs_special_encoding('\0'));
}

#[test]
fn test_emoji_char_decomposition() {
    // Single code point emoji
    let single_emoji = "😀";
    let chars: Vec<char> = single_emoji.chars().collect();
    println!("emoji '{}': {:?}", single_emoji, chars);
    assert_eq!(chars.len(), 1);
    println!("  U+{:04X}", chars[0] as u32);

    // ZWJ sequence emoji (family)
    let family_emoji = "👨‍👩‍👧";
    let chars: Vec<char> = family_emoji.chars().collect();
    println!("family emoji '{}': {} chars", family_emoji, chars.len());
    for (i, c) in chars.iter().enumerate() {
        println!("  [{}] U+{:04X} = '{}'", i, *c as u32, c);
    }
    assert!(chars.len() > 1);

    // Flag emoji (Regional Indicator)
    let flag_emoji = "🇰🇷";
    let chars: Vec<char> = flag_emoji.chars().collect();
    println!("flag emoji '{}': {} chars", flag_emoji, chars.len());
    for (i, c) in chars.iter().enumerate() {
        println!("  [{}] U+{:04X}", i, *c as u32);
    }
    assert_eq!(chars.len(), 2);

    // Skin tone modifier emoji
    let skin_emoji = "👋🏻";
    let chars: Vec<char> = skin_emoji.chars().collect();
    println!("skin tone emoji '{}': {} chars", skin_emoji, chars.len());
    for (i, c) in chars.iter().enumerate() {
        println!("  [{}] U+{:04X}", i, *c as u32);
    }
    assert_eq!(chars.len(), 2);
}
