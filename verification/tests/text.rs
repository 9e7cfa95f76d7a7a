use feed_keeper::text::{digit, only_digits, same_text, trimmed};

#[test]
fn trimming_takes_white_space_off_both_ends() {
    assert_eq!(trimmed("  a b \t\n"), "a b");
    assert_eq!(trimmed("a"), "a");
    assert_eq!(trimmed(""), "");
    assert_eq!(trimmed(" \u{a0}\u{3000} "), "");
    assert_eq!(trimmed("\u{2003}größe\u{85}"), "größe");
    // What is no white space stays.
    assert_eq!(trimmed("_a_"), "_a_");
    assert_eq!(trimmed("\u{200b}a"), "\u{200b}a");
    for s in ["  x", "x  ", " x y ", "\t", "日本 語 "] {
        assert_eq!(trimmed(s), s.trim());
    }
}

#[test]
fn texts_are_compared_character_by_character() {
    assert!(same_text("", ""));
    assert!(same_text("bool", "bool"));
    assert!(!same_text("bool", "boo"));
    assert!(!same_text("boo", "bool"));
    assert!(!same_text("bool", "Bool"));
    assert!(same_text("größe", "größe"));
    assert!(!same_text("große", "größe"));
}

#[test]
fn digits_are_the_ten_ascii_ones() {
    assert!(only_digits("0123456789"));
    assert!(only_digits(""));
    assert!(!only_digits("12a"));
    assert!(!only_digits("1_2"));
    assert!(!only_digits("１２"));
    assert!(!only_digits(" 1"));
    assert!(digit('0') && digit('9'));
    assert!(!digit('/') && !digit(':') && !digit('٣'));
}

/// The characters with the Unicode property White_Space.
fn has_white_space_property(c: char) -> bool {
    matches!(
        c as u32,
        0x09..=0x0d
            | 0x20
            | 0x85
            | 0xa0
            | 0x1680
            | 0x2000..=0x200a
            | 0x2028
            | 0x2029
            | 0x202f
            | 0x205f
            | 0x3000
    )
}

#[test]
fn white_space_is_the_unicode_property() {
    let mut count = 0;
    for code in 0..=0x10ffffu32 {
        let Some(c) = char::from_u32(code) else { continue };
        let text = c.to_string();
        let expected = has_white_space_property(c);
        assert_eq!(trimmed(&text).is_empty(), expected, "U+{code:04X}");
        if expected {
            count += 1;
        }
    }
    assert_eq!(count, 25);
    // Neither a zero-width space nor the Mongolian vowel separator is one.
    assert_eq!(trimmed("\u{200b}"), "\u{200b}");
    assert_eq!(trimmed("\u{180e}"), "\u{180e}");
}
