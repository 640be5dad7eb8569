use ztpir::text::{is_blank, is_white_space, same_text};

#[test]
fn white_space_agrees_with_std_on_every_char() {
    for code in 0u32..=0x10FFFF {
        if let Some(c) = char::from_u32(code) {
            assert_eq!(is_white_space(c), c.is_whitespace(), "U+{code:04X}");
        }
    }
}

#[test]
fn blank_is_what_trim_empties() {
    for s in ["", " ", " \n\t", "\u{a0}\u{3000}", "a", " a ", "\u{200b}"] {
        assert_eq!(is_blank(s), s.trim().is_empty(), "{s:?}");
    }
}

#[test]
fn same_text_compares_characters() {
    assert!(same_text("local", "local"));
    assert!(!same_text("local", "locale"));
    assert!(!same_text("Local", "local"));
    assert!(same_text("", ""));
}
