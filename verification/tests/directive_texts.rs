use log_bootstrap::directives::{check_whole, space, usable};

#[test]
fn space_agrees_with_the_standard_library() {
    let mut code: u32 = 0;
    while code <= 0x10FFFF {
        if let Some(c) = char::from_u32(code) {
            assert_eq!(space(c), c.is_whitespace(), "U+{code:04X}");
        }
        code += 1;
    }
}

#[test]
fn trimming_removes_exactly_the_leading_space() {
    let mut code: u32 = 0;
    while code <= 0x10FFFF {
        if let Some(c) = char::from_u32(code) {
            let piece = format!("{c}x");
            assert_eq!(space(c), piece.trim() != piece.as_str(), "U+{code:04X}");
        }
        code += 1;
    }
}

#[test]
fn texts_without_leading_space_are_whole() {
    for text in ["", "warn", "warn,billing=debug", "[span{field=1}]=trace", "\u{e9}t\u{e9}=debug", "a ,\u{e9}", ",,", "warn,", "x\u{3000}"] {
        assert!(check_whole(text), "{text:?}");
        assert_eq!(usable(text), text);
    }
}

#[test]
fn single_byte_texts_are_whole_whatever_their_space() {
    for text in [" ", " warn", "warn, billing=debug", "\twarn ,\n info", "a,  b,\u{b}c"] {
        assert!(check_whole(text), "{text:?}");
        assert_eq!(usable(text), text);
    }
}

#[test]
fn a_piece_with_leading_space_and_a_wide_character_is_not_whole() {
    for text in [" \u{e9}", "warn, \u{e9}=debug", "warn,\t billing=\u{65e5}", "\u{3000}", "\u{a0}x", "a,\u{2003}b", " a\u{e9},b", "x, y,\nz\u{80}"] {
        assert!(!check_whole(text), "{text:?}");
        assert_eq!(usable(text), "");
    }
}

#[test]
fn a_wide_character_in_another_piece_does_no_harm() {
    for text in [" a,\u{e9}", "\u{e9}, a", " a,\u{e9} ,\tb", "\u{e9} \u{e9}, warn"] {
        assert!(check_whole(text), "{text:?}");
        assert_eq!(usable(text), text);
    }
}
