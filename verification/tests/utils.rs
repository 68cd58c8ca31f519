use tokenizer::utils::{is_digit, is_digit_char, is_letter, is_letter_char, is_whitespace_char};

fn letter(s: &str) -> bool {
    is_letter(&s.to_string())
}

fn digit(s: &str) -> bool {
    is_digit(&s.to_string())
}

#[test]
fn letters_are_ascii_letters_and_underscore() {
    for s in ["a", "b", "m", "y", "z", "A", "M", "Z", "_"] {
        assert!(letter(s), "{:?}", s);
    }
    for s in ["0", "9", " ", "\n", "@", "[", "`", "{", "-", "\"", "\u{e9}", "\u{3b1}"] {
        assert!(!letter(s), "{:?}", s);
    }
}

#[test]
fn the_empty_text_is_no_letter_and_no_digit() {
    assert!(!letter(""));
    assert!(!digit(""));
}

#[test]
fn digits_are_the_ten_decimal_digits() {
    for s in ["0", "1", "5", "9"] {
        assert!(digit(s), "{:?}", s);
    }
    for s in ["a", "z", "_", " ", "/", ":", "\u{661}", "\u{ff11}", "\u{b2}"] {
        assert!(!digit(s), "{:?}", s);
    }
}

#[test]
fn longer_texts_are_measured_in_dictionary_order() {
    for s in ["ab", "a1", "yz", "if", "Ab", "Y_", "a\u{e9}"] {
        assert!(letter(s), "{:?}", s);
    }
    for s in ["za", "z1", "Za", "_a", "__", "1a", " a"] {
        assert!(!letter(s), "{:?}", s);
    }
}

#[test]
fn a_text_is_a_letter_when_it_lies_between_the_bounds() {
    let samples = [
        "", "a", "z", "A", "Z", "_", "ab", "zz", "z ", "Zz", "_a", "0", "`", "{", "[", "@", "aZ",
        "Az", "\u{e9}", "a\u{e9}", "z\u{0}", "y\u{10ffff}",
    ];
    for s in samples {
        let between = ("a" <= s && s <= "z") || ("A" <= s && s <= "Z") || s == "_";
        assert_eq!(letter(s), between, "{:?}", s);
    }
}

#[test]
fn a_longer_text_is_a_digit_when_it_starts_with_one() {
    assert!(digit("12"));
    assert!(digit("1a"));
    assert!(digit("0 "));
    assert!(!digit("a1"));
    assert!(!digit(" 1"));
}

#[test]
fn one_character_texts_agree_with_the_character_classes() {
    for code in 0u32..0x300 {
        if let Some(c) = char::from_u32(code) {
            let s = c.to_string();
            assert_eq!(is_letter(&s), is_letter_char(c), "{:?}", c);
            assert_eq!(is_digit(&s), is_digit_char(c), "{:?}", c);
        }
    }
}

#[test]
fn character_classes_over_all_characters() {
    for code in 0u32..=0x10ffff {
        if let Some(c) = char::from_u32(code) {
            assert_eq!(is_letter_char(c), c.is_ascii_alphabetic() || c == '_', "{:?}", c);
            assert_eq!(is_digit_char(c), c.is_digit(10), "{:?}", c);
            assert_eq!(is_whitespace_char(c), c.is_whitespace(), "{:?}", c);
        }
    }
}

#[test]
fn whitespace_characters() {
    for c in [' ', '\t', '\n', '\r', '\u{b}', '\u{c}', '\u{85}', '\u{a0}', '\u{2028}', '\u{3000}'] {
        assert!(is_whitespace_char(c), "{:?}", c);
    }
    for c in ['a', '0', '_', '\u{0}', '\u{8}', '\u{e}', '\u{200b}', '\u{180e}', '\u{feff}'] {
        assert!(!is_whitespace_char(c), "{:?}", c);
    }
}
