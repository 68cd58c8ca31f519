//! Character classes of the language.

use vstd::prelude::*;
use vstd::string::*;

verus! {

/// The letters of the language: the ASCII letters and the underscore.
pub open spec fn letter(c: char) -> bool {
    ('a' <= c && c <= 'z') || ('A' <= c && c <= 'Z') || c == '_'
}

/// The decimal digits `0` to `9`.
pub open spec fn digit(c: char) -> bool {
    '0' <= c && c <= '9'
}

/// The characters that separate tokens: the code points that Unicode marks
/// as White_Space.
pub open spec fn whitespace(c: char) -> bool {
    ||| ('\u{0009}' <= c && c <= '\u{000D}')
    ||| c == '\u{0020}'
    ||| c == '\u{0085}'
    ||| c == '\u{00A0}'
    ||| c == '\u{1680}'
    ||| ('\u{2000}' <= c && c <= '\u{200A}')
    ||| c == '\u{2028}'
    ||| c == '\u{2029}'
    ||| c == '\u{202F}'
    ||| c == '\u{205F}'
    ||| c == '\u{3000}'
}

/// The line break, the one whitespace character that starts a new line.
pub open spec fn newline(c: char) -> bool {
    c == '\n'
}

/// What [`is_letter`] says of a text. A text of one character is a letter
/// when that character is one; the empty text is none. A longer text is
/// measured in dictionary order: it counts when it lies between `"a"` and
/// `"z"` or between `"A"` and `"Z"`.
pub open spec fn letter_text(s: Seq<char>) -> bool {
    s.len() > 0 && {
        ||| ('a' <= s[0] && s[0] < 'z')
        ||| ('A' <= s[0] && s[0] < 'Z')
        ||| (s.len() == 1 && (s[0] == 'z' || s[0] == 'Z' || s[0] == '_'))
    }
}

/// What [`is_digit`] says of a text: it starts with a decimal digit.
pub open spec fn digit_text(s: Seq<char>) -> bool {
    s.len() > 0 && digit(s[0])
}

/// Tells whether `c` is a letter of the language.
pub fn is_letter_char(c: char) -> (r: bool)
    ensures
        r == letter(c),
{
    ('a' <= c && c <= 'z') || ('A' <= c && c <= 'Z') || c == '_'
}

/// Tells whether `c` is a decimal digit.
pub fn is_digit_char(c: char) -> (r: bool)
    ensures
        r == digit(c),
{
    '0' <= c && c <= '9'
}

/// Tells whether `c` is whitespace.
pub fn is_whitespace_char(c: char) -> (r: bool)
    ensures
        r == whitespace(c),
{
    ('\u{0009}' <= c && c <= '\u{000D}') || c == '\u{0020}' || c == '\u{0085}' || c == '\u{00A0}'
        || c == '\u{1680}' || ('\u{2000}' <= c && c <= '\u{200A}') || c == '\u{2028}' || c
        == '\u{2029}' || c == '\u{202F}' || c == '\u{205F}' || c == '\u{3000}'
}

/// Tells whether `s` is a letter of the language. The scanner asks this of
/// the character it stands on, and of the empty text at the end of its
/// input.
pub fn is_letter(s: &String) -> (r: bool)
    ensures
        r == letter_text(s@),
        s@.len() == 1 ==> r == letter(s@[0]),
        s@.len() == 0 ==> !r,
{
    let text = s.as_str();
    if text.is_empty() {
        false
    } else {
        let c = text.get_char(0);
        if c == 'z' || c == 'Z' || c == '_' {
            text.unicode_len() == 1
        } else {
            ('a' <= c && c < 'z') || ('A' <= c && c < 'Z')
        }
    }
}

/// Tells whether `s` starts with a decimal digit.
pub fn is_digit(s: &String) -> (r: bool)
    ensures
        r == digit_text(s@),
        s@.len() == 1 ==> r == digit(s@[0]),
        s@.len() == 0 ==> !r,
{
    let text = s.as_str();
    if text.is_empty() {
        false
    } else {
        is_digit_char(text.get_char(0))
    }
}

} // verus!
