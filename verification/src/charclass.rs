//! Character classes of the field formats.
//!
//! ASCII characters are classified here. For a character outside ASCII the
//! classes "word character" and "decimal digit" are those of Unicode, and
//! the `regex` crate, which carries the Unicode tables, is asked.

use vstd::prelude::*;

verus! {

/// Pattern that matches exactly the one-character texts holding a word character.
pub const WORD_CLASS: &'static str = "^\\w$";

/// Pattern that matches exactly the one-character texts holding a decimal digit.
pub const DIGIT_CLASS: &'static str = "^\\d$";

/// Whether the regular expression `pattern` matches somewhere in the text
/// made of the single character `c`; `None` where `pattern` is no valid
/// regular expression.
pub uninterp spec fn regex_char_match(pattern: Seq<char>, c: char) -> Option<bool>;

/// Trusted: compiles `pattern` with `regex::Regex::new` and, where that
/// succeeds, asks `Regex::is_match` about the text that holds `c` alone.
/// Both are functions of their arguments, so the answer is the named one.
#[verifier::external_body]
fn regex_matches_char(pattern: &str, c: char) -> (r: Option<bool>)
    ensures
        r == regex_char_match(pattern@, c),
{
    let mut buf = [0u8; 4];
    match regex::Regex::new(pattern) {
        Ok(re) => Some(re.is_match(c.encode_utf8(&mut buf))),
        Err(_) => None,
    }
}

/// `c` is one of the 128 characters of ASCII.
pub open spec fn is_ascii(c: char) -> bool {
    (c as u32) < 128
}

/// `c` is one of `a` to `z` or `A` to `Z`.
pub open spec fn is_ascii_letter(c: char) -> bool {
    ('a' <= c && c <= 'z') || ('A' <= c && c <= 'Z')
}

/// `c` is one of `0` to `9`.
pub open spec fn is_ascii_digit(c: char) -> bool {
    '0' <= c && c <= '9'
}

/// A decimal digit: `0` to `9`, or a character outside ASCII that Unicode
/// classes as a decimal digit.
pub open spec fn is_digit(c: char) -> bool {
    if is_ascii(c) {
        is_ascii_digit(c)
    } else {
        regex_char_match(DIGIT_CLASS@, c) == Some(true)
    }
}

/// A word character: an ASCII letter or digit, `_`, or a character outside
/// ASCII that Unicode classes as a word character.
pub open spec fn is_word(c: char) -> bool {
    if is_ascii(c) {
        is_ascii_letter(c) || is_ascii_digit(c) || c == '_'
    } else {
        regex_char_match(WORD_CLASS@, c) == Some(true)
    }
}

/// Whether `c` is an ASCII letter.
pub fn ascii_letter(c: char) -> (b: bool)
    ensures
        b == is_ascii_letter(c),
{
    ('a' <= c && c <= 'z') || ('A' <= c && c <= 'Z')
}

/// Whether `c` is one of `0` to `9`.
pub fn ascii_digit(c: char) -> (b: bool)
    ensures
        b == is_ascii_digit(c),
{
    '0' <= c && c <= '9'
}

/// Whether `c` is a decimal digit.
pub fn digit(c: char) -> (b: bool)
    ensures
        b == is_digit(c),
{
    if (c as u32) < 128 {
        ascii_digit(c)
    } else {
        match regex_matches_char(DIGIT_CLASS, c) {
            Some(found) => found,
            None => false,
        }
    }
}

/// Whether `c` is a word character.
pub fn word(c: char) -> (b: bool)
    ensures
        b == is_word(c),
{
    if (c as u32) < 128 {
        ascii_letter(c) || ascii_digit(c) || c == '_'
    } else {
        match regex_matches_char(WORD_CLASS, c) {
            Some(found) => found,
            None => false,
        }
    }
}

} // verus!
