//! The Unicode tables of the standard library, by name, and the small
//! character classes that can be written out in full.

use vstd::prelude::*;
use vstd::utf8::is_ascii_chars;

verus! {

/// The lower-case form of a text that is not ASCII, as the Unicode tables give it.
pub uninterp spec fn unicode_lowercase(s: Seq<char>) -> Seq<char>;

/// Whether a character beyond ASCII is a letter or a number in the Unicode tables.
pub uninterp spec fn unicode_alphanumeric(c: char) -> bool;

/// The upper-case form of one character, as the Unicode tables give it.
pub uninterp spec fn uppercase(c: char) -> Seq<char>;

/// `c` is one of `A` to `Z`.
pub open spec fn ascii_upper(c: char) -> bool {
    'A' <= c <= 'Z'
}

/// `c` is one of `a` to `z`.
pub open spec fn ascii_lower(c: char) -> bool {
    'a' <= c <= 'z'
}

/// `c` is one of `0` to `9`.
pub open spec fn ascii_digit(c: char) -> bool {
    '0' <= c <= '9'
}

/// `c` is an ASCII letter.
pub open spec fn ascii_letter(c: char) -> bool {
    ascii_upper(c) || ascii_lower(c)
}

/// `c` is an ASCII letter or digit.
pub open spec fn ascii_alnum(c: char) -> bool {
    ascii_letter(c) || ascii_digit(c)
}

/// `A` to `Z` become `a` to `z`; every other character stays.
pub open spec fn ascii_lower_char(c: char) -> char {
    if ascii_upper(c) {
        (c as u8 + 32) as u8 as char
    } else {
        c
    }
}

/// A text with each of its ASCII letters in lower case.
pub open spec fn ascii_lower_text(s: Seq<char>) -> Seq<char> {
    Seq::new(s.len(), |i: int| ascii_lower_char(s[i]))
}

/// The lower-case form of a text.
pub open spec fn lowercase(s: Seq<char>) -> Seq<char> {
    if is_ascii_chars(s) {
        ascii_lower_text(s)
    } else {
        unicode_lowercase(s)
    }
}

/// Whether a character is a letter or a number.
pub open spec fn alphanumeric(c: char) -> bool {
    if (c as u32) < 128 {
        ascii_alnum(c)
    } else {
        unicode_alphanumeric(c)
    }
}

/// `str::to_lowercase`: the result depends on the text alone, and on ASCII
/// text the letters `A` to `Z` become `a` to `z` and nothing else changes. Beyond
/// ASCII it is left unsaid that a lower-case form is its own lower-case form.
pub assume_specification[ str::to_lowercase ](s: &str) -> (r: String)
    ensures
        is_ascii_chars(s@) ==> r@ == ascii_lower_text(s@),
        !is_ascii_chars(s@) ==> r@ == unicode_lowercase(s@),
;

/// `char::is_alphanumeric`: the result depends on the character alone, and of
/// the ASCII characters the letters and digits are the alphanumeric ones.
pub assume_specification[ char::is_alphanumeric ](c: char) -> (r: bool)
    ensures
        (c as u32) < 128 ==> r == ascii_alnum(c),
        (c as u32) >= 128 ==> r == unicode_alphanumeric(c),
;

/// `char::to_uppercase`, collected: the result depends on the character alone,
/// and of an ASCII letter it is the one upper-case letter.
#[verifier::external_body]
pub(crate) fn to_upper(c: char) -> (r: String)
    ensures
        r@ == uppercase(c),
        ascii_lower(c) ==> r@ == seq![(c as u8 - 32) as u8 as char],
        (c as u32) < 128 && !ascii_lower(c) ==> r@ == seq![c],
{
    c.to_uppercase().collect()
}

/// Whether `c` is an ASCII letter or digit.
pub fn is_ascii_alnum(c: char) -> (r: bool)
    ensures
        r == ascii_alnum(c),
{
    ('A' <= c && c <= 'Z') || ('a' <= c && c <= 'z') || ('0' <= c && c <= '9')
}

/// Whether `c` is an ASCII letter.
pub fn is_ascii_letter(c: char) -> (r: bool)
    ensures
        r == ascii_letter(c),
{
    ('A' <= c && c <= 'Z') || ('a' <= c && c <= 'z')
}

/// `A` to `Z` become `a` to `z`; every other character stays.
pub fn lower_char(c: char) -> (r: char)
    ensures
        r == ascii_lower_char(c),
{
    if 'A' <= c && c <= 'Z' {
        (c as u8 + 32) as char
    } else {
        c
    }
}

/// The characters with the Unicode property `White_Space`.
pub open spec fn white_space(c: char) -> bool {
    ||| '\u{9}' <= c <= '\u{D}'
    ||| c == '\u{20}'
    ||| c == '\u{85}'
    ||| c == '\u{A0}'
    ||| c == '\u{1680}'
    ||| '\u{2000}' <= c <= '\u{200A}'
    ||| c == '\u{2028}'
    ||| c == '\u{2029}'
    ||| c == '\u{202F}'
    ||| c == '\u{205F}'
    ||| c == '\u{3000}'
}

/// Whether `c` is white space.
pub fn is_white_space(c: char) -> (r: bool)
    ensures
        r == white_space(c),
{
    ('\u{9}' <= c && c <= '\u{D}') || c == '\u{20}' || c == '\u{85}' || c == '\u{A0}'
        || c == '\u{1680}' || ('\u{2000}' <= c && c <= '\u{200A}') || c == '\u{2028}'
        || c == '\u{2029}' || c == '\u{202F}' || c == '\u{205F}' || c == '\u{3000}'
}

} // verus!
