//! Character classes that the bot's input grammars are written in.

use vstd::prelude::*;

verus! {

/// Whether `c` is a Unicode word character (`\w` of regular expressions).
pub uninterp spec fn regex_word_char(c: char) -> bool;

/// Whether `c` is a Unicode decimal digit (`\d`, general category `Nd`).
pub uninterp spec fn regex_decimal_digit(c: char) -> bool;

/// Whether `c` has the Unicode `White_Space` property.
pub uninterp spec fn unicode_white_space(c: char) -> bool;

/// ASCII letters, ASCII digits and `_`.
pub open spec fn ascii_word(c: char) -> bool {
    ||| 'a' <= c <= 'z'
    ||| 'A' <= c <= 'Z'
    ||| '0' <= c <= '9'
    ||| c == '_'
}

/// A word character (`\w`): for ASCII the letters, the digits and `_`,
/// beyond ASCII the Unicode classes behind `regex_word_char`.
pub open spec fn word_char(c: char) -> bool {
    if (c as u32) < 128 {
        ascii_word(c)
    } else {
        regex_word_char(c)
    }
}

/// A decimal digit (`\d`): for ASCII `0` to `9`, beyond ASCII the digits of
/// general category `Nd`.
pub open spec fn decimal_digit(c: char) -> bool {
    if (c as u32) < 128 {
        '0' <= c <= '9'
    } else {
        regex_decimal_digit(c)
    }
}

/// ASCII whitespace in the sense of Unicode: tab, line feed, vertical tab,
/// form feed, carriage return and space.
pub open spec fn ascii_white_space(c: char) -> bool {
    c == ' ' || (9 <= (c as u32) && (c as u32) <= 13)
}

/// Whitespace (`White_Space`): for ASCII `ascii_white_space`, beyond ASCII
/// the characters behind `unicode_white_space`.
pub open spec fn white_space(c: char) -> bool {
    if (c as u32) < 128 {
        ascii_white_space(c)
    } else {
        unicode_white_space(c)
    }
}

/// `regex_syntax::is_word_character`: the class `\w`; among ASCII characters
/// these are exactly the letters, the digits and `_`.
#[verifier::external_body]
pub(crate) fn is_word_char(c: char) -> (r: bool)
    ensures
        r == regex_word_char(c),
        (c as u32) < 128 ==> (r <==> ascii_word(c)),
        r == word_char(c),
{
    regex_syntax::is_word_character(c)
}

/// `regex::Regex::is_match` of `\A\d\z` on the single character `c`: the
/// class `\d`, i.e. general category `Nd`; among ASCII characters these are
/// exactly `0` to `9`.
#[verifier::external_body]
pub(crate) fn is_decimal_digit(c: char) -> (r: bool)
    ensures
        r == regex_decimal_digit(c),
        (c as u32) < 128 ==> (r <==> '0' <= c <= '9'),
        r == decimal_digit(c),
{
    let mut buf = [0u8; 4];
    match regex::Regex::new(r"\A\d\z") {
        Ok(re) => re.is_match(c.encode_utf8(&mut buf)),
        Err(_) => false,
    }
}

/// `char::is_whitespace`: the Unicode `White_Space` property; among ASCII
/// characters it holds exactly for tab, line feed, vertical tab, form feed,
/// carriage return and space.
#[verifier::external_body]
pub(crate) fn is_white_space(c: char) -> (r: bool)
    ensures
        r == unicode_white_space(c),
        (c as u32) < 128 ==> (r <==> ascii_white_space(c)),
        r == white_space(c),
{
    c.is_whitespace()
}

} // verus!
