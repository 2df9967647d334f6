//! Character classes, display widths and conversions between `str` and
//! characters.

use unicode_width::UnicodeWidthStr;
use vstd::prelude::*;

verus! {

/// Whether a character has the Unicode `White_Space` property.
pub uninterp spec fn whitespace(c: char) -> bool;

/// The number of terminal columns a text occupies, per Unicode Annex #11.
pub uninterp spec fn text_width(s: Seq<char>) -> usize;

/// Relies on `char::is_whitespace`: whether `c` has the `White_Space` property.
#[verifier::external_body]
pub(crate) fn is_whitespace(c: char) -> (r: bool)
    ensures
        r == whitespace(c),
{
    c.is_whitespace()
}

/// Relies on `unicode_width::UnicodeWidthStr::width`: the display width of
/// `chars[start..end]`, which depends on the characters alone.
#[verifier::external_body]
pub(crate) fn width_of(chars: &Vec<char>, start: usize, end: usize) -> (r: usize)
    requires
        start <= end <= chars@.len(),
    ensures
        r == text_width(chars@.subrange(start as int, end as int)),
{
    let text: String = chars[start..end].iter().collect();
    text.width()
}

/// Relies on `str::chars` collected into a `Vec`: the characters of `text`
/// in order.
#[verifier::external_body]
pub(crate) fn chars_of(text: &str) -> (r: Vec<char>)
    ensures
        r@ == text@,
{
    text.chars().collect()
}

/// Relies on `String: FromIterator<char>`: the string made of `chars` in
/// order.
#[verifier::external_body]
pub(crate) fn string_of(chars: &[char]) -> (r: String)
    ensures
        r@ == chars@,
{
    chars.iter().collect()
}

} // verus!
