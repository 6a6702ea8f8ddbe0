//! Small helpers on text.

use vstd::prelude::*;

verus! {

/// The text of an optional string.
pub open spec fn optional_text(text: Option<String>) -> Option<Seq<char>> {
    match text {
        Some(chars) => Some(chars@),
        None => None,
    }
}

/// Whether two pieces of text hold the same characters.
pub fn same_text(a: &str, b: &str) -> (same: bool)
    ensures
        same == (a@ == b@),
{
    let left = a.to_owned();
    let right = b.to_owned();
    left == right
}

/// The text `head` followed by `tail`, as a new string.
pub fn joined(head: &str, tail: &str) -> (whole: String)
    ensures
        whole@ == head@ + tail@,
{
    let mut whole = head.to_owned();
    whole.append(tail);
    whole
}

/// `String::push` of std: the character goes behind the text.
#[verifier::external_body]
pub(crate) fn push_char(text: &mut String, c: char)
    ensures
        final(text)@ == old(text)@.push(c),
{
    text.push(c)
}

/// A character of the URL-safe base64 alphabet as the standard alphabet
/// writes it: `-` becomes `+`, `_` becomes `/`, any other stays.
pub open spec fn standard_base64_char(c: char) -> char {
    if c == '-' {
        '+'
    } else if c == '_' {
        '/'
    } else {
        c
    }
}

/// A text with each character of the URL-safe base64 alphabet replaced by
/// its standard counterpart.
pub open spec fn standard_base64(text: Seq<char>) -> Seq<char> {
    text.map_values(|c: char| standard_base64_char(c))
}

/// Rewrites a text from the URL-safe base64 alphabet to the standard one.
pub fn to_standard_base64(text: &str) -> (standard: String)
    ensures
        standard@ == standard_base64(text@),
{
    let mut standard = String::new();
    for c in chars: text.chars()
        invariant
            chars.seq() == text@,
            standard@ == standard_base64(text@.take(chars.index() as int)),
    {
        let replaced = if c == '-' {
            '+'
        } else if c == '_' {
            '/'
        } else {
            c
        };
        push_char(&mut standard, replaced);
    }
    standard
}

} // verus!
