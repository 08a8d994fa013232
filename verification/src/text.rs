//! Texts: their mathematical value, and the comparisons and tests on them
//! that `std` provides.

use vstd::prelude::*;

verus! {

/// Whether a character has the Unicode property `White_Space`.
pub uninterp spec fn white_space(c: char) -> bool;

/// A text in which every character is white space; the empty text is blank.
pub open spec fn blank(text: Seq<char>) -> bool {
    forall|i: int| 0 <= i < text.len() ==> white_space(#[trigger] text[i])
}

/// The texts that a sequence of strings holds, in order.
pub open spec fn texts(strings: Seq<String>) -> Seq<Seq<char>> {
    Seq::new(strings.len(), |i: int| strings[i]@)
}

/// `==` on `str`: whether the two hold the same characters.
#[verifier::external_body]
pub(crate) fn same_text(a: &str, b: &str) -> (r: bool)
    ensures
        r == (a@ == b@),
{
    a == b
}

/// `char::is_whitespace`: whether the character has the property
/// `White_Space`.
#[verifier::external_body]
pub(crate) fn is_white_space(c: char) -> (r: bool)
    ensures
        r == white_space(c),
{
    c.is_whitespace()
}

/// `str::ends_with` with a string pattern: whether the text ends in the
/// characters of `suffix`.
#[verifier::external_body]
pub(crate) fn ends_with(text: &str, suffix: &str) -> (r: bool)
    ensures
        r == suffix@.is_suffix_of(text@),
{
    text.ends_with(suffix)
}

/// Whether a text is empty once leading and trailing white space is taken
/// off, that is whether it holds nothing but white space.
pub fn is_blank(text: &str) -> (r: bool)
    ensures
        r == blank(text@),
{
    for c in it: text.chars()
        invariant
            it.seq() == text@,
            forall|j: int| 0 <= j < it.index() ==> white_space(#[trigger] text@[j]),
    {
        if !is_white_space(c) {
            return false;
        }
    }
    true
}

} // verus!
