//! The character classes that a username is checked against.

use vstd::prelude::*;

verus! {

/// Whether `c` is a letter of the English alphabet, either case.
pub open spec fn english_letter(c: char) -> bool {
    ('a' <= c && c <= 'z') || ('A' <= c && c <= 'Z')
}

/// Whether `c` is a letter of the English alphabet, either case.
pub fn is_english_letter(c: char) -> (b: bool)
    ensures
        b == english_letter(c),
        b <==> ('a' <= c && c <= 'z') || ('A' <= c && c <= 'Z'),
{
    ('a' <= c && c <= 'z') || ('A' <= c && c <= 'Z')
}

/// Whether `c` is in one of the Unicode general categories for numbers
/// (`char::is_numeric`).
pub uninterp spec fn numeric(c: char) -> bool;

/// `char::is_numeric`; its result, given by Unicode tables, is named. Of the
/// ASCII characters, exactly the digits '0' to '9' are in a number category.
#[verifier::external_body]
pub(crate) fn is_numeric(c: char) -> (b: bool)
    ensures
        b == numeric(c),
        c <= '\u{7f}' ==> (b <==> ('0' <= c && c <= '9')),
{
    c.is_numeric()
}

} // verus!
