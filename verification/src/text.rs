//! Small helpers on strings, stated over their characters.

use vstd::prelude::*;

verus! {

/// The characters of an optional string.
pub open spec fn chars_of(text: Option<String>) -> Option<Seq<char>> {
    match text {
        Some(s) => Some(s@),
        None => None,
    }
}

/// A copy of an optional string.
pub fn copy_text(text: &Option<String>) -> (r: Option<String>)
    ensures
        chars_of(r) == chars_of(*text),
{
    match text {
        Some(s) => Some(s.clone()),
        None => None,
    }
}

/// Tells whether a string spells out the given word.
pub fn spells(text: &String, word: &str) -> (r: bool)
    ensures
        r == (text@ == word@),
{
    let word = word.to_owned();
    *text == word
}

/// The given string, or the default where none is given.
pub fn text_or(given: Option<&str>, default: &str) -> (r: String)
    ensures
        r@ == match given {
            Some(s) => s@,
            None => default@,
        },
{
    match given {
        Some(s) => s.to_owned(),
        None => default.to_owned(),
    }
}

} // verus!
