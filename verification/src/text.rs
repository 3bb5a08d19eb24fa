use vstd::prelude::*;

verus! {

/// `needle` stands in `text` from position `at` on.
pub open spec fn occurs_at(text: Seq<char>, needle: Seq<char>, at: int) -> bool {
    &&& 0 <= at
    &&& at + needle.len() <= text.len()
    &&& text.subrange(at, at + needle.len()) == needle
}

/// `needle` stands somewhere in `text`.
pub open spec fn has_substring(text: Seq<char>, needle: Seq<char>) -> bool {
    exists|at: int| occurs_at(text, needle, at)
}

/// `PartialEq::eq` of std on `str`: true where the two slices hold the same
/// characters, and false where they do not.
pub assume_specification[ <str as PartialEq>::eq ](a: &str, b: &str) -> (equal: bool)
    ensures
        equal == (a@ == b@),
;

/// `str::contains` of std, called with a string slice as the pattern: true
/// where the pattern matches a sub-slice of the text, that is where the
/// characters of `needle` stand in a row somewhere in `text`, and false
/// where they do not.
#[verifier::external_body]
pub(crate) fn contains(text: &str, needle: &str) -> (found: bool)
    ensures
        found == has_substring(text@, needle@),
{
    text.contains(needle)
}

} // verus!
