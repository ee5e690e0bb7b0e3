//! Operations on text that the standard library supplies.

use vstd::prelude::*;

verus! {

/// The text in lower case, as `str::to_lowercase` gives it.
pub uninterp spec fn lowercase_text(text: Seq<char>) -> Seq<char>;

/// Whether `needle` occurs in `hay` as a run of consecutive characters.
pub open spec fn has_substring(hay: Seq<char>, needle: Seq<char>) -> bool {
    exists|from: int, to: int|
        0 <= from <= to <= hay.len() && #[trigger] hay.subrange(from, to) == needle
}

/// The text without the characters `c` at its end.
pub open spec fn without_trailing(text: Seq<char>, c: char) -> Seq<char>
    decreases text.len(),
{
    if text.len() > 0 && text.last() == c {
        without_trailing(text.drop_last(), c)
    } else {
        text
    }
}

/// Calls `str::eq`: two texts are equal when they hold the same characters.
#[verifier::external_body]
pub(crate) fn same_text(a: &str, b: &str) -> (same: bool)
    ensures
        same == (a@ == b@),
{
    a == b
}

/// Calls `str::to_lowercase`, whose result depends on the text alone.
#[verifier::external_body]
pub(crate) fn lowercase(text: &str) -> (lower: String)
    ensures
        lower@ == lowercase_text(text@),
{
    text.to_lowercase()
}

/// Calls `str::contains` with a text as the pattern: whether the pattern
/// occurs somewhere in the text.
#[verifier::external_body]
pub(crate) fn contains_text(hay: &str, needle: &str) -> (found: bool)
    ensures
        found == has_substring(hay@, needle@),
{
    hay.contains(needle)
}

/// Calls `str::trim_end_matches` with a character as the pattern: the text
/// with every repetition of the character removed from its end.
#[verifier::external_body]
pub(crate) fn trim_trailing(text: &str, c: char) -> (trimmed: &str)
    ensures
        trimmed@ == without_trailing(text@, c),
{
    text.trim_end_matches(c)
}

/// A copy of a list of texts.
pub fn copy_texts(list: &Vec<String>) -> (copy: Vec<String>)
    ensures
        copy.deep_view() == list.deep_view(),
{
    let mut copy: Vec<String> = Vec::new();
    let mut k: usize = 0;
    while k < list.len()
        invariant
            k <= list.len(),
            copy.len() == k,
            forall|i: int| 0 <= i < k ==> (#[trigger] copy[i])@ == list[i]@,
        decreases list.len() - k,
    {
        copy.push(list[k].clone());
        k += 1;
    }
    assert(copy.deep_view() =~= list.deep_view());
    copy
}

} // verus!
