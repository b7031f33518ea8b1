//! Two operations of `str` that the routing and the asset lookup need.

use vstd::prelude::*;

verus! {

/// `text` without the slashes it starts with.
pub open spec fn without_leading_slashes(text: Seq<char>) -> Seq<char>
    decreases text.len(),
{
    if text.len() > 0 && text[0] == '/' {
        without_leading_slashes(text.drop_first())
    } else {
        text
    }
}

/// What is left is a tail of the text, no longer than the text, and does not
/// start with a slash.
pub proof fn lemma_without_leading_slashes(text: Seq<char>)
    ensures
        without_leading_slashes(text).len() <= text.len(),
        without_leading_slashes(text) == text.skip(
            text.len() - without_leading_slashes(text).len(),
        ),
        without_leading_slashes(text).len() > 0 ==> without_leading_slashes(text)[0] != '/',
        forall|i: int|
            0 <= i < text.len() - without_leading_slashes(text).len() ==> text[i] == '/',
    decreases text.len(),
{
    if text.len() > 0 && text[0] == '/' {
        let rest = text.drop_first();
        lemma_without_leading_slashes(rest);
        let kept = without_leading_slashes(rest);
        assert(rest.skip(rest.len() - kept.len()) =~= text.skip(text.len() - kept.len()));
        assert forall|i: int| 0 <= i < text.len() - kept.len() implies text[i] == '/' by {
            if i > 0 {
                assert(text[i] == rest[i - 1]);
            }
        }
    } else {
        assert(text.skip(0) =~= text);
    }
}

/// Compares two string slices with `==` of `str`: true exactly when they
/// hold the same characters.
#[verifier::external_body]
pub(crate) fn same_text(a: &str, b: &str) -> (same: bool)
    ensures
        same == (a@ == b@),
{
    a == b
}

/// Calls `str::trim_start_matches` with the pattern `'/'`, which removes
/// every slash the text starts with and returns the rest.
#[verifier::external_body]
pub(crate) fn trim_leading_slashes(text: &str) -> (rest: &str)
    ensures
        rest@ == without_leading_slashes(text@),
{
    text.trim_start_matches('/')
}

} // verus!
