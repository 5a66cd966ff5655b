//! Regular-expression search, as the `regex` crate performs it.

use vstd::prelude::*;

verus! {

/// What a search for `pattern` in `haystack` gives: `None` when the pattern is
/// refused (invalid syntax, or a compiled program over the size limit),
/// otherwise whether the pattern matches anywhere in the haystack.
pub uninterp spec fn regex_found(pattern: Seq<char>, haystack: Seq<char>) -> Option<bool>;

/// Compiles `pattern` with `regex::Regex::new` and asks `Regex::is_match` for
/// `haystack`. Trusted: the result is the search outcome named by
/// [`regex_found`]; nothing is claimed about which patterns compile or match.
#[verifier::external_body]
pub(crate) fn search(pattern: &str, haystack: &str) -> (r: Option<bool>)
    ensures
        r == regex_found(pattern@, haystack@),
{
    match regex::Regex::new(pattern) {
        Ok(compiled) => Some(compiled.is_match(haystack)),
        Err(_) => None,
    }
}

} // verus!
