//! Regular expressions, as the `regex` crate understands them.

use vstd::prelude::*;

verus! {

/// The error of the `regex` crate: a pattern that it does not accept.
#[verifier::external_type_specification]
#[verifier::external_body]
pub struct ExRegexError(regex::Error);

/// Whether `Regex::new` accepts `pattern`.
pub uninterp spec fn pattern_compiles(pattern: Seq<char>) -> bool;

/// Whether the regular expression `pattern` matches anywhere in `haystack`.
pub uninterp spec fn pattern_matches(pattern: Seq<char>, haystack: Seq<char>) -> bool;

/// `Regex::new` followed by `Regex::is_match` of the `regex` crate. The
/// contract claims that the error comes exactly for the patterns that
/// `Regex::new` refuses, and that otherwise the answer is whether the
/// compiled expression matches somewhere in `haystack`.
#[verifier::external_body]
pub(crate) fn regex_is_match(pattern: &str, haystack: &str) -> (r: Result<bool, regex::Error>)
    ensures
        r is Ok == pattern_compiles(pattern@),
        r is Ok ==> r->Ok_0 == pattern_matches(pattern@, haystack@),
{
    let compiled = regex::Regex::new(pattern)?;
    Ok(compiled.is_match(haystack))
}

/// What a search for `pattern` in `haystack` gives: `None` for a pattern
/// that does not compile.
pub open spec fn search(pattern: Seq<char>, haystack: Seq<char>) -> Option<bool> {
    if pattern_compiles(pattern) {
        Some(pattern_matches(pattern, haystack))
    } else {
        None
    }
}

/// Whether `pattern` matches somewhere in `haystack`; `None` for a pattern
/// that does not compile.
pub fn is_match(pattern: &str, haystack: &str) -> (found: Option<bool>)
    ensures
        found == search(pattern@, haystack@),
{
    match regex_is_match(pattern, haystack) {
        Ok(hit) => Some(hit),
        Err(_) => None,
    }
}

} // verus!
