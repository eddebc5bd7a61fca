//! Pattern matching on lines of tool output, done by the `regex` crate.
//!
//! This module holds what is taken on trust about that crate; nothing else in
//! the library calls it.

use vstd::prelude::*;

verus! {

/// What a search of `haystack` for the regular expression `pattern` yields:
/// `None` where `pattern` does not compile or nothing matches, else the
/// capture groups of the leftmost match, group 0 (the whole match) first,
/// each with the text it matched or `None` where it took no part.
pub uninterp spec fn regex_captures(pattern: Seq<char>, haystack: Seq<char>) -> Option<
    Seq<Option<Seq<char>>>,
>;

/// Compiles `pattern` with `regex::Regex::new`, searches `haystack` with
/// `regex::Regex::captures`, and copies out the groups of the match with
/// `regex::Captures::iter` and `regex::Match::as_str`. The expression is
/// compiled at each call, so that the result depends on the two texts alone.
///
/// Trusted: the groups returned are those that the crate finds in
/// `haystack` for `pattern`. Nothing is claimed about which texts match.
#[verifier::external_body]
pub(crate) fn capture_groups(pattern: &str, haystack: &str) -> (found: Option<Vec<Option<String>>>)
    ensures
        found.deep_view() == regex_captures(pattern@, haystack@),
{
    let compiled = regex::Regex::new(pattern).ok()?;
    let captures = compiled.captures(haystack)?;
    Some(captures.iter().map(|group| group.map(|m| m.as_str().to_string())).collect())
}

} // verus!
