//! Regular-expression search, done by the `regex` crate.

use regex::Regex;
use vstd::prelude::*;

verus! {

/// What `regex::Regex::captures` finds in `text` with the regex that
/// `regex::Regex::new` builds from `pattern`.
///
/// `None` where the pattern is refused or nothing in the text matches.
/// Otherwise the leftmost match, as the text of each capture group in the
/// order of their opening parentheses, the whole match first; a group that
/// took no part in the match is `None`.
pub uninterp spec fn regex_captures(pattern: Seq<char>, text: Seq<char>) -> Option<
    Seq<Option<Seq<char>>>,
>;

/// Searches `text` for `pattern` with the `regex` crate: `Regex::new`, then
/// `Regex::captures`, each group copied out as a `String`.
///
/// Trusted: the result is the one that `regex_captures` names. Nothing more
/// is claimed of it.
#[verifier::external_body]
pub(crate) fn captures(pattern: &str, text: &str) -> (groups: Option<Vec<Option<String>>>)
    ensures
        groups.deep_view() == regex_captures(pattern@, text@),
{
    let regex = Regex::new(pattern).ok()?;
    let found = regex.captures(text)?;
    Some(found.iter().map(|group| group.map(|m| m.as_str().to_string())).collect())
}

} // verus!
