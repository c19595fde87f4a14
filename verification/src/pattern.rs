//! The regular-expression engine, as far as the library uses it.

use crate::text::option_view;
use regex::Regex;
use vstd::prelude::*;

verus! {

/// The error with which `regex` refuses a pattern.
#[verifier::external_type_specification]
#[verifier::external_body]
pub struct ExPatternError(regex::Error);

/// Whether `regex::Regex::new` compiles `pattern`.
pub uninterp spec fn pattern_accepted(pattern: Seq<char>) -> bool;

/// What capture group `group` holds in the first match of `pattern` in
/// `haystack`, as `regex::Regex::captures` finds it; `None` where nothing
/// matches or the group took no part in the match.
pub uninterp spec fn captured(pattern: Seq<char>, haystack: Seq<char>, group: nat) -> Option<
    Seq<char>,
>;

/// Compiles `pattern` with `regex::Regex::new` and searches `haystack` with
/// `regex::Regex::captures`.
///
/// Trusted: the engine's answer depends on the pattern, the haystack and the
/// group alone. An error comes exactly where the engine refuses the pattern;
/// otherwise the result is the text of the group in the first match, read
/// with `regex::Captures::get` and `regex::Match::as_str`.
#[verifier::external_body]
pub(crate) fn first_capture(pattern: &str, haystack: &str, group: usize) -> (r: Result<
    Option<String>,
    regex::Error,
>)
    ensures
        r is Ok == pattern_accepted(pattern@),
        r matches Ok(found) ==> option_view(found) == captured(pattern@, haystack@, group as nat),
{
    match Regex::new(pattern) {
        Ok(re) => Ok(
            re.captures(haystack).and_then(|caps| caps.get(group)).map(|m| m.as_str().to_string()),
        ),
        Err(e) => Err(e),
    }
}

} // verus!
