//! Fixture-name filtering by glob pattern. The matching itself is done by
//! the `glob` crate; this crate only names its results, so the pipeline's
//! contracts can say exactly which fixtures a selection keeps.

use vstd::prelude::*;

verus! {

/// Whether a pattern string compiles as a glob pattern. What `glob` accepts
/// depends on the pattern string alone.
pub uninterp spec fn glob_pattern_ok(pattern: Seq<char>) -> bool;

/// Whether a name matches a glob pattern under the crate's default options.
/// The result depends on the pattern and name strings alone.
pub uninterp spec fn glob_match_of(pattern: Seq<char>, name: Seq<char>) -> bool;

/// Relies on glob::Pattern::new: compiling a pattern is deterministic in the
/// pattern string, so its success is a function of that string.
#[verifier::external_body]
pub(crate) fn glob_pattern_valid(pattern: &str) -> (r: bool)
    ensures
        r == glob_pattern_ok(pattern@),
{
    glob::Pattern::new(pattern).is_ok()
}

/// Relies on glob::Pattern::new and glob::Pattern::matches: both are
/// deterministic in their string arguments, so the match result is a
/// function of the pattern and the name; a pattern that does not compile
/// yields no result.
#[verifier::external_body]
pub(crate) fn glob_match(pattern: &str, name: &str) -> (r: Option<bool>)
    ensures
        r is Some <==> glob_pattern_ok(pattern@),
        r matches Some(b) ==> b == glob_match_of(pattern@, name@),
{
    match glob::Pattern::new(pattern) {
        Ok(p) => Some(p.matches(name)),
        Err(_) => None,
    }
}

} // verus!
