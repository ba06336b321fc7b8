//! Regular expressions on entry names.
use vstd::prelude::*;

verus! {

/// Whether `pattern` is a regular expression that the `regex` crate accepts.
pub uninterp spec fn regex_compiles(pattern: Seq<char>) -> bool;

/// Whether the regular expression `pattern` has a match anywhere in `text`.
/// It has a meaning only for a pattern that compiles.
pub uninterp spec fn regex_finds(pattern: Seq<char>, text: Seq<char>) -> bool;

/// Searches `text` for a match of `pattern`; `None` if the pattern is not a
/// valid regular expression.
///
/// Trusted: `regex::Regex::new` followed by `regex::Regex::is_match`. The
/// contract only gives their results names: whether the pattern compiles, and
/// whether the compiled expression matches somewhere in the text.
#[verifier::external_body]
pub(crate) fn regex_search(pattern: &str, text: &str) -> (r: Option<bool>)
    ensures
        r == if regex_compiles(pattern@) {
            Some(regex_finds(pattern@, text@))
        } else {
            None
        },
{
    match regex::Regex::new(pattern) {
        Ok(re) => Some(re.is_match(text)),
        Err(_) => None,
    }
}

/// Tells whether `pattern` matches somewhere in `name`; `None` if the
/// pattern is not a valid regular expression.
pub fn name_matches(pattern: &str, name: &str) -> (r: Option<bool>)
    ensures
        r is Some <==> regex_compiles(pattern@),
        r matches Some(found) ==> found == regex_finds(pattern@, name@),
{
    regex_search(pattern, name)
}

} // verus!
