//! Regular-expression matching, done by the `regex` crate.
use regex::Regex;
use vstd::prelude::*;

verus! {

/// What group 1 of the first match of `pattern` in `text` holds: `None` where
/// the pattern is not a valid expression, where it matches nowhere in the
/// text, or where group 1 took no part in the match.
pub uninterp spec fn regex_first_group(pattern: Seq<char>, text: Seq<char>) -> Option<Seq<char>>;

/// Compiles `pattern` with `regex::Regex::new`, searches `text` with
/// `Regex::captures` and reads group 1 with `Captures::at`.
///
/// Nothing is proved of this function. Its contract only gives the outcome a
/// name: matching depends on the pattern and the text alone.
#[verifier::external_body]
pub(crate) fn first_group(pattern: &str, text: &str) -> (group: Option<String>)
    ensures
        match group {
            Some(g) => regex_first_group(pattern@, text@) == Some(g@),
            None => regex_first_group(pattern@, text@).is_none(),
        },
{
    match Regex::new(pattern) {
        Ok(re) => match re.captures(text) {
            Some(caps) => match caps.at(1) {
                Some(g) => Some(g.to_string()),
                None => None,
            },
            None => None,
        },
        Err(_) => None,
    }
}

} // verus!
