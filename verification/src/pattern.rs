//! Regular-expression searches through the `regex` crate.

use vstd::prelude::*;
use regex::Regex;

verus! {

/// Whether `regex` accepts `pattern` (what `Regex::new` decides).
pub uninterp spec fn regex_valid(pattern: Seq<char>) -> bool;

/// The text of capture group 1 of the leftmost-first match of `pattern` in
/// `text`, if there is a match (what `Regex::captures` finds). Where group 1
/// took no part in the match, its text is empty.
pub uninterp spec fn regex_first_group(pattern: Seq<char>, text: Seq<char>) -> Option<Seq<char>>;

/// The text of capture group 1 of every successive non-overlapping match of
/// `pattern` in `text` (what `Regex::captures_iter` yields), empty where group
/// 1 took no part.
pub uninterp spec fn regex_all_first_groups(pattern: Seq<char>, text: Seq<char>) -> Seq<Seq<char>>;

/// `Regex::new(pattern).is_ok()`. Claimed: depends on the pattern alone.
#[verifier::external_body]
pub(crate) fn regex_compiles(pattern: &str) -> (r: bool)
    ensures
        r == regex_valid(pattern@),
{
    Regex::new(pattern).is_ok()
}

/// `Regex::new(pattern)`, then `captures(text)` and its group 1. Claimed: the
/// result depends on the pattern and the text alone.
#[verifier::external_body]
pub(crate) fn first_group(pattern: &str, text: &str) -> (r: Option<String>)
    requires
        regex_valid(pattern@),
    ensures
        match r {
            Some(g) => regex_first_group(pattern@, text@) == Some(g@),
            None => regex_first_group(pattern@, text@) is None,
        },
{
    let re = Regex::new(pattern).unwrap();
    re.captures(text).map(|c| c.get(1).map_or(String::new(), |m| m.as_str().to_string()))
}

/// `Regex::new(pattern)`, then `captures_iter(text)` and the group 1 of each
/// match. Claimed: the result depends on the pattern and the text alone.
#[verifier::external_body]
pub(crate) fn all_first_groups(pattern: &str, text: &str) -> (r: Vec<String>)
    requires
        regex_valid(pattern@),
    ensures
        r@.map_values(|g: String| g@) == regex_all_first_groups(pattern@, text@),
{
    let re = Regex::new(pattern).unwrap();
    re.captures_iter(text).map(|c| c.get(1).map_or(String::new(), |m| m.as_str().to_string())).collect()
}

} // verus!
