//! Regular expressions, as the `regex` crate matches them.
//!
//! Verus does not see into that crate. What a search returns is therefore
//! only named here: [`regex_captures`] and [`regex_captures_all`] stand for
//! the crate's answer, and the functions of this crate that interpret an
//! answer are verified for every answer.

use crate::types::opt_text;
use vstd::prelude::*;

verus! {

/// The capture groups of the leftmost match of `pattern` in `text`: group 0
/// is the whole match, the others follow in the order of their opening
/// parenthesis, and a group that took no part in the match is `None`. The
/// result is `None` where nothing matches or `pattern` is no valid
/// expression.
pub uninterp spec fn regex_captures(pattern: Seq<char>, text: Seq<char>) -> Option<
    Seq<Option<Seq<char>>>,
>;

/// The capture groups of the successive matches of `pattern` in `text`, none
/// of which overlaps another, from left to right. There is none where
/// `pattern` is no valid expression.
pub uninterp spec fn regex_captures_all(pattern: Seq<char>, text: Seq<char>) -> Seq<
    Seq<Option<Seq<char>>>,
>;

/// What the groups of one match hold.
pub open spec fn groups_view(groups: Seq<Option<String>>) -> Seq<Option<Seq<char>>> {
    groups.map_values(|g: Option<String>| opt_text(g))
}

/// What the groups of several matches hold.
pub open spec fn matches_view(found: Seq<Vec<Option<String>>>) -> Seq<Seq<Option<Seq<char>>>> {
    found.map_values(|groups: Vec<Option<String>>| groups_view(groups@))
}

/// `regex::Regex::captures`, on the expression that `regex::Regex::new`
/// compiles from `pattern`. The contract claims that the answer depends on
/// `pattern` and `text` alone, and names it.
#[verifier::external_body]
pub(crate) fn captures(pattern: &str, text: &str) -> (r: Option<Vec<Option<String>>>)
    ensures
        match r {
            Some(groups) => regex_captures(pattern@, text@) == Some(groups_view(groups@)),
            None => regex_captures(pattern@, text@) is None,
        },
{
    let re = regex::Regex::new(pattern).ok()?;
    let found = re.captures(text)?;
    Some(found.iter().map(|m| m.map(|m| m.as_str().to_string())).collect())
}

/// `regex::Regex::captures_iter`, on the expression that `regex::Regex::new`
/// compiles from `pattern`. The contract claims that the answer depends on
/// `pattern` and `text` alone, and names it.
#[verifier::external_body]
pub(crate) fn captures_all(pattern: &str, text: &str) -> (r: Vec<Vec<Option<String>>>)
    ensures
        matches_view(r@) == regex_captures_all(pattern@, text@),
{
    match regex::Regex::new(pattern) {
        Ok(re) => re.captures_iter(text).map(
            |found| found.iter().map(|m| m.map(|m| m.as_str().to_string())).collect(),
        ).collect(),
        Err(_) => Vec::new(),
    }
}

/// Group `index` of a match: `None` where the group took no part or the
/// match has no such group.
pub open spec fn group_at(groups: Seq<Option<Seq<char>>>, index: int) -> Option<Seq<char>> {
    if 0 <= index < groups.len() {
        groups[index]
    } else {
        None
    }
}

/// Group `index` of a match.
pub fn group(groups: &Vec<Option<String>>, index: usize) -> (r: Option<&String>)
    ensures
        match r {
            Some(text) => group_at(groups_view(groups@), index as int) == Some(text@),
            None => group_at(groups_view(groups@), index as int) is None,
        },
{
    if index < groups.len() {
        match &groups[index] {
            Some(text) => Some(text),
            None => None,
        }
    } else {
        None
    }
}

} // verus!
