//! Regular expressions, as far as the library needs them.
//!
//! Matching is done by the `regex` crate. What it returns is given a name
//! here, as a function of the pattern's text and of the haystack, and the
//! functions below hand the crate's results over as owned strings. The
//! contracts of those four functions are taken on trust from the crate.
//!
//! The groups of one match are a sequence: group 0 is the whole match, group
//! `i` the text that the `i`-th parenthesis took, `None` for a group that
//! took no part in the match.

use regex::Regex;
use vstd::prelude::*;
use vstd::string::*;
use crate::decimal::{decimal_number, parse_decimal};

verus! {

/// Why `Regex::new` refuses `pattern`: the text of its error, or `None` for a
/// pattern that compiles.
pub uninterp spec fn regex_error(pattern: Seq<char>) -> Option<Seq<char>>;

/// What `Regex::captures` finds in `haystack` for the expression that
/// `Regex::new` compiles from `pattern`: the groups of the leftmost match,
/// or `None` where nothing matches or the pattern does not compile.
pub uninterp spec fn regex_captures(pattern: Seq<char>, haystack: Seq<char>) -> Option<
    Seq<Option<Seq<char>>>,
>;

/// What `Regex::captures_iter` yields on `haystack` for the expression that
/// `Regex::new` compiles from `pattern`: the groups of each successive
/// non-overlapping match, in the order of the haystack; empty where the
/// pattern does not compile.
pub uninterp spec fn regex_captures_all(pattern: Seq<char>, haystack: Seq<char>) -> Seq<
    Seq<Option<Seq<char>>>,
>;

/// What `Regex::replace_all` returns for the expression that `Regex::new`
/// compiles from `pattern`: `haystack` with every non-overlapping match
/// replaced by the expansion of `replacement`; `haystack` itself where the
/// pattern does not compile.
pub uninterp spec fn regex_replace_all(
    pattern: Seq<char>,
    haystack: Seq<char>,
    replacement: Seq<char>,
) -> Seq<char>;

/// Calls `Regex::new` on `pattern` and hands back the text of the error, as
/// its `to_string` gives it, if there is one. Trusted: the result is what
/// `regex_error` names.
#[verifier::external_body]
pub(crate) fn pattern_error(pattern: &str) -> (error: Option<String>)
    ensures
        error.deep_view() == regex_error(pattern@),
{
    Regex::new(pattern).err().map(|e| e.to_string())
}

/// Calls `Regex::new` on `pattern` and `Regex::captures` on `haystack`, and
/// copies the text of each group of the match, in the order of
/// `Captures::iter`. Trusted: the result is what `regex_captures` names.
#[verifier::external_body]
pub(crate) fn captures(pattern: &str, haystack: &str) -> (groups: Option<Vec<Option<String>>>)
    ensures
        groups.deep_view() == regex_captures(pattern@, haystack@),
{
    let re = Regex::new(pattern).ok()?;
    let found = re.captures(haystack)?;
    Some(found.iter().map(|m| m.map(|m| m.as_str().to_string())).collect())
}

/// Calls `Regex::new` on `pattern` and `Regex::captures_iter` on `haystack`,
/// and copies the text of each group of each match, in the order of
/// `Captures::iter`. Trusted: the result is what `regex_captures_all` names.
#[verifier::external_body]
pub(crate) fn captures_all(pattern: &str, haystack: &str) -> (matches: Vec<Vec<Option<String>>>)
    ensures
        matches.deep_view() == regex_captures_all(pattern@, haystack@),
{
    match Regex::new(pattern) {
        Ok(re) => re.captures_iter(haystack).map(
            |found| found.iter().map(|m| m.map(|m| m.as_str().to_string())).collect(),
        ).collect(),
        Err(_) => Vec::new(),
    }
}

/// Calls `Regex::new` on `pattern` and `Regex::replace_all` on `haystack`
/// with `replacement`. Trusted: the result is what `regex_replace_all`
/// names.
#[verifier::external_body]
pub(crate) fn replace_all(pattern: &str, haystack: &str, replacement: &str) -> (text: String)
    ensures
        text@ == regex_replace_all(pattern@, haystack@, replacement@),
{
    match Regex::new(pattern) {
        Ok(re) => re.replace_all(haystack, replacement).into_owned(),
        Err(_) => haystack.to_string(),
    }
}

/// The text of group `i`, if the match has such a group and it took part.
pub open spec fn group_text(groups: Seq<Option<Seq<char>>>, i: int) -> Option<Seq<char>> {
    if 0 <= i < groups.len() {
        groups[i]
    } else {
        None
    }
}

/// The number that group `i` denotes in decimal, if it denotes one.
pub open spec fn group_number(groups: Seq<Option<Seq<char>>>, i: int) -> Option<u64> {
    match group_text(groups, i) {
        Some(text) => decimal_number(text),
        None => None,
    }
}

/// Reads group `i` of a match as a decimal number.
pub fn number_of_group(groups: &Vec<Option<String>>, i: usize) -> (value: Option<u64>)
    ensures
        value == group_number(groups.deep_view(), i as int),
{
    if i < groups.len() {
        match &groups[i] {
            Some(text) => parse_decimal(text.as_str()),
            None => None,
        }
    } else {
        None
    }
}

} // verus!
