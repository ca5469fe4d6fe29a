//! Regular expressions, as far as the library uses them: compiling a pattern
//! and searching one line for its first match. The matching itself is the
//! `regex` crate's work and is taken on trust here.

use crate::capture::group_texts;
use regex::Regex;
use vstd::prelude::*;

verus! {

/// A compiled regular expression of the `regex` crate.
#[verifier::external_type_specification]
#[verifier::external_body]
pub struct ExRegex(regex::Regex);

/// The error that the `regex` crate gives for a pattern it cannot compile.
#[verifier::external_type_specification]
#[verifier::external_body]
pub struct ExRegexError(regex::Error);

/// Whether the `regex` crate, in its default configuration, compiles
/// `pattern` (`Regex::new` returns `Ok`).
pub uninterp spec fn regex_compiles(pattern: Seq<char>) -> bool;

/// The pattern text that a compiled expression was made from: what
/// `Regex::as_str` returns for it.
pub uninterp spec fn regex_source(re: &Regex) -> Seq<char>;

/// What the first match of `pattern` in `haystack` captures, as
/// `Regex::captures` reports it: `None` where the pattern matches nowhere,
/// else the text of every capture group, the whole match at index 0, with
/// `None` for a group that took no part in the match.
pub uninterp spec fn regex_captures(pattern: Seq<char>, haystack: Seq<char>) -> Option<
    Seq<Option<Seq<char>>>,
>;

/// `Regex::new`: compiles a pattern in the default configuration. It succeeds
/// on exactly the patterns that `regex_compiles` holds of, and the expression
/// it returns keeps the pattern text it was given.
pub assume_specification[ regex::Regex::new ](re: &str) -> (compiled: Result<Regex, regex::Error>)
    ensures
        compiled is Ok <==> regex_compiles(re@),
        compiled matches Ok(regex) ==> regex_source(&regex) == re@,
;

/// `Regex::as_str`: the pattern text that a compiled expression was made
/// from.
pub assume_specification<'a>[ regex::Regex::as_str ](re: &'a Regex) -> (source: &'a str)
    ensures
        source@ == regex_source(re),
;

/// `Regex::captures`, with each group of the result copied out as text (by
/// `Captures::iter` and `Match::as_str`): the capture groups of the first
/// match of the expression in `haystack`. For an expression that `Regex::new`
/// made, as every expression of this library is, they depend on the
/// expression's pattern and on the haystack alone.
#[verifier::external_body]
pub(crate) fn first_captures(re: &Regex, haystack: &str) -> (found: Option<Vec<Option<String>>>)
    ensures
        match found {
            Some(groups) => regex_captures(regex_source(re), haystack@) == Some(
                group_texts(groups@),
            ),
            None => regex_captures(regex_source(re), haystack@) is None,
        },
{
    re.captures(haystack).map(
        |caps| caps.iter().map(|group| group.map(|m| m.as_str().to_owned())).collect(),
    )
}

} // verus!
