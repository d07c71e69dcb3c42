//! Compiled regular expressions: the library searches with the `regex`
//! crate and states what it relies on.

use regex::Regex;
use vstd::prelude::*;

verus! {

/// `regex::Regex`: a compiled regular expression. The library looks into
/// none; it hands them to the crate's own functions.
#[verifier::external_type_specification]
#[verifier::external_body]
pub struct ExRegex(regex::Regex);

/// `regex::Error`: why the crate refused a pattern.
#[verifier::external_type_specification]
#[verifier::external_body]
pub struct ExRegexError(regex::Error);

/// `Regex::as_str`: the pattern text that a compiled expression was made
/// from.
pub uninterp spec fn regex_source(re: Regex) -> Seq<char>;

/// `Regex::new`: whether a pattern text is accepted, that is, whether it is
/// well formed and compiles within the crate's size limit.
pub uninterp spec fn regex_accepts(pattern: Seq<char>) -> bool;

/// `Regex::is_match`: whether the expression compiled from `pattern` matches
/// anywhere in `haystack`.
pub uninterp spec fn regex_matches(pattern: Seq<char>, haystack: Seq<char>) -> bool;

/// `Regex::captures`: the text of the first capture group in the leftmost
/// match of the expression compiled from `pattern` in `haystack`; none where
/// there is no match or the group took no part in it.
pub uninterp spec fn regex_first_group(pattern: Seq<char>, haystack: Seq<char>) -> Option<
    Seq<char>,
>;

/// `Regex::new` on `pattern`. The crate compiles a pattern with its default
/// settings, so the answer depends on the pattern alone; the expression it
/// hands back remembers the pattern it was made from.
#[verifier::external_body]
pub(crate) fn regex_new(pattern: &str) -> (r: Result<Regex, regex::Error>)
    ensures
        r is Ok <==> regex_accepts(pattern@),
        r matches Ok(re) ==> regex_source(re) == pattern@,
{
    Regex::new(pattern)
}

/// `Clone` of a compiled expression: the copy comes from the same pattern.
pub assume_specification[ <regex::Regex as Clone>::clone ](re: &Regex) -> (r: Regex)
    ensures
        regex_source(r) == regex_source(*re),
;

/// `Regex::is_match` of `re` on `haystack`.
#[verifier::external_body]
pub(crate) fn regex_is_match(re: &Regex, haystack: &str) -> (b: bool)
    ensures
        b == regex_matches(regex_source(*re), haystack@),
{
    re.is_match(haystack)
}

/// `Regex::captures` of `re` on `haystack`, and of the captures the text of
/// group one.
#[verifier::external_body]
pub(crate) fn regex_capture(re: &Regex, haystack: &str) -> (r: Option<String>)
    ensures
        match r {
            Some(s) => regex_first_group(regex_source(*re), haystack@) == Some(s@),
            None => regex_first_group(regex_source(*re), haystack@) is None,
        },
{
    re.captures(haystack).and_then(|c| c.get(1)).map(|m| m.as_str().to_owned())
}

/// The text with which the `regex` crate describes why it refused a pattern
/// (`Display` of `regex::Error`). Nothing is promised of it.
#[verifier::external_body]
pub(crate) fn regex_error_text(e: &regex::Error) -> (s: String) {
    e.to_string()
}

} // verus!
