//! The regular expressions that the capture rules are built on.
//!
//! Matching is done by the `regex` crate. A `Pattern` keeps a compiled
//! expression together with the text it was compiled from, and the contracts
//! of this module speak of that text. The three functions that call into the
//! crate are taken on trust; each says what it assumes.

use regex::Regex;
use vstd::prelude::*;

verus! {

/// A compiled regular expression of the `regex` crate. Its inside is not
/// visible to the verifier.
#[verifier::external_type_specification]
#[verifier::external_body]
pub struct ExRegex(Regex);

/// The error that the `regex` crate gives for a pattern it cannot compile.
#[verifier::external_type_specification]
#[verifier::external_body]
pub struct ExRegexError(regex::Error);

/// Whether `Regex::new` accepts the pattern: it does so when the pattern is
/// well formed and its compiled form stays under the size limit of the crate.
pub uninterp spec fn pattern_compiles(pattern: Seq<char>) -> bool;

/// Whether an expression compiled from `pattern` has a match anywhere in
/// `line`, as `Regex::is_match` tells.
pub uninterp spec fn pattern_matches(pattern: Seq<char>, line: Seq<char>) -> bool;

/// What `Regex::captures` finds in `line` for an expression compiled from
/// `pattern`: nothing where there is no match, else the text of each group of
/// the leftmost match. Index 0 is the whole match, index `i` the group of the
/// `i`-th opening parenthesis, and an entry is `None` where its group took no
/// part in the match. The entries are as many as the pattern has groups, the
/// whole match counted.
pub uninterp spec fn pattern_captures(pattern: Seq<char>, line: Seq<char>) -> Option<
    Seq<Option<Seq<char>>>,
>;

/// A pattern that compiled. The only way to make one is `compile`, so the
/// expression inside is always the one that `Regex::new` built from `source`
/// with the settings that the crate starts with.
pub struct Pattern {
    source: String,
    compiled: Regex,
}

impl View for Pattern {
    type V = Seq<char>;

    /// The text that the pattern was compiled from.
    closed spec fn view(&self) -> Seq<char> {
        self.source@
    }
}

/// `Regex::new`. Assumed: it succeeds exactly on the patterns that
/// `pattern_compiles` names, and the value handed back carries the text it was
/// given. Which patterns those are is not stated.
#[verifier::external_body]
pub(crate) fn compile_regex(source: &str) -> (compiled: Result<Pattern, regex::Error>)
    ensures
        compiled.is_ok() == pattern_compiles(source@),
        compiled matches Ok(pattern) ==> pattern@ == source@,
{
    match Regex::new(source) {
        Ok(compiled) => Ok(Pattern { source: source.to_string(), compiled }),
        Err(error) => Err(error),
    }
}

/// `Regex::is_match`. Assumed: the answer depends on the pattern's text and on
/// the line alone.
#[verifier::external_body]
pub(crate) fn has_match(pattern: &Pattern, line: &str) -> (found: bool)
    ensures
        found == pattern_matches(pattern@, line@),
{
    pattern.compiled.is_match(line)
}

/// `Regex::captures`, with the groups that `Captures::iter` yields copied out
/// as owned strings, in order. Assumed: the groups depend on the pattern's
/// text and on the line alone.
#[verifier::external_body]
pub(crate) fn find_groups(pattern: &Pattern, line: &str) -> (groups: Option<Vec<Option<String>>>)
    ensures
        groups.deep_view() == pattern_captures(pattern@, line@),
{
    pattern.compiled.captures(line).map(
        |found| found.iter().map(|group| group.map(|m| m.as_str().to_string())).collect(),
    )
}

impl Pattern {
    /// The text that the pattern was compiled from.
    pub fn source(&self) -> (text: &str)
        ensures
            text@ == self@,
    {
        self.source.as_str()
    }
}

} // verus!
