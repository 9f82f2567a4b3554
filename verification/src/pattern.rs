//! Compiled text patterns, matched by the `regex` crate.
use vstd::prelude::*;

use crate::api::ApiError;

verus! {

#[verifier::external_type_specification]
#[verifier::external_body]
pub struct ExRegex(regex::Regex);

#[verifier::external_type_specification]
#[verifier::external_body]
pub struct ExRegexError(regex::Error);

/// Whether `regex::Regex::new` accepts the pattern (a valid syntax that fits
/// the default size limit).
pub uninterp spec fn pattern_compiles(pattern: Seq<char>) -> bool;

/// The text of the leftmost-first match that `regex::Regex::find` reports for
/// the pattern in the haystack, if any.
pub uninterp spec fn first_match(pattern: Seq<char>, haystack: Seq<char>) -> Option<Seq<char>>;

/// The text of capture group `group` of the first match that
/// `regex::Regex::captures` reports for the pattern in the haystack, if the
/// pattern matches there and the group took part in that match.
pub uninterp spec fn captured_group(pattern: Seq<char>, haystack: Seq<char>, group: int) -> Option<Seq<char>>;

/// `part` occurs as a contiguous run of characters in `whole`.
pub open spec fn is_infix(part: Seq<char>, whole: Seq<char>) -> bool {
    exists|i: int|
        0 <= i && i + part.len() <= whole.len() && #[trigger] whole.subrange(i, i + part.len()) == part
}

/// The view of an optional string.
pub open spec fn opt_text(o: Option<String>) -> Option<Seq<char>> {
    match o {
        Some(s) => Some(s@),
        None => None,
    }
}

/// Calls `regex::Regex::new`. Claims that it succeeds exactly when the pattern
/// compiles, which depends on the pattern alone; nothing is claimed of the
/// compiled value beyond what the matching items below state.
#[verifier::external_body]
fn compile_regex(pattern: &str) -> (r: Result<regex::Regex, regex::Error>)
    ensures
        r is Ok <==> pattern_compiles(pattern@),
{
    regex::Regex::new(pattern)
}

/// A pattern together with its compiled form. The compiled form is set only by
/// `TextPattern::new`, from `source`, so the two always agree.
pub struct TextPattern {
    source: String,
    compiled: regex::Regex,
}

impl TextPattern {
    /// The pattern text this value was compiled from.
    pub closed spec fn source(&self) -> Seq<char> {
        self.source@
    }

    /// Compiles `source`; a pattern that `regex` refuses gives
    /// `ApiError::InvalidPattern`.
    pub fn new(source: &str) -> (r: Result<TextPattern, ApiError>)
        ensures
            r is Ok <==> pattern_compiles(source@),
            r matches Ok(p) ==> p.source() == source@,
            r matches Err(e) ==> e == ApiError::InvalidPattern,
    {
        match compile_regex(source) {
            Ok(compiled) => Ok(TextPattern { source: String::from_str(source), compiled }),
            Err(_) => Err(ApiError::InvalidPattern),
        }
    }

    /// Calls `regex::Regex::find` and hands out the matched text
    /// (`Match::as_str`). Claims that the result is the named leftmost match
    /// of the source pattern, and that a matched text is a contiguous part of
    /// the haystack, as `Match::as_str` slices the haystack by the match range.
    #[verifier::external_body]
    pub(crate) fn find_text(&self, haystack: &str) -> (r: Option<String>)
        ensures
            opt_text(r) == first_match(self.source(), haystack@),
            r matches Some(s) ==> is_infix(s@, haystack@),
    {
        self.compiled.find(haystack).map(|m| m.as_str().to_string())
    }

    /// Calls `regex::Regex::captures` and hands out the text of group `group`
    /// (`Captures::get`, `Match::as_str`). Claims that the result is the named
    /// capture of the source pattern, and that a captured text is a contiguous
    /// part of the haystack.
    #[verifier::external_body]
    pub(crate) fn capture_text(&self, haystack: &str, group: usize) -> (r: Option<String>)
        ensures
            opt_text(r) == captured_group(self.source(), haystack@, group as int),
            r matches Some(s) ==> is_infix(s@, haystack@),
    {
        self.compiled.captures(haystack).and_then(|c| c.get(group)).map(|m| m.as_str().to_string())
    }
}

} // verus!
