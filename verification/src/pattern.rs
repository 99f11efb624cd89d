//! Regular expressions, as the `regex` crate matches them.

use vstd::prelude::*;

verus! {

/// The error of the `regex` crate for a pattern that it cannot compile.
#[verifier::external_type_specification]
#[verifier::external_body]
pub struct ExRegexError(regex::Error);

/// Whether `regex::Regex::new` compiles `pattern`.
///
/// This holds of one build of the program. A pattern is refused for its
/// syntax or for the size of what it compiles to, and that size is counted
/// in memory: a pattern at the very edge of the limit may compile for one
/// pointer width and not for another. Within one build the pattern alone
/// decides.
pub uninterp spec fn pattern_compiles(pattern: Seq<char>) -> bool;

/// Whether the regular expression `pattern` matches anywhere in `text`.
pub uninterp spec fn pattern_found(pattern: Seq<char>, text: Seq<char>) -> bool;

/// A pattern that could not be compiled, with the reason in words.
#[derive(Debug, PartialEq, Eq)]
pub struct PatternError {
    pub reason: String,
}

/// Compiles `pattern` with `regex::Regex::new` and searches `text` with
/// `Regex::is_match`.
///
/// Trusted: the search fails exactly when `Regex::new` refuses the pattern,
/// which the pattern alone decides. Where the pattern compiles, the answer is
/// what `is_match` returns, which is true exactly when the expression has a
/// match somewhere in the text and depends on the pattern and the text alone.
#[verifier::external_body]
fn search(pattern: &str, text: &str) -> (found: Result<bool, regex::Error>)
    ensures
        found is Ok <==> pattern_compiles(pattern@),
        found matches Ok(answer) ==> answer == pattern_found(pattern@, text@),
{
    match regex::Regex::new(pattern) {
        Ok(expression) => Ok(expression.is_match(text)),
        Err(error) => Err(error),
    }
}

/// Renders an error of the `regex` crate with its `Display` implementation.
///
/// Trusted: nothing is claimed of the text.
#[verifier::external_body]
fn reason_of(error: &regex::Error) -> String {
    error.to_string()
}

/// What a search came to, in the terms of this crate: the answer as it is,
/// and in place of an error of the `regex` crate its reason in words.
pub fn outcome_of(searched: Result<bool, regex::Error>) -> (found: Result<bool, PatternError>)
    ensures
        found is Ok <==> searched is Ok,
        searched matches Ok(answer) ==> found == Ok::<bool, PatternError>(answer),
{
    match searched {
        Ok(answer) => Ok(answer),
        Err(error) => Err(PatternError { reason: reason_of(&error) }),
    }
}

/// Whether the regular expression `pattern` matches anywhere in `text`.
///
/// Fails exactly when the pattern cannot be compiled.
pub fn matches_pattern(pattern: &str, text: &str) -> (found: Result<bool, PatternError>)
    ensures
        found is Ok <==> pattern_compiles(pattern@),
        found matches Ok(answer) ==> answer == pattern_found(pattern@, text@),
{
    outcome_of(search(pattern, text))
}

} // verus!
