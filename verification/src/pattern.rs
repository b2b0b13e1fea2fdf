//! Regular-expression search, as far as the rule engine needs it.

use regex::Regex;
use vstd::prelude::*;

verus! {

/// The error with which the `regex` crate rejects a pattern.
#[verifier::external_type_specification]
#[verifier::external_body]
pub struct ExPatternError(regex::Error);

/// Whether `pattern` is a regular expression that the `regex` crate
/// compiles with its default settings.
pub uninterp spec fn pattern_compiles(pattern: Seq<char>) -> bool;

/// Whether the compiled `pattern` matches somewhere in `text`.
pub uninterp spec fn pattern_found(pattern: Seq<char>, text: Seq<char>) -> bool;

/// Compiles `pattern` with `regex::Regex::new` and, where that succeeds,
/// searches `text` with `Regex::is_match`.
///
/// The contract names the two answers and claims nothing else: the call
/// fails exactly on the patterns that do not compile, with the error that
/// `Regex::new` gave, and otherwise tells whether the pattern matches
/// anywhere in `text`.
#[verifier::external_body]
pub(crate) fn search(pattern: &str, text: &str) -> (found: Result<bool, regex::Error>)
    ensures
        found is Ok <==> pattern_compiles(pattern@),
        found matches Ok(hit) ==> hit == pattern_found(pattern@, text@),
{
    match Regex::new(pattern) {
        Ok(compiled) => Ok(compiled.is_match(text)),
        Err(error) => Err(error),
    }
}

} // verus!
