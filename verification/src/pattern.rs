//! Tokenization-pattern validation: the word-level diff pattern must be a
//! valid regular expression, compiled by the regex crate.

use vstd::prelude::*;
use crate::error::ConfigError;
use vstd::string::StringExecFns;

verus! {

#[verifier::external_type_specification]
#[verifier::external_body]
pub struct ExRegex(regex::Regex);

/// Whether a pattern string is a valid regular expression: compilation
/// succeeds or fails on the pattern's characters alone.
pub uninterp spec fn regex_pattern_valid(pattern: Seq<char>) -> bool;

/// Relies on regex::Regex::new: it returns Ok exactly when the pattern
/// string compiles, and that depends on the pattern alone.
#[verifier::external_body]
fn compile_regex(pattern: &str) -> (r: Option<regex::Regex>)
    ensures
        (r matches Some(re)) <==> regex_pattern_valid(pattern@),
{
    match regex::Regex::new(pattern) {
        Ok(re) => Some(re),
        Err(_) => None,
    }
}

/// Compiles the word-level diff pattern; an invalid pattern is fatal.
pub fn compile_tokenization_pattern(pattern: &str) -> (r: Result<regex::Regex, ConfigError>)
    ensures
        (r matches Ok(re)) <==> regex_pattern_valid(pattern@),
        r matches Err(e) ==> (e matches ConfigError::InvalidPattern { pattern: p } && p@
            == pattern@),
{
    match compile_regex(pattern) {
        Some(re) => Ok(re),
        None => Err(ConfigError::InvalidPattern { pattern: String::from_str(pattern) }),
    }
}

} // verus!
