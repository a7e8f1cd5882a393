//! Regular expressions, as the `regex` crate compiles and runs them.
//!
//! Nothing about the regular-expression language is proved here. The three
//! wrappers below are believed: each gives the result of one `regex` call a
//! name, so that the contracts of the selection rules can say exactly which
//! call on which values they depend on.

use vstd::prelude::*;
use regex::Regex;

verus! {

/// Makes `regex::Regex`, a compiled regular expression, known as a type
/// whose values are carried through and never looked into.
#[verifier::external_type_specification]
#[verifier::external_body]
pub struct ExRegex(Regex);

/// Makes `regex::Error`, the reason why a pattern did not compile, known
/// as a type whose values are carried through and never looked into.
#[verifier::external_type_specification]
#[verifier::external_body]
pub struct ExRegexError(regex::Error);

/// What `regex::Regex::new` returns for a pattern.
pub uninterp spec fn regex_new(pattern: Seq<char>) -> Result<Regex, regex::Error>;

/// What `regex::Regex::is_match` returns for a compiled expression and a
/// haystack.
pub uninterp spec fn regex_is_match(re: Regex, haystack: Seq<char>) -> bool;

/// What the `Display` impl of `regex::Error` prints for an error.
pub uninterp spec fn regex_error_text(err: regex::Error) -> Seq<char>;

/// Calls `regex::Regex::new`. Believed: the outcome depends on the pattern's
/// characters alone, so it is the value that [`regex_new`] names.
#[verifier::external_body]
fn compile(pattern: &str) -> (compiled: Result<Regex, regex::Error>)
    ensures
        compiled == regex_new(pattern@),
{
    Regex::new(pattern)
}

/// Calls `regex::Regex::is_match`. Believed: whether there is a match
/// anywhere in the haystack depends on the compiled expression and the
/// haystack's characters alone, so it is the value that [`regex_is_match`]
/// names.
#[verifier::external_body]
fn is_match(re: &Regex, haystack: &str) -> (hit: bool)
    ensures
        hit == regex_is_match(*re, haystack@),
{
    re.is_match(haystack)
}

/// Renders a `regex::Error` through its `Display` impl. Believed: the text
/// depends on the error alone, so it is the value that [`regex_error_text`]
/// names.
#[verifier::external_body]
fn error_text(err: &regex::Error) -> (message: String)
    ensures
        message@ == regex_error_text(*err),
{
    err.to_string()
}

/// Whether `pattern` is a well-formed regular expression.
pub open spec fn pattern_compiles(pattern: Seq<char>) -> bool {
    regex_new(pattern) is Ok
}

/// Whether `pattern` is well formed and matches somewhere in `name`.
pub open spec fn pattern_matches(pattern: Seq<char>, name: Seq<char>) -> bool {
    match regex_new(pattern) {
        Ok(re) => regex_is_match(re, name),
        Err(_) => false,
    }
}

/// Why `pattern` is rejected, for a pattern that is not well formed.
pub open spec fn pattern_fault(pattern: Seq<char>) -> Seq<char> {
    match regex_new(pattern) {
        Ok(_) => Seq::empty(),
        Err(err) => regex_error_text(err),
    }
}

/// Checks that `pattern` is well formed, without searching anything.
///
/// Returns the fault message when it is not.
pub fn validate(pattern: &str) -> (checked: Result<(), String>)
    ensures
        checked is Ok <==> pattern_compiles(pattern@),
        checked is Err ==> checked->Err_0@ == pattern_fault(pattern@),
{
    match compile(pattern) {
        Ok(_) => Ok(()),
        Err(err) => Err(error_text(&err)),
    }
}

/// Searches `name` with a pattern known to be well formed.
pub(crate) fn hits(pattern: &str, name: &str) -> (hit: bool)
    requires
        pattern_compiles(pattern@),
    ensures
        hit == pattern_matches(pattern@, name@),
{
    match compile(pattern) {
        Ok(re) => is_match(&re, name),
        Err(_) => false,
    }
}

} // verus!
