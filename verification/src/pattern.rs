//! Regular expressions, compiled and run by the `regex` crate.
//!
//! The grammar and the matching are the crate's. The library gives names to
//! the crate's answers and states its own results over them.

use vstd::prelude::*;

verus! {

/// `regex::Regex`, a compiled expression. Nothing inside it is looked at.
#[verifier::external_type_specification]
#[verifier::external_body]
pub struct ExRegex(regex::Regex);

/// `regex::Error`, the reason why a pattern did not compile. Nothing inside
/// it is looked at.
#[verifier::external_type_specification]
#[verifier::external_body]
pub struct ExRegexError(regex::Error);

/// Whether `pattern` compiles: whether `regex::Regex::new` returns an
/// expression for it. A pattern fails on a syntax error, and also where the
/// compiled expression would exceed the crate's size limit.
pub uninterp spec fn pattern_compiles(pattern: Seq<char>) -> bool;

/// Whether the expression compiled from `pattern` matches somewhere in
/// `text`. It has a meaning only where `pattern` compiles.
pub uninterp spec fn pattern_matches(pattern: Seq<char>, text: Seq<char>) -> bool;

/// Whether `regex` matches somewhere in `text`: the answer of
/// `regex::Regex::is_match`.
pub uninterp spec fn regex_accepts(regex: regex::Regex, text: Seq<char>) -> bool;

/// Calls `regex::Regex::new`.
///
/// Trusted: whether the call succeeds depends on the pattern alone, and so
/// does what the expression it returns matches.
#[verifier::external_body]
pub(crate) fn compile(pattern: &str) -> (r: Result<regex::Regex, regex::Error>)
    ensures
        r is Ok <==> pattern_compiles(pattern@),
        r matches Ok(regex) ==> forall|text: Seq<char>| #[trigger]
            regex_accepts(regex, text) == pattern_matches(pattern@, text),
{
    regex::Regex::new(pattern)
}

/// Calls `regex::Regex::is_match`.
///
/// Trusted: the answer depends on the expression and the text alone.
#[verifier::external_body]
pub(crate) fn is_match(regex: &regex::Regex, text: &str) -> (b: bool)
    ensures
        b == regex_accepts(*regex, text@),
{
    regex.is_match(text)
}

/// The message of a compile error, as its `Display` impl writes it.
///
/// Nothing is claimed of the text.
#[verifier::external_body]
pub(crate) fn describe(error: &regex::Error) -> String {
    error.to_string()
}

} // verus!
