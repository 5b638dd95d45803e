//! Regular-expression patterns declared by metadata constraints, compiled and
//! matched by the `regex_lite` crate.
use vstd::prelude::*;

verus! {

#[verifier::external_type_specification]
#[verifier::external_body]
pub struct ExRegex(regex_lite::Regex);

/// What `regex_lite::Regex::new` reports for a pattern: `None` when the pattern
/// compiles, otherwise the text of the error it returns.
pub uninterp spec fn regex_build_error(pattern: Seq<char>) -> Option<Seq<char>>;

/// Whether `regex_lite::Regex::is_match` finds a match of the compiled pattern
/// anywhere in the haystack.
pub uninterp spec fn regex_finds_match(pattern: Seq<char>, haystack: Seq<char>) -> bool;

/// A pattern together with the regex compiled from it.
pub struct CompiledPattern {
    pattern: String,
    regex: regex_lite::Regex,
}

impl CompiledPattern {
    /// The pattern the regex was compiled from.
    pub closed spec fn source(&self) -> Seq<char> {
        self.pattern@
    }
}

/// Compiles `pattern` with `regex_lite::Regex::new`, turning an error into its
/// display text.
///
/// Trusted: the result is `Ok` exactly when the crate accepts the pattern, and
/// an error carries the crate's message; both are named, not stated, because
/// the pattern grammar and size limits are the crate's own.
#[verifier::external_body]
pub fn compile_pattern(pattern: &str) -> (r: Result<CompiledPattern, String>)
    ensures
        r is Ok <==> regex_build_error(pattern@) is None,
        r matches Ok(c) ==> c.source() == pattern@,
        r matches Err(message) ==> regex_build_error(pattern@) == Some(message@),
{
    match regex_lite::Regex::new(pattern) {
        Ok(regex) => Ok(CompiledPattern { pattern: pattern.to_string(), regex }),
        Err(error) => Err(error.to_string()),
    }
}

/// Runs `regex_lite::Regex::is_match` of a compiled pattern on `haystack`.
///
/// Trusted: the result is the crate's match decision, named by the pattern the
/// regex was compiled from (only `compile_pattern` builds a `CompiledPattern`).
#[verifier::external_body]
pub fn pattern_is_match(compiled: &CompiledPattern, haystack: &str) -> (b: bool)
    ensures
        b == regex_finds_match(compiled.source(), haystack@),
{
    compiled.regex.is_match(haystack)
}

} // verus!
