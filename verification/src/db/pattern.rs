//! Regular-expression matching through the `regex` crate.

use vstd::prelude::*;

verus! {

#[verifier::external_type_specification]
#[verifier::external_body]
pub struct ExRegex(regex::Regex);

#[verifier::external_type_specification]
#[verifier::external_body]
pub struct ExRegexError(regex::Error);

/// The pattern that every SQL identifier handled by this crate must match.
pub open spec fn identifier_pattern() -> Seq<char> {
    "^[a-zA-Z_][a-zA-Z0-9_]*$"@
}

/// A character that may start an identifier: an ASCII letter or `_`.
pub open spec fn is_identifier_start(c: char) -> bool {
    ('a' <= c && c <= 'z') || ('A' <= c && c <= 'Z') || c == '_'
}

/// A character that may follow the first one: an ASCII letter, digit or `_`.
pub open spec fn is_identifier_char(c: char) -> bool {
    is_identifier_start(c) || ('0' <= c && c <= '9')
}

/// The whole of `s` matches `^[a-zA-Z_][a-zA-Z0-9_]*$`.
pub open spec fn matches_identifier_pattern(s: Seq<char>) -> bool {
    &&& s.len() > 0
    &&& is_identifier_start(s[0])
    &&& forall|i: int| 1 <= i < s.len() ==> #[trigger] is_identifier_char(s[i])
}

/// Whether the regular expression `pattern` finds a match in `haystack`.
pub uninterp spec fn regex_matches(pattern: Seq<char>, haystack: Seq<char>) -> bool;

/// A regular expression compiled by the `regex` crate, together with its source.
pub(crate) struct CompiledPattern {
    regex: regex::Regex,
    source: Ghost<Seq<char>>,
}

impl CompiledPattern {
    /// The pattern text this regular expression was compiled from.
    pub(crate) closed spec fn source(&self) -> Seq<char> {
        self.source@
    }
}

/// Calls `regex::Regex::new`. Trusted: when it succeeds the result was
/// compiled from `pattern`; the identifier pattern is valid syntax, well
/// under the crate's size limits, so it always compiles.
#[verifier::external_body]
pub(crate) fn compile_pattern(pattern: &str) -> (r: Result<CompiledPattern, regex::Error>)
    ensures
        r matches Ok(p) ==> p.source() == pattern@,
        pattern@ == identifier_pattern() ==> r is Ok,
{
    regex::Regex::new(pattern).map(|regex| CompiledPattern { regex, source: Ghost(pattern@) })
}

/// Calls `regex::Regex::is_match`. Trusted: the result is `regex_matches`
/// of the pattern and the haystack; for the identifier pattern, whose `^` and
/// `$` anchor at the ends of the haystack (no multi-line mode) and whose
/// classes are the ASCII ranges written, that is `matches_identifier_pattern`.
#[verifier::external_body]
pub(crate) fn pattern_is_match(pattern: &CompiledPattern, haystack: &str) -> (r: bool)
    ensures
        r == regex_matches(pattern.source(), haystack@),
        pattern.source() == identifier_pattern() ==> r == matches_identifier_pattern(haystack@),
{
    pattern.regex.is_match(haystack)
}

} // verus!
