//! The regular-expression matching strategy, built on the `regex` crate:
//! the pattern is compiled once at construction, and a line is tested by an
//! unanchored search with the compiled expression.

use vstd::prelude::*;

use crate::MatcherTrait;
use crate::PatternCompilationError;

verus! {

#[verifier::external_type_specification]
#[verifier::external_body]
pub struct ExRegex(regex::Regex);

#[verifier::external_type_specification]
#[verifier::external_body]
pub struct ExRegexError(regex::Error);

/// Whether `regex::Regex::new` accepts `pattern`: syntactically a valid
/// regular expression whose compiled form stays within the default size
/// limit. Acceptance depends on the pattern alone.
pub uninterp spec fn regex_pattern_valid(pattern: Seq<char>) -> bool;

/// Whether the regular expression compiled from `pattern` matches anywhere
/// in `line`, as `regex::Regex::is_match` reports it: an unanchored search,
/// whose result depends on the pattern and the line alone.
pub uninterp spec fn regex_match(pattern: Seq<char>, line: Seq<char>) -> bool;

/// Relies on `regex::Regex::new`: compiles `pattern`, returning `Ok` exactly
/// when the pattern is accepted, so its success names `regex_pattern_valid`.
#[verifier::external_body]
fn compile_regex(pattern: &str) -> (r: Result<regex::Regex, regex::Error>)
    ensures
        r is Ok <==> regex_pattern_valid(pattern@),
{
    regex::Regex::new(pattern)
}

/// Matches lines by an unanchored search with a regular expression that was
/// compiled, exactly once, when the matcher was constructed.
pub struct ExtendedRegexpMatcher {
    regex: regex::Regex,
    pattern: String,
}

impl ExtendedRegexpMatcher {
    /// The pattern this matcher was compiled from.
    pub closed spec fn pattern_spec(&self) -> Seq<char> {
        self.pattern@
    }

    /// Compile `pattern`; fails exactly on patterns the expression engine
    /// rejects, and stores the compiled form beside its source.
    pub fn new(pattern: String) -> (r: Result<ExtendedRegexpMatcher, PatternCompilationError>)
        ensures
            r is Ok <==> regex_pattern_valid(pattern@),
            r matches Ok(m) ==> m.pattern_spec() == pattern@,
    {
        match compile_regex(pattern.as_str()) {
            Ok(regex) => Ok(ExtendedRegexpMatcher { regex, pattern }),
            Err(_) => Err(PatternCompilationError),
        }
    }
}

/// Relies on `regex::Regex::is_match`: reports whether the line holds a match
/// of the compiled expression. The `regex` field is always the compilation of
/// the `pattern` field — `ExtendedRegexpMatcher::new` is the type's only
/// constructor — so the result is `regex_match` of that pattern and the line.
#[verifier::external_body]
fn regex_is_match(m: &ExtendedRegexpMatcher, line: &str) -> (r: bool)
    ensures
        r == regex_match(m.pattern_spec(), line@),
{
    m.regex.is_match(line)
}

impl MatcherTrait for ExtendedRegexpMatcher {
    open spec fn matches_spec(&self, line: Seq<char>) -> bool {
        regex_match(self.pattern_spec(), line)
    }

    fn execute(&self, line: &str) -> bool {
        regex_is_match(self, line)
    }
}

} // verus!
