//! Line matchers: test whether a line of text satisfies a pattern, in one of
//! two modes fixed at construction — literal substring containment, or an
//! unanchored search with an extended regular expression compiled once.

use vstd::prelude::*;

mod regex_matcher;
mod substring;

pub use regex_matcher::regex_match;
pub use regex_matcher::regex_pattern_valid;
pub use regex_matcher::ExtendedRegexpMatcher;
pub use substring::contains_substring;
pub use substring::is_match_at;
pub use substring::str_contains;

verus! {

/// The one failure this library knows: the pattern handed to
/// regular-expression construction was rejected by the expression engine.
#[derive(Clone, Copy, Debug, PartialEq, Eq, Structural)]
pub struct PatternCompilationError;

/// A matching strategy: one operation that tests a line, together with a
/// specification-level account of which lines it accepts.
pub trait MatcherTrait {
    /// Which lines this matcher accepts.
    spec fn matches_spec(&self, line: Seq<char>) -> bool;

    /// Test one line; never fails, and leaves the matcher as it was.
    fn execute(&self, line: &str) -> (r: bool)
        ensures
            r == self.matches_spec(line@),
    ;
}

/// Matches lines that contain the stored pattern verbatim — case-sensitive,
/// character exact, with no metacharacter interpretation.
pub struct FixedStringsMatcher {
    pattern: String,
}

impl FixedStringsMatcher {
    /// The pattern this matcher stores.
    pub closed spec fn pattern_spec(&self) -> Seq<char> {
        self.pattern@
    }

    /// Store `pattern` verbatim; succeeds whatever the pattern holds.
    pub fn new(pattern: String) -> (m: FixedStringsMatcher)
        ensures
            m.pattern_spec() == pattern@,
    {
        FixedStringsMatcher { pattern }
    }
}

impl MatcherTrait for FixedStringsMatcher {
    open spec fn matches_spec(&self, line: Seq<char>) -> bool {
        contains_substring(line, self.pattern_spec())
    }

    fn execute(&self, line: &str) -> bool {
        str_contains(line, self.pattern.as_str())
    }
}

/// A matcher built once from a pattern and a mode flag; the chosen variant is
/// fixed for the value's lifetime.
pub enum Matcher {
    ExtendedRegexp(ExtendedRegexpMatcher),
    FixedStrings(FixedStringsMatcher),
}

impl Matcher {
    /// The pattern this matcher was constructed from.
    pub open spec fn pattern_spec(&self) -> Seq<char> {
        match self {
            Matcher::ExtendedRegexp(m) => m.pattern_spec(),
            Matcher::FixedStrings(m) => m.pattern_spec(),
        }
    }

    /// Whether this matcher is the literal-substring variant.
    pub open spec fn is_fixed_strings(&self) -> bool {
        self is FixedStrings
    }

    /// Which lines this matcher accepts: literal containment in fixed-strings
    /// mode, a regular-expression search otherwise.
    pub open spec fn matches_spec(&self, line: Seq<char>) -> bool {
        match self {
            Matcher::ExtendedRegexp(m) => m.matches_spec(line),
            Matcher::FixedStrings(m) => m.matches_spec(line),
        }
    }

    /// Build a matcher from `pattern` and the mode flag. In fixed-strings
    /// mode construction always succeeds and the pattern is stored verbatim;
    /// otherwise it succeeds exactly when the expression engine accepts the
    /// pattern, and fails with `PatternCompilationError` on the rest.
    pub fn new(pattern: String, is_fixed_strings_mode: bool) -> (r: Result<
        Matcher,
        PatternCompilationError,
    >)
        ensures
            is_fixed_strings_mode ==> r is Ok,
            !is_fixed_strings_mode ==> (r is Ok <==> regex_pattern_valid(pattern@)),
            r matches Ok(m) ==> m.is_fixed_strings() == is_fixed_strings_mode,
            r matches Ok(m) ==> m.pattern_spec() == pattern@,
    {
        if is_fixed_strings_mode {
            Ok(Matcher::FixedStrings(FixedStringsMatcher::new(pattern)))
        } else {
            match ExtendedRegexpMatcher::new(pattern) {
                Ok(m) => Ok(Matcher::ExtendedRegexp(m)),
                Err(e) => Err(e),
            }
        }
    }

    /// Test one line against the matcher's pattern, in the mode the matcher
    /// was constructed with.
    pub fn execute(&self, line: &str) -> (r: bool)
        ensures
            r == self.matches_spec(line@),
    {
        match self {
            Matcher::FixedStrings(m) => m.execute(line),
            Matcher::ExtendedRegexp(m) => m.execute(line),
        }
    }
}

} // verus!
