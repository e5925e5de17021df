use line_matcher::Matcher;
use line_matcher::MatcherTrait;
use line_matcher::PatternCompilationError;

#[test]
fn test_extended_regexp_matcher() {
    let matcher = Matcher::new("c".to_string(), false).unwrap();
    assert_eq!(true, matcher.execute("abcdefg"));
    let matcher = Matcher::new("fg".to_string(), false).unwrap();
    assert_eq!(true, matcher.execute("abcdefg"));
    let matcher = Matcher::new("Z".to_string(), false).unwrap();
    assert_eq!(false, matcher.execute("abcdefg"));
    let matcher = Matcher::new("a.c".to_string(), false).unwrap();
    assert_eq!(true, matcher.execute("abcdefg"));
    let matcher = Matcher::new("a+.b+".to_string(), false).unwrap();
    assert_eq!(true, matcher.execute("aaa bbb"));
    let matcher = Matcher::new("[aA][bB][cC]".to_string(), false).unwrap();
    assert_eq!(true, matcher.execute("aBc"));
    assert_eq!(true, matcher.execute("Abc"));
    assert_eq!(false, matcher.execute("efg"));
}

#[test]
fn test_match_fix_string() {
    let matcher = Matcher::new("c".to_string(), true).unwrap();
    assert_eq!(true, matcher.execute("abcdefg"));
    assert_eq!(true, matcher.execute("cccc"));
    let matcher = Matcher::new("fg".to_string(), true).unwrap();
    assert_eq!(true, matcher.execute("abcdefg"));
    let matcher = Matcher::new("Z".to_string(), true).unwrap();
    assert_eq!(false, matcher.execute("abcdefg"));
    let matcher = Matcher::new("a.c".to_string(), true).unwrap();
    assert_eq!(false, matcher.execute("abcdefg"));
    let matcher = Matcher::new("a+.b+".to_string(), true).unwrap();
    assert_eq!(false, matcher.execute("aaa bbb"));
    let matcher = Matcher::new("[aA][bB][cC]".to_string(), true).unwrap();
    assert_eq!(false, matcher.execute("aBc"));
}

#[test]
fn literal_mode_accepts_any_pattern() {
    // Patterns that are malformed as regexes still construct in literal mode.
    for p in ["[", "a(", "*", "(unclosed", ""] {
        assert!(Matcher::new(p.to_string(), true).is_ok());
    }
}

#[test]
fn malformed_regex_fails_construction() {
    let r = Matcher::new("[".to_string(), false);
    assert_eq!(r.err(), Some(PatternCompilationError));
    let r = Matcher::new("a(".to_string(), false);
    assert_eq!(r.err(), Some(PatternCompilationError));
}

#[test]
fn literal_mode_takes_metacharacters_verbatim() {
    let literal_dot = Matcher::new(".".to_string(), true).unwrap();
    assert_eq!(false, literal_dot.execute("abc"));
    let wildcard_dot = Matcher::new(".".to_string(), false).unwrap();
    assert_eq!(true, wildcard_dot.execute("abc"));
}

#[test]
fn both_modes_are_case_sensitive() {
    let literal = Matcher::new("C".to_string(), true).unwrap();
    assert_eq!(false, literal.execute("abc"));
    let regexp = Matcher::new("C".to_string(), false).unwrap();
    assert_eq!(false, regexp.execute("abc"));
}

#[test]
fn empty_pattern_matches_every_line() {
    let literal = Matcher::new("".to_string(), true).unwrap();
    assert_eq!(true, literal.execute("abc"));
    assert_eq!(true, literal.execute(""));
    let regexp = Matcher::new("".to_string(), false).unwrap();
    assert_eq!(true, regexp.execute("abc"));
    assert_eq!(true, regexp.execute(""));
}

#[test]
fn literal_pattern_longer_than_line() {
    let matcher = Matcher::new("abcdefg".to_string(), true).unwrap();
    assert_eq!(false, matcher.execute("abc"));
    assert_eq!(true, matcher.execute("abcdefg"));
}
