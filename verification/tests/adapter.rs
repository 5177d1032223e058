use matcher_predicate::decimal_string;
use matcher_predicate::matcher;
use matcher_predicate::EqMatcher;
use matcher_predicate::Matcher;
use matcher_predicate::MatcherResult;
use matcher_predicate::ToPredicate;

#[test]
fn test_matcher_eq_1_to_string() {
    assert_eq!(matcher(EqMatcher::new(1)).render(), "is equal to 1");
}

#[test]
fn test_matcher_eq_1_eval_returns_true() {
    assert!(matcher(EqMatcher::new(1)).eval(&1));
}

#[test]
fn test_matcher_eq_1_eval_returns_false() {
    assert!(!matcher(EqMatcher::new(1)).eval(&2));
}

#[test]
fn test_mockall_with_matcher_fn() {
    let pred = matcher(EqMatcher::new(1));
    let mock_foo = |x: u64| -> u64 {
        assert!(pred.eval(&x), "argument does not satisfy the predicate");
        x + 1
    };
    assert_eq!(mock_foo(1), 2);
}

#[test]
fn test_eval_idempotent() {
    let pred = matcher(EqMatcher::new(3));
    assert_eq!(pred.eval(&3), pred.eval(&3));
    assert_eq!(pred.eval(&4), pred.eval(&4));
    assert!(pred.eval(&3));
    assert!(pred.eval(&3));
}

#[test]
fn test_render_idempotent() {
    let pred = matcher(EqMatcher::new(3));
    assert_eq!(pred.render(), pred.render());
    assert_eq!(pred.render(), "is equal to 3");
    assert_eq!(pred.render(), "is equal to 3");
}

#[test]
fn test_to_predicate_directly() {
    let pred = EqMatcher::new(5).to_predicate();
    assert!(pred.eval(&5));
    assert!(!pred.eval(&6));
    assert_eq!(pred.render(), "is equal to 5");
}

#[test]
fn test_eq_matcher_matches() {
    let m = EqMatcher::new(7);
    assert_eq!(m.matches(&7), MatcherResult::Match);
    assert_eq!(m.matches(&8), MatcherResult::NoMatch);
}

#[test]
fn test_eq_matcher_describe_both_framings() {
    let m = EqMatcher::new(7);
    assert_eq!(m.describe(MatcherResult::Match), "is equal to 7");
    assert_eq!(m.describe(MatcherResult::NoMatch), "isn't equal to 7");
}

#[test]
fn test_matcher_result_is_match() {
    assert!(MatcherResult::Match.is_match());
    assert!(!MatcherResult::NoMatch.is_match());
}

#[test]
fn test_render_large_expected_value() {
    assert_eq!(matcher(EqMatcher::new(18446744073709551615)).render(), "is equal to 18446744073709551615");
}

#[test]
fn test_decimal_string() {
    assert_eq!(decimal_string(0), "0");
    assert_eq!(decimal_string(7), "7");
    assert_eq!(decimal_string(10), "10");
    assert_eq!(decimal_string(42), "42");
    assert_eq!(decimal_string(90210), "90210");
    assert_eq!(decimal_string(1000000), "1000000");
}
