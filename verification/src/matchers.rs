use crate::decimal::decimal_rep;
use crate::decimal::decimal_string;
use crate::outcome::MatcherResult;
use vstd::prelude::*;

verus! {

/// A matcher judges whether a subject of type `T` satisfies some condition,
/// and can describe that condition in words, in either the matching or the
/// non-matching framing.
///
/// `spec_matches` and `spec_describe` give the mathematical meaning of the
/// two operations; every implementation proves its executable methods
/// against them, so the outcome and the description are fixed by the matcher
/// value and the subject alone.
pub trait Matcher<T>: Sized {
    /// The outcome of judging `subject`.
    spec fn spec_matches(&self, subject: T) -> MatcherResult;

    /// The description of the condition, in the framing asked for by
    /// `outcome`.
    spec fn spec_describe(&self, outcome: MatcherResult) -> Seq<char>;

    /// Judges `subject`.
    fn matches(&self, subject: &T) -> (r: MatcherResult)
        ensures
            r == self.spec_matches(*subject),
    ;

    /// Describes the condition this matcher checks for.
    fn describe(&self, outcome: MatcherResult) -> (r: String)
        ensures
            r@ == self.spec_describe(outcome),
    ;
}

/// A matcher that accepts exactly the number `expected`.
pub struct EqMatcher {
    pub expected: u64,
}

impl EqMatcher {
    /// A matcher that accepts exactly `expected`.
    pub fn new(expected: u64) -> (r: EqMatcher)
        ensures
            r.expected == expected,
    {
        EqMatcher { expected }
    }
}

impl Matcher<u64> for EqMatcher {
    open spec fn spec_matches(&self, subject: u64) -> MatcherResult {
        if subject == self.expected {
            MatcherResult::Match
        } else {
            MatcherResult::NoMatch
        }
    }

    open spec fn spec_describe(&self, outcome: MatcherResult) -> Seq<char> {
        match outcome {
            MatcherResult::Match => "is equal to "@ + decimal_rep(self.expected as nat),
            MatcherResult::NoMatch => "isn't equal to "@ + decimal_rep(self.expected as nat),
        }
    }

    fn matches(&self, subject: &u64) -> (r: MatcherResult) {
        if *subject == self.expected {
            MatcherResult::Match
        } else {
            MatcherResult::NoMatch
        }
    }

    fn describe(&self, outcome: MatcherResult) -> (r: String) {
        let digits = decimal_string(self.expected);
        match outcome {
            MatcherResult::Match => String::from_str("is equal to ").concat(digits.as_str()),
            MatcherResult::NoMatch => String::from_str("isn't equal to ").concat(digits.as_str()),
        }
    }
}

} // verus!
