use vstd::prelude::*;

verus! {

/// The two-valued outcome of running a matcher against a subject.
#[derive(Clone, Copy, Debug, PartialEq, Eq, Structural)]
pub enum MatcherResult {
    Match,
    NoMatch,
}

impl MatcherResult {
    /// The boolean reading of an outcome: `Match` means `true`, `NoMatch`
    /// means `false`.
    pub open spec fn spec_is_match(self) -> bool {
        self == MatcherResult::Match
    }

    /// Maps the outcome to its boolean reading.
    pub fn is_match(&self) -> (r: bool)
        ensures
            r == self.spec_is_match(),
    {
        match self {
            MatcherResult::Match => true,
            MatcherResult::NoMatch => false,
        }
    }
}

} // verus!
