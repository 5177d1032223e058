//! Adapts matcher-style checks, which judge a subject and describe the
//! condition they check for, to a predicate-style interface: a boolean test
//! over a subject together with a textual rendering of the tested condition.

mod adapter;
mod decimal;
mod matchers;
mod outcome;

pub use adapter::matcher;
pub use adapter::MatcherPredicate;
pub use adapter::ToPredicate;
pub use decimal::decimal_string;
pub use matchers::EqMatcher;
pub use matchers::Matcher;
pub use outcome::MatcherResult;
