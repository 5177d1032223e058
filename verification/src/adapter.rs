use crate::matchers::Matcher;
use crate::outcome::MatcherResult;
use core::marker::PhantomData;
use vstd::prelude::*;

verus! {

/// Wraps a matcher so it can serve as a predicate over subjects of type `T`:
/// a boolean test together with a textual rendering of the tested condition.
///
/// The wrapper owns the matcher and carries no further data; `_subject` only
/// fixes the subject type, so one adapter instance judges subjects of a
/// single type.
pub struct MatcherPredicate<M, T> {
    pub matcher: M,
    pub _subject: PhantomData<T>,
}

impl<M: Matcher<T>, T> MatcherPredicate<M, T> {
    /// The boolean reading of the wrapped matcher's outcome on `subject`.
    pub open spec fn spec_eval(&self, subject: T) -> bool {
        self.matcher.spec_matches(subject).spec_is_match()
    }

    /// The wrapped matcher's description of the matching condition.
    pub open spec fn spec_render(&self) -> Seq<char> {
        self.matcher.spec_describe(MatcherResult::Match)
    }

    /// Evaluates the predicate: `true` exactly when the wrapped matcher's
    /// outcome on `subject` is `Match`.
    pub fn eval(&self, subject: &T) -> (r: bool)
        ensures
            r == self.spec_eval(*subject),
    {
        let outcome = self.matcher.matches(subject);
        outcome.is_match()
    }

    /// Renders the predicate as text: the wrapped matcher's description of
    /// the matching condition, recomputed on every call.
    pub fn render(&self) -> (r: String)
        ensures
            r@ == self.spec_render(),
    {
        self.matcher.describe(MatcherResult::Match)
    }
}

/// A value that can be converted into a predicate of type `P` over subjects
/// of type `T`.
pub trait ToPredicate<T, P>: Sized {
    /// The predicate that the conversion produces.
    spec fn spec_to_predicate(self) -> P;

    /// Converts the value into a predicate.
    fn to_predicate(self) -> (r: P)
        ensures
            r == self.spec_to_predicate(),
    ;
}

/// Every matcher converts into the predicate that wraps it.
impl<M: Matcher<T>, T> ToPredicate<T, MatcherPredicate<M, T>> for M {
    open spec fn spec_to_predicate(self) -> MatcherPredicate<M, T> {
        MatcherPredicate { matcher: self, _subject: PhantomData }
    }

    fn to_predicate(self) -> (r: MatcherPredicate<M, T>) {
        MatcherPredicate { matcher: self, _subject: PhantomData }
    }
}

/// Provides a predicate for a given matcher.
pub fn matcher<M: ToPredicate<T, P>, T, P>(m: M) -> (r: P)
    ensures
        r == m.spec_to_predicate(),
{
    m.to_predicate()
}

/// The predicate built from a matcher evaluates to `true` on a subject
/// exactly when that matcher's outcome on the subject is `Match`.
pub proof fn lemma_adapter_eval<M: Matcher<T>, T>(m: M, subject: T)
    ensures
        m.spec_to_predicate().spec_eval(subject) <==> m.spec_matches(subject)
            == MatcherResult::Match,
{
}

/// The predicate built from a matcher renders as exactly that matcher's
/// description of the matching condition.
pub proof fn lemma_adapter_render<M: Matcher<T>, T>(m: M)
    ensures
        m.spec_to_predicate().spec_render() == m.spec_describe(MatcherResult::Match),
{
}

/// Evaluation is idempotent: the contract of `eval` fixes its result by the
/// adapter and the subject alone, so any two results of evaluating the same
/// adapter on the same subject are equal.
pub proof fn lemma_eval_idempotent<M: Matcher<T>, T>(
    p: &MatcherPredicate<M, T>,
    subject: T,
    r1: bool,
    r2: bool,
)
    requires
        r1 == p.spec_eval(subject),
        r2 == p.spec_eval(subject),
    ensures
        r1 == r2,
{
}

/// Rendering is idempotent: the contract of `render` fixes the rendered text
/// by the adapter alone, so any two renderings of the same adapter are equal.
pub proof fn lemma_render_idempotent<M: Matcher<T>, T>(
    p: &MatcherPredicate<M, T>,
    r1: Seq<char>,
    r2: Seq<char>,
)
    requires
        r1 == p.spec_render(),
        r2 == p.spec_render(),
    ensures
        r1 == r2,
{
}

} // verus!
