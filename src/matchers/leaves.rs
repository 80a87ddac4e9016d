//! Leaf matchers: constants, equality, order, tolerance, identity, negation.
use vstd::prelude::*;

use crate::matchers::combinators::{predicate_allows, All, Any};
use crate::Verdict;

verus! {

/// A matcher for values of type `T`.
///
/// The leaves compare the actual value with a captured one; `Not`, `AllOf`
/// and `AnyOf` hold further matchers.
pub enum Predicate<'a, T> {
    /// Always matches.
    Succeeds,
    /// Never matches.
    Fails,
    /// Matches a value equal to the one held.
    EqualTo(T),
    /// Matches a value less than the one held.
    LessThan(T),
    /// Matches a value greater than the one held.
    GreaterThan(T),
    /// Matches a value less than or equal to the one held.
    LessOrEqual(T),
    /// Matches a value greater than or equal to the one held.
    GreaterOrEqual(T),
    /// Matches a value in the closed range from `lo` to `hi`.
    Within { lo: T, hi: T },
    /// Matches the very object referred to, not merely an equal one.
    SameObject(&'a T),
    /// Matches where the inner matcher does not.
    Not(Box<Predicate<'a, T>>),
    /// Matches where every matcher of the chain does.
    AllOf(Box<All<'a, T>>),
    /// Matches where some matcher of the chain does.
    AnyOf(Box<Any<'a, T>>),
}

/// A matcher which always matches.
pub fn assertion_always_succeeds<'a, T>() -> (r: Predicate<'a, T>)
    ensures
        r == Predicate::<'a, T>::Succeeds,
{
    Predicate::Succeeds
}

/// A matcher which never matches.
pub fn assertion_always_fails<'a, T>() -> (r: Predicate<'a, T>)
    ensures
        r == Predicate::<'a, T>::Fails,
{
    Predicate::Fails
}

/// Hands the matcher back unchanged, so that an assertion reads naturally.
pub fn is<M>(matcher: M) -> (r: M)
    ensures
        r == matcher,
{
    matcher
}

/// A matcher negating the result of the given one.
pub fn not<'a, T>(matcher: Predicate<'a, T>) -> (r: Predicate<'a, T>)
    ensures
        r == Predicate::Not(Box::new(matcher)),
{
    Predicate::Not(Box::new(matcher))
}

/// Matches if the value is equal to `expected`.
///
/// Not suited to floating point values: use [`close_to`] there.
pub fn equal_to<'a, T>(expected: T) -> (r: Predicate<'a, T>)
    ensures
        r == Predicate::<'a, T>::EqualTo(expected),
{
    Predicate::EqualTo(expected)
}

/// Short for [`equal_to`].
pub fn eq<'a, T>(expected: T) -> (r: Predicate<'a, T>)
    ensures
        r == Predicate::<'a, T>::EqualTo(expected),
{
    equal_to(expected)
}

/// Matches if the value is less than `expected`.
pub fn less_than<'a, T>(expected: T) -> (r: Predicate<'a, T>)
    ensures
        r == Predicate::<'a, T>::LessThan(expected),
{
    Predicate::LessThan(expected)
}

/// Short for [`less_than`].
pub fn lt<'a, T>(expected: T) -> (r: Predicate<'a, T>)
    ensures
        r == Predicate::<'a, T>::LessThan(expected),
{
    less_than(expected)
}

/// Matches if the value is greater than `expected`.
pub fn greater_than<'a, T>(expected: T) -> (r: Predicate<'a, T>)
    ensures
        r == Predicate::<'a, T>::GreaterThan(expected),
{
    Predicate::GreaterThan(expected)
}

/// Short for [`greater_than`].
pub fn gt<'a, T>(expected: T) -> (r: Predicate<'a, T>)
    ensures
        r == Predicate::<'a, T>::GreaterThan(expected),
{
    greater_than(expected)
}

/// Matches if the value is less than or equal to `expected`.
pub fn less_than_or_equal<'a, T>(expected: T) -> (r: Predicate<'a, T>)
    ensures
        r == Predicate::<'a, T>::LessOrEqual(expected),
{
    Predicate::LessOrEqual(expected)
}

/// Short for [`less_than_or_equal`].
pub fn leq<'a, T>(expected: T) -> (r: Predicate<'a, T>)
    ensures
        r == Predicate::<'a, T>::LessOrEqual(expected),
{
    less_than_or_equal(expected)
}

/// Matches if the value is greater than or equal to `expected`.
pub fn greater_than_or_equal<'a, T>(expected: T) -> (r: Predicate<'a, T>)
    ensures
        r == Predicate::<'a, T>::GreaterOrEqual(expected),
{
    Predicate::GreaterOrEqual(expected)
}

/// Short for [`greater_than_or_equal`].
pub fn geq<'a, T>(expected: T) -> (r: Predicate<'a, T>)
    ensures
        r == Predicate::<'a, T>::GreaterOrEqual(expected),
{
    greater_than_or_equal(expected)
}

/// `x` clamped to the range of `i64`.
pub open spec fn clamp_spec(x: int) -> i64 {
    if x < i64::MIN {
        i64::MIN
    } else if x > i64::MAX {
        i64::MAX
    } else {
        x as i64
    }
}

fn clamp(x: i128) -> (r: i64)
    ensures
        r == clamp_spec(x as int),
{
    if x < i64::MIN as i128 {
        i64::MIN
    } else if x > i64::MAX as i128 {
        i64::MAX
    } else {
        x as i64
    }
}

/// Matches if the value lies within `eps` of `expected`, both ends included.
///
/// A negative `eps` leaves no value in range, so the matcher then always
/// fails. Bounds beyond the range of `i64` are clamped, which changes no
/// answer: every `i64` lies within the clamped range exactly when it lies
/// within the exact one.
pub fn close_to<'a>(expected: i64, eps: i64) -> (r: Predicate<'a, i64>)
    ensures
        r == (Predicate::Within {
            lo: clamp_spec(expected - eps),
            hi: clamp_spec(expected + eps),
        }),
        forall|v: i64, out: Verdict| #[trigger]
            predicate_allows(r, v, out) ==> (out.is_matched() <==> expected - eps <= v
                <= expected + eps),
{
    let lo = clamp(expected as i128 - eps as i128);
    let hi = clamp(expected as i128 + eps as i128);
    Predicate::Within { lo, hi }
}

/// Matches if the value is the very object that `expected` refers to: the
/// same storage location, not merely an equal value.
pub fn same_object<'a, T>(expected: &'a T) -> (r: Predicate<'a, T>)
    ensures
        r == Predicate::<'a, T>::SameObject(expected),
{
    Predicate::SameObject(expected)
}

} // verus!
