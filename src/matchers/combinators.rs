//! Conjunctive and disjunctive chains, and what checking any matcher gives.
use vstd::prelude::*;

use crate::matchers::leaves::Predicate;
use crate::{debug_text, is_comparison_text, lemma_comparison_text_nonempty, MatchResult, MatchResultBuilder, Matcher, Verdict};
use vstd::std_specs::cmp::{PartialEqSpec, PartialOrdSpec};
use core::cmp::Ordering;

verus! {

/// Matchers joined conjunctively.
///
/// `matcher` is the one added last; `next` holds the chain as it stood
/// before. Use [`All::of`] to start a chain and [`All::and`] to extend it.
pub struct All<'a, T> {
    pub matcher: Box<Predicate<'a, T>>,
    pub next: Option<Box<All<'a, T>>>,
}

/// Matchers joined disjunctively, laid out as [`All`] is.
pub struct Any<'a, T> {
    pub matcher: Box<Predicate<'a, T>>,
    pub next: Option<Box<Any<'a, T>>>,
}

impl<'a, T> All<'a, T> {
    /// Starts a conjunctive chain with the given matcher.
    pub fn of(matcher: Predicate<'a, T>) -> (r: All<'a, T>)
        ensures
            r.matcher == Box::new(matcher),
            r.next is None,
    {
        All { matcher: Box::new(matcher), next: None }
    }

    /// Adds the given matcher conjunctively: it becomes the first one
    /// checked, and the chain so far is checked after it.
    pub fn and(self, matcher: Predicate<'a, T>) -> (r: All<'a, T>)
        ensures
            r.matcher == Box::new(matcher),
            r.next == Some(Box::new(self)),
    {
        All { matcher: Box::new(matcher), next: Some(Box::new(self)) }
    }
}

impl<'a, T> Any<'a, T> {
    /// Starts a disjunctive chain with the given matcher.
    pub fn of(matcher: Predicate<'a, T>) -> (r: Any<'a, T>)
        ensures
            r.matcher == Box::new(matcher),
            r.next is None,
    {
        Any { matcher: Box::new(matcher), next: None }
    }

    /// Adds the given matcher disjunctively: it becomes the first one
    /// checked, and the chain so far is checked after it.
    pub fn or(self, matcher: Predicate<'a, T>) -> (r: Any<'a, T>)
        ensures
            r.matcher == Box::new(matcher),
            r.next == Some(Box::new(self)),
    {
        Any { matcher: Box::new(matcher), next: Some(Box::new(self)) }
    }
}

/// The conjunction of a non-empty sequence of matchers, added in order:
/// the first is the one the chain starts with, the last the one checked
/// first.
pub open spec fn all_chain<'a, T>(ms: Seq<Predicate<'a, T>>) -> All<'a, T>
    recommends
        ms.len() > 0,
    decreases ms.len(),
{
    if ms.len() <= 1 {
        All { matcher: Box::new(ms.last()), next: None }
    } else {
        All { matcher: Box::new(ms.last()), next: Some(Box::new(all_chain(ms.drop_last()))) }
    }
}

/// The disjunction of a non-empty sequence of matchers, laid out as
/// [`all_chain`] lays out a conjunction.
pub open spec fn any_chain<'a, T>(ms: Seq<Predicate<'a, T>>) -> Any<'a, T>
    recommends
        ms.len() > 0,
    decreases ms.len(),
{
    if ms.len() <= 1 {
        Any { matcher: Box::new(ms.last()), next: None }
    } else {
        Any { matcher: Box::new(ms.last()), next: Some(Box::new(any_chain(ms.drop_last()))) }
    }
}

fn fold_all<'a, T>(mut ms: Vec<Predicate<'a, T>>) -> (r: All<'a, T>)
    requires
        ms.len() > 0,
    ensures
        r == all_chain(ms@),
    decreases ms.len(),
{
    let ghost whole = ms@;
    let last = ms.pop().unwrap();
    if ms.len() == 0 {
        All::of(last)
    } else {
        let rest = fold_all(ms);
        proof {
            assert(whole.drop_last() == ms@);
        }
        rest.and(last)
    }
}

fn fold_any<'a, T>(mut ms: Vec<Predicate<'a, T>>) -> (r: Any<'a, T>)
    requires
        ms.len() > 0,
    ensures
        r == any_chain(ms@),
    decreases ms.len(),
{
    let ghost whole = ms@;
    let last = ms.pop().unwrap();
    if ms.len() == 0 {
        Any::of(last)
    } else {
        let rest = fold_any(ms);
        proof {
            assert(whole.drop_last() == ms@);
        }
        rest.or(last)
    }
}

/// Joins the matchers conjunctively, in the order given, as `of` and then
/// `and` would; `None` where there are none to join.
pub fn all_of<'a, T>(matchers: Vec<Predicate<'a, T>>) -> (r: Option<All<'a, T>>)
    ensures
        matchers@.len() == 0 <==> r is None,
        r matches Some(a) ==> a == all_chain(matchers@),
{
    if matchers.len() == 0 {
        None
    } else {
        Some(fold_all(matchers))
    }
}

/// Joins the matchers disjunctively, in the order given, as `of` and then
/// `or` would; `None` where there are none to join.
pub fn any_of<'a, T>(matchers: Vec<Predicate<'a, T>>) -> (r: Option<Any<'a, T>>)
    ensures
        matchers@.len() == 0 <==> r is None,
        r matches Some(a) ==> a == any_chain(matchers@),
{
    if matchers.len() == 0 {
        None
    } else {
        Some(fold_any(matchers))
    }
}

/// `"not(" + name + ")"`, the name of a negated matcher.
pub open spec fn negated_name(name: Seq<char>) -> Seq<char> {
    "not("@ + name + ")"@
}

/// The verdict of `not` on a matcher whose verdict was `inner`: the variant
/// flips and the inner reason is dropped.
pub open spec fn negation(inner: Verdict) -> Verdict {
    match inner {
        Verdict::Matched { name } => Verdict::Failed {
            name: negated_name(name),
            reason: name + " is satisfied"@,
        },
        Verdict::Failed { name, .. } => Verdict::Matched { name: negated_name(name) },
    }
}

/// What a comparison leaf called `name` may give: that name, a variant that
/// follows `holds` wherever the type's comparison obeys its specification,
/// and on failure the rendered comparison.
pub open spec fn compared(out: Verdict, name: Seq<char>, obeys: bool, holds: bool) -> bool {
    &&& out.name() == name
    &&& obeys ==> (out.is_matched() <==> holds)
    &&& out matches Verdict::Failed { reason, .. } ==> is_comparison_text(reason)
}

/// `v < e` by the type's partial order.
pub open spec fn less<T: PartialOrd>(v: T, e: T) -> bool {
    v.partial_cmp_spec(&e) == Some(Ordering::Less)
}

/// `v > e` by the type's partial order.
pub open spec fn greater<T: PartialOrd>(v: T, e: T) -> bool {
    v.partial_cmp_spec(&e) == Some(Ordering::Greater)
}

/// `v <= e` by the type's partial order.
pub open spec fn less_or_equal<T: PartialOrd>(v: T, e: T) -> bool {
    v.partial_cmp_spec(&e) matches Some(Ordering::Less | Ordering::Equal)
}

/// `v >= e` by the type's partial order.
pub open spec fn greater_or_equal<T: PartialOrd>(v: T, e: T) -> bool {
    v.partial_cmp_spec(&e) matches Some(Ordering::Greater | Ordering::Equal)
}

/// The verdicts that checking `v` against `p` may give.
pub open spec fn predicate_allows<'a, T: PartialOrd>(p: Predicate<'a, T>, v: T, out: Verdict) -> bool
    decreases p,
{
    match p {
        Predicate::Succeeds => out == Verdict::Matched { name: "succeeds_always"@ },
        Predicate::Fails => out == Verdict::Failed {
            name: "fails_always"@,
            reason: "This matcher fails always"@,
        },
        Predicate::EqualTo(e) => compared(out, "equal"@, T::obeys_eq_spec(), v.eq_spec(&e)),
        Predicate::LessThan(e) => compared(out, "less_than"@, T::obeys_partial_cmp_spec(), less(v, e)),
        Predicate::GreaterThan(e) => compared(
            out,
            "greater_than"@,
            T::obeys_partial_cmp_spec(),
            greater(v, e),
        ),
        Predicate::LessOrEqual(e) => compared(
            out,
            "less_than_or_equal"@,
            T::obeys_partial_cmp_spec(),
            less_or_equal(v, e),
        ),
        Predicate::GreaterOrEqual(e) => compared(
            out,
            "greater_than_or_equal"@,
            T::obeys_partial_cmp_spec(),
            greater_or_equal(v, e),
        ),
        Predicate::Within { lo, hi } => {
            &&& out.name() == "close_to"@
            &&& T::obeys_partial_cmp_spec() ==> (out.is_matched() <==> less_or_equal(lo, v)
                && less_or_equal(v, hi))
            &&& out matches Verdict::Failed { reason, .. } ==> is_range_text(reason)
        },
        Predicate::SameObject(_) => {
            &&& out.name() == "same_object"@
            &&& out matches Verdict::Failed { reason, .. } ==> is_comparison_text(reason)
        },
        Predicate::Not(m) => exists|inner: Verdict|
            predicate_allows(*m, v, inner) && out == #[trigger] negation(inner),
        Predicate::AllOf(a) => all_allows(*a, v, out),
        Predicate::AnyOf(a) => any_allows(*a, v, out),
    }
}

/// The verdicts that checking `v` against a conjunctive chain may give: the
/// last-added matcher is checked first; its failure is the answer, and on
/// success the rest of the chain decides, or, where there is none, its own
/// success is the answer.
pub open spec fn all_allows<'a, T: PartialOrd>(a: All<'a, T>, v: T, out: Verdict) -> bool
    decreases a,
{
    exists|first: Verdict|
        predicate_allows(*a.matcher, v, first) && if #[trigger] first.is_matched() {
            match a.next {
                None => out == first,
                Some(rest) => all_allows(*rest, v, out),
            }
        } else {
            out == first
        }
}

/// The verdicts that checking `v` against a disjunctive chain may give: the
/// last-added matcher is checked first; its success gives `any_of`, and on
/// failure the rest of the chain decides, or, where there is none, its own
/// failure is the answer.
pub open spec fn any_allows<'a, T: PartialOrd>(a: Any<'a, T>, v: T, out: Verdict) -> bool
    decreases a,
{
    exists|first: Verdict|
        predicate_allows(*a.matcher, v, first) && if #[trigger] first.is_matched() {
            out == Verdict::Matched { name: "any_of"@ }
        } else {
            match a.next {
                None => out == first,
                Some(rest) => any_allows(*rest, v, out),
            }
        }
}

/// Whether two references point to one address.
///
/// Relies on `std::ptr::eq`. Nothing is stated of the result: Verus models
/// no addresses, and distinct zero-sized values may share one.
#[verifier::external_body]
fn same_address<T>(a: &T, b: &T) -> bool {
    std::ptr::eq(a, b)
}

/// `"<actual> should be between <lo> and <hi>"`, from the three renderings.
pub open spec fn range_layout(actual: Seq<char>, lo: Seq<char>, hi: Seq<char>) -> Seq<char> {
    actual + " should be between "@ + lo + " and "@ + hi
}

/// `text` is a range explanation, whatever the values' renderings.
pub open spec fn is_range_text(text: Seq<char>) -> bool {
    exists|actual: Seq<char>, lo: Seq<char>, hi: Seq<char>|
        #[trigger] range_layout(actual, lo, hi) == text
}

/// A range explanation is never empty.
pub proof fn lemma_range_text_nonempty(text: Seq<char>)
    requires
        is_range_text(text),
    ensures
        text.len() > 0,
{
    let (actual, lo, hi) = choose|actual: Seq<char>, lo: Seq<char>, hi: Seq<char>|
        #[trigger] range_layout(actual, lo, hi) == text;
    reveal_strlit(" should be between ");
    assert(text.len() >= " should be between "@.len());
}

/// Lays out the explanation of a value outside a closed range, from the
/// renderings of the value and of the two bounds.
pub fn range_text(actual: &str, lo: &str, hi: &str) -> (r: String)
    ensures
        r@ == range_layout(actual@, lo@, hi@),
{
    String::from_str(actual).concat(" should be between ").concat(lo).concat(" and ").concat(hi)
}

/// Renders why a value fell outside a closed range: the value's and the
/// bounds' `Debug` renderings, laid out by [`range_text`].
fn format_out_of_range<T: std::fmt::Debug>(actual: &T, lo: &T, hi: &T) -> (r: String)
    ensures
        is_range_text(r@),
{
    let a = debug_text(actual);
    let l = debug_text(lo);
    let h = debug_text(hi);
    let r = range_text(a.as_str(), l.as_str(), h.as_str());
    proof {
        assert(r@ == range_layout(a@, l@, h@));
    }
    r
}

/// The result of a comparison leaf called `name`.
fn compare_result<T: std::fmt::Debug>(name: &str, holds: bool, actual: &T, expected: &T) -> (r:
    MatchResult)
    requires
        name@.len() > 0,
    ensures
        r@.well_formed(),
        r@.name() == name@,
        r@.is_matched() == holds,
        r@ matches Verdict::Failed { reason, .. } ==> is_comparison_text(reason),
{
    let builder = MatchResultBuilder::for_(name);
    if holds {
        builder.matched()
    } else {
        let r = builder.failed_comparison(actual, expected);
        proof {
            lemma_comparison_text_nonempty(r@->reason);
        }
        r
    }
}

/// Checks `actual` against `p`.
pub fn check_predicate<'a, T: PartialOrd + std::fmt::Debug>(p: &Predicate<'a, T>, actual: &T) -> (r:
    MatchResult)
    ensures
        predicate_allows(*p, *actual, r@),
        r@.well_formed(),
    decreases p,
{
    proof {
        reveal_strlit("succeeds_always");
        reveal_strlit("fails_always");
        reveal_strlit("This matcher fails always");
        reveal_strlit("equal");
        reveal_strlit("less_than");
        reveal_strlit("greater_than");
        reveal_strlit("less_than_or_equal");
        reveal_strlit("greater_than_or_equal");
        reveal_strlit("close_to");
        reveal_strlit("same_object");
        reveal_strlit("not(");
    }
    match p {
        Predicate::Succeeds => MatchResultBuilder::for_("succeeds_always").matched(),
        Predicate::Fails => MatchResultBuilder::for_("fails_always").failed_because(
            "This matcher fails always",
        ),
        Predicate::EqualTo(e) => compare_result("equal", actual.eq(e), actual, e),
        Predicate::LessThan(e) => compare_result("less_than", actual.lt(e), actual, e),
        Predicate::GreaterThan(e) => compare_result("greater_than", actual.gt(e), actual, e),
        Predicate::LessOrEqual(e) => compare_result("less_than_or_equal", actual.le(e), actual, e),
        Predicate::GreaterOrEqual(e) => compare_result(
            "greater_than_or_equal",
            actual.ge(e),
            actual,
            e,
        ),
        Predicate::Within { lo, hi } => {
            let builder = MatchResultBuilder::for_("close_to");
            if lo.le(actual) && actual.le(hi) {
                builder.matched()
            } else {
                let reason = format_out_of_range(actual, lo, hi);
                proof {
                    lemma_range_text_nonempty(reason@);
                }
                MatchResult::Failed { name: builder.name, reason }
            }
        },
        Predicate::SameObject(e) => compare_result("same_object", same_address(actual, *e), actual, *e),
        Predicate::Not(m) => {
            let inner = check_predicate(m, actual);
            let ghost i = inner@;
            let r = match inner {
                MatchResult::Matched { name } => {
                    let label = String::from_str("not(").concat(name.as_str()).concat(")");
                    let reason = name.concat(" is satisfied");
                    MatchResult::Failed { name: label, reason }
                },
                MatchResult::Failed { name, .. } => {
                    let label = String::from_str("not(").concat(name.as_str()).concat(")");
                    MatchResult::Matched { name: label }
                },
            };
            proof {
                assert(predicate_allows(**m, *actual, i));
                assert(r@ == negation(i));
            }
            r
        },
        Predicate::AllOf(a) => check_all(a, actual),
        Predicate::AnyOf(a) => check_any(a, actual),
    }
}

/// Checks `actual` against a conjunctive chain.
pub fn check_all<'a, T: PartialOrd + std::fmt::Debug>(a: &All<'a, T>, actual: &T) -> (r: MatchResult)
    ensures
        all_allows(*a, *actual, r@),
        r@.well_formed(),
    decreases a,
{
    let first = check_predicate(&a.matcher, actual);
    let ghost f = first@;
    let r = if matches!(first, MatchResult::Matched { .. }) {
        match &a.next {
            None => first,
            Some(rest) => check_all(rest, actual),
        }
    } else {
        first
    };
    proof {
        // Mentions the trigger of the chain's quantifier, with `f` as witness.
        let matched = f.is_matched();
        assert(predicate_allows(*a.matcher, *actual, f));
    }
    r
}

/// Checks `actual` against a disjunctive chain.
pub fn check_any<'a, T: PartialOrd + std::fmt::Debug>(a: &Any<'a, T>, actual: &T) -> (r: MatchResult)
    ensures
        any_allows(*a, *actual, r@),
        r@.well_formed(),
    decreases a,
{
    let first = check_predicate(&a.matcher, actual);
    let ghost f = first@;
    proof {
        reveal_strlit("any_of");
    }
    let r = if matches!(first, MatchResult::Matched { .. }) {
        MatchResult::Matched { name: String::from_str("any_of") }
    } else {
        match &a.next {
            None => first,
            Some(rest) => check_any(rest, actual),
        }
    };
    proof {
        // Mentions the trigger of the chain's quantifier, with `f` as witness.
        let matched = f.is_matched();
        assert(predicate_allows(*a.matcher, *actual, f));
    }
    r
}

impl<'a, T: PartialOrd + std::fmt::Debug> Matcher<T> for Predicate<'a, T> {
    open spec fn allows(&self, actual: T, out: Verdict) -> bool {
        predicate_allows(*self, actual, out)
    }

    fn check(&self, actual: &T) -> (r: MatchResult) {
        check_predicate(self, actual)
    }
}

impl<'a, T: PartialOrd + std::fmt::Debug> Matcher<T> for All<'a, T> {
    open spec fn allows(&self, actual: T, out: Verdict) -> bool {
        all_allows(*self, actual, out)
    }

    fn check(&self, actual: &T) -> (r: MatchResult) {
        check_all(self, actual)
    }
}

impl<'a, T: PartialOrd + std::fmt::Debug> Matcher<T> for Any<'a, T> {
    open spec fn allows(&self, actual: T, out: Verdict) -> bool {
        any_allows(*self, actual, out)
    }

    fn check(&self, actual: &T) -> (r: MatchResult) {
        check_any(self, actual)
    }
}

} // verus!
