//! Laws relating the matchers and the chains that join them.
use vstd::prelude::*;

use crate::matchers::combinators::{
    predicate_allows, all_allows, any_allows, any_chain, negation, All, Any,
};
use crate::matchers::leaves::Predicate;
use crate::Verdict;
use vstd::std_specs::cmp::{PartialEqSpec, PartialOrdSpec};

verus! {

/// Where `==` on `T` is value identity, `equal_to(x)` matches `y` exactly
/// when `y` is `x`: it matches `x` itself and fails on every other value.
pub proof fn lemma_equal_to_is_identity<'a, T: PartialOrd>(x: T, y: T, out: Verdict)
    requires
        T::obeys_eq_spec(),
        forall|a: T, b: T| #[trigger] a.eq_spec(&b) <==> a == b,
        predicate_allows(Predicate::EqualTo(x), y, out),
    ensures
        out.is_matched() <==> y == x,
{
    assert(y.eq_spec(&x) <==> y == x);
}

/// Negating twice gives back the variant of the matcher itself, for a
/// matcher whose variant on `v` does not vary from one check to the next.
pub proof fn lemma_double_negation<'a, T: PartialOrd>(
    m: Predicate<'a, T>,
    v: T,
    inner: Verdict,
    out: Verdict,
)
    requires
        forall|o1: Verdict, o2: Verdict|
            #[trigger] predicate_allows(m, v, o1) && #[trigger] predicate_allows(m, v, o2)
                ==> o1.is_matched() == o2.is_matched(),
        predicate_allows(m, v, inner),
        predicate_allows(Predicate::Not(Box::new(Predicate::Not(Box::new(m)))), v, out),
    ensures
        out.is_matched() == inner.is_matched(),
{
    let once = choose|once: Verdict|
        predicate_allows(Predicate::Not(Box::new(m)), v, once) && out == negation(once);
    let base = choose|base: Verdict| predicate_allows(m, v, base) && once == negation(base);
    assert(predicate_allows(m, v, base));
    assert(predicate_allows(m, v, inner));
    assert(base.is_matched() == inner.is_matched());
}

/// A conjunction of a matcher `fails` that fails on `v` and a matcher
/// `holds` that matches it reports the failure of `fails`, whichever of the
/// two was added last.
pub proof fn lemma_all_reports_failure<'a, T: PartialOrd>(
    fails: Predicate<'a, T>,
    holds: Predicate<'a, T>,
    v: T,
    out: Verdict,
)
    requires
        forall|o: Verdict| predicate_allows(fails, v, o) ==> !o.is_matched(),
        forall|o: Verdict| predicate_allows(holds, v, o) ==> o.is_matched(),
    ensures
        all_allows(
            (All {
                matcher: Box::new(fails),
                next: Some(Box::new(All { matcher: Box::new(holds), next: None })),
            }),
            v,
            out,
        ) ==> predicate_allows(fails, v, out) && !out.is_matched(),
        all_allows(
            (All {
                matcher: Box::new(holds),
                next: Some(Box::new(All { matcher: Box::new(fails), next: None })),
            }),
            v,
            out,
        ) ==> predicate_allows(fails, v, out) && !out.is_matched(),
{
    let rest_f = All { matcher: Box::new(fails), next: None };
    let rest_h = All { matcher: Box::new(holds), next: None };
    let late_f = All { matcher: Box::new(fails), next: Some(Box::new(rest_h)) };
    let late_h = All { matcher: Box::new(holds), next: Some(Box::new(rest_f)) };
    if all_allows(late_f, v, out) {
        let first = all_first(late_f, v, out);
    }
    if all_allows(late_h, v, out) {
        let first = all_first(late_h, v, out);
        let second = all_first(rest_f, v, out);
    }
}

/// The verdict of the last-added matcher of a conjunction, from which the
/// conjunction's own verdict `out` follows.
proof fn all_first<'a, T: PartialOrd>(a: All<'a, T>, v: T, out: Verdict) -> (first: Verdict)
    requires
        all_allows(a, v, out),
    ensures
        predicate_allows(*a.matcher, v, first),
        first.is_matched() ==> match a.next {
            None => out == first,
            Some(rest) => all_allows(*rest, v, out),
        },
        !first.is_matched() ==> out == first,
{
    // Restating the definition's quantifier lets `choose` pick its witness.
    assert(exists|first: Verdict|
        predicate_allows(*a.matcher, v, first) && if #[trigger] first.is_matched() {
            match a.next {
                None => out == first,
                Some(rest) => all_allows(*rest, v, out),
            }
        } else {
            out == first
        });
    choose|first: Verdict|
        predicate_allows(*a.matcher, v, first) && if #[trigger] first.is_matched() {
            match a.next {
                None => out == first,
                Some(rest) => all_allows(*rest, v, out),
            }
        } else {
            out == first
        }
}

/// The verdict of the last-added matcher of a disjunction, from which the
/// disjunction's own verdict `out` follows.
proof fn any_first<'a, T: PartialOrd>(a: Any<'a, T>, v: T, out: Verdict) -> (first: Verdict)
    requires
        any_allows(a, v, out),
    ensures
        predicate_allows(*a.matcher, v, first),
        first.is_matched() ==> out == (Verdict::Matched { name: "any_of"@ }),
        !first.is_matched() ==> match a.next {
            None => out == first,
            Some(rest) => any_allows(*rest, v, out),
        },
{
    choose|first: Verdict|
        predicate_allows(*a.matcher, v, first) && if #[trigger] first.is_matched() {
            out == Verdict::Matched { name: "any_of"@ }
        } else {
            match a.next {
                None => out == first,
                Some(rest) => any_allows(*rest, v, out),
            }
        }
}

/// A disjunction whose last-added matcher matches `v` reports a match
/// under the name `any_of`, not under the name of the matcher that matched.
pub proof fn lemma_any_success_is_named_any_of<'a, T: PartialOrd>(a: Any<'a, T>, v: T, out: Verdict)
    requires
        forall|o: Verdict| predicate_allows(*a.matcher, v, o) ==> o.is_matched(),
        any_allows(a, v, out),
    ensures
        out == (Verdict::Matched { name: "any_of"@ }),
{
    let first = any_first(a, v, out);
    assert(first.is_matched());
}

/// A disjunction folded from `ms`, any one of which matches `v`, reports a
/// match under the name `any_of`, whichever matcher it was and wherever it
/// stands in the chain.
pub proof fn lemma_any_chain_success_is_named_any_of<'a, T: PartialOrd>(
    ms: Seq<Predicate<'a, T>>,
    i: int,
    v: T,
    out: Verdict,
)
    requires
        0 <= i < ms.len(),
        forall|o: Verdict| predicate_allows(ms[i], v, o) ==> o.is_matched(),
        any_allows(any_chain(ms), v, out),
    ensures
        out == (Verdict::Matched { name: "any_of"@ }),
    decreases ms.len(),
{
    let a = any_chain(ms);
    let first = any_first(a, v, out);
    if !first.is_matched() {
        assert(i != ms.len() - 1);
        let rest = ms.drop_last();
        assert(rest[i] == ms[i]);
        lemma_any_chain_success_is_named_any_of(rest, i, v, out);
    }
}

/// A disjunction of two matchers that both fail on `v` reports the failure
/// of the one added first, although the one added last is checked first.
pub proof fn lemma_any_failure_is_the_earliest<'a, T: PartialOrd>(
    earliest: Predicate<'a, T>,
    latest: Predicate<'a, T>,
    v: T,
    out: Verdict,
)
    requires
        forall|o: Verdict| predicate_allows(earliest, v, o) ==> !o.is_matched(),
        forall|o: Verdict| predicate_allows(latest, v, o) ==> !o.is_matched(),
        any_allows(
            (Any {
                matcher: Box::new(latest),
                next: Some(Box::new(Any { matcher: Box::new(earliest), next: None })),
            }),
            v,
            out,
        ),
    ensures
        predicate_allows(earliest, v, out),
        !out.is_matched(),
{
    let rest = Any { matcher: Box::new(earliest), next: None };
    let late = Any { matcher: Box::new(latest), next: Some(Box::new(rest)) };
    let first = any_first(late, v, out);
    let second = any_first(rest, v, out);
}

/// On a pair that the type's partial order leaves incomparable, each of the
/// four order matchers fails.
pub proof fn lemma_incomparable_fails<'a, T: PartialOrd>(v: T, e: T, out: Verdict)
    requires
        T::obeys_partial_cmp_spec(),
        v.partial_cmp_spec(&e) is None,
        predicate_allows(Predicate::LessThan(e), v, out) || predicate_allows(
            Predicate::GreaterThan(e),
            v,
            out,
        ) || predicate_allows(Predicate::LessOrEqual(e), v, out) || predicate_allows(
            Predicate::GreaterOrEqual(e),
            v,
            out,
        ),
    ensures
        !out.is_matched(),
{
}

} // verus!
