use galvanic_assert::matchers::combinators::{all_of, any_of, range_text, All, Any};
use galvanic_assert::matchers::leaves::{
    assertion_always_fails, assertion_always_succeeds, close_to, eq, equal_to, geq,
    greater_than, greater_than_or_equal, gt, is, leq, less_than, less_than_or_equal, lt, not,
    same_object, Predicate,
};
use galvanic_assert::{
    comparison_text, format_fail_comparison, format_fail_reason, MatchResult, MatchResultBuilder, Matcher,
};

fn matched(name: &str) -> MatchResult {
    MatchResult::Matched { name: name.to_string() }
}

fn failed(name: &str, reason: &str) -> MatchResult {
    MatchResult::Failed { name: name.to_string(), reason: reason.to_string() }
}

fn is_matched(r: &MatchResult) -> bool {
    matches!(r, MatchResult::Matched { .. })
}

fn name_of(r: &MatchResult) -> String {
    match r {
        MatchResult::Matched { name } => name.clone(),
        MatchResult::Failed { name, .. } => name.clone(),
    }
}

#[test]
fn fail_reason_is_prefixed() {
    assert_eq!(format_fail_reason("it broke"), "  Because: it broke");
    assert_eq!(format_fail_reason(""), "  Because: ");
}

#[test]
fn fail_comparison_has_two_lines() {
    assert_eq!(format_fail_comparison(3, 4), "  Expected: 4\n  Got: 3");
    assert_eq!(format_fail_comparison("a", "b"), "  Expected: \"b\"\n  Got: \"a\"");
}

#[test]
fn builder_declares_each_outcome() {
    assert_eq!(MatchResultBuilder::for_("m").matched(), matched("m"));
    assert_eq!(MatchResultBuilder::for_("m").failed_because("why"), failed("m", "why"));
    assert_eq!(
        MatchResultBuilder::for_("m").failed_comparison(1, 2),
        failed("m", "  Expected: 2\n  Got: 1")
    );
}

#[test]
fn constant_matchers() {
    assert_eq!(assertion_always_succeeds::<i32>().check(&1), matched("succeeds_always"));
    assert_eq!(
        assertion_always_fails::<i32>().check(&1),
        failed("fails_always", "This matcher fails always")
    );
}

#[test]
fn is_hands_the_matcher_back() {
    assert_eq!(is(equal_to(7)).check(&7), matched("equal"));
    assert_eq!(is(5u8), 5u8);
}

#[test]
fn equal_to_matches_only_equal_values() {
    for x in [-3i64, 0, 1, i64::MAX, i64::MIN] {
        assert_eq!(equal_to(x).check(&x), matched("equal"));
        assert_eq!(eq(x).check(&x), matched("equal"));
    }
    assert_eq!(equal_to(1).check(&2), failed("equal", "  Expected: 1\n  Got: 2"));
    assert_eq!(equal_to("a".to_string()).check(&"b".to_string()), failed(
        "equal",
        "  Expected: \"a\"\n  Got: \"b\""
    ));
}

#[test]
fn order_matchers_on_integers() {
    assert_eq!(less_than(5).check(&4), matched("less_than"));
    assert_eq!(less_than(5).check(&5), failed("less_than", "  Expected: 5\n  Got: 5"));
    assert!(is_matched(&lt(5).check(&-1)));
    assert_eq!(greater_than(5).check(&6), matched("greater_than"));
    assert!(!is_matched(&gt(5).check(&5)));
    assert_eq!(less_than_or_equal(5).check(&5), matched("less_than_or_equal"));
    assert!(!is_matched(&leq(5).check(&6)));
    assert_eq!(greater_than_or_equal(5).check(&5), matched("greater_than_or_equal"));
    assert_eq!(
        geq(5).check(&4),
        failed("greater_than_or_equal", "  Expected: 5\n  Got: 4")
    );
}

#[test]
fn order_matchers_fail_on_incomparable_values() {
    let nan = f64::NAN;
    assert_eq!(name_of(&less_than(nan).check(&1.0)), "less_than");
    assert!(!is_matched(&less_than(nan).check(&1.0)));
    assert!(!is_matched(&greater_than(nan).check(&1.0)));
    assert!(!is_matched(&less_than_or_equal(nan).check(&1.0)));
    assert!(!is_matched(&greater_than_or_equal(nan).check(&1.0)));
    assert!(!is_matched(&less_than(1.0).check(&nan)));
    assert!(!is_matched(&geq(nan).check(&nan)));
    assert!(!is_matched(&equal_to(nan).check(&nan)));
}

#[test]
fn close_to_includes_both_ends() {
    assert_eq!(close_to(10, 2).check(&8), matched("close_to"));
    assert_eq!(close_to(10, 2).check(&12), matched("close_to"));
    assert_eq!(close_to(10, 2).check(&10), matched("close_to"));
    assert_eq!(close_to(10, 2).check(&7), failed("close_to", "7 should be between 8 and 12"));
    assert_eq!(close_to(10, 2).check(&13), failed("close_to", "13 should be between 8 and 12"));
}

#[test]
fn close_to_with_negative_eps_always_fails() {
    for v in [8i64, 9, 10, 11, 12, i64::MIN, i64::MAX] {
        assert!(!is_matched(&close_to(10, -1).check(&v)));
    }
    assert!(!is_matched(&close_to(i64::MAX, -1).check(&i64::MAX)));
    assert!(!is_matched(&close_to(i64::MIN, -1).check(&i64::MIN)));
}

#[test]
fn close_to_at_the_ends_of_the_range() {
    assert!(is_matched(&close_to(i64::MAX, 5).check(&i64::MAX)));
    assert!(is_matched(&close_to(i64::MIN, 5).check(&i64::MIN)));
    assert!(is_matched(&close_to(0, i64::MAX).check(&(i64::MIN + 1))));
    assert!(!is_matched(&close_to(0, i64::MAX).check(&i64::MIN)));
    assert!(is_matched(&close_to(-1, i64::MAX).check(&i64::MIN)));
    assert!(!is_matched(&close_to(i64::MAX, 5).check(&(i64::MAX - 6))));
}

#[test]
fn same_object_compares_addresses() {
    let x = vec![1, 2, 3];
    let y = vec![1, 2, 3];
    assert_eq!(same_object(&x).check(&x), matched("same_object"));
    let r = same_object(&x).check(&y);
    assert_eq!(name_of(&r), "same_object");
    assert!(!is_matched(&r));
}

#[test]
fn not_inverts_and_renames() {
    assert_eq!(not(equal_to(1)).check(&1), failed("not(equal)", "equal is satisfied"));
    assert_eq!(not(equal_to(1)).check(&2), matched("not(equal)"));
    assert_eq!(
        not(assertion_always_succeeds::<u8>()).check(&0),
        failed("not(succeeds_always)", "succeeds_always is satisfied")
    );
}

#[test]
fn double_negation_keeps_the_variant() {
    for v in [1, 2] {
        let plain = is_matched(&equal_to(1).check(&v));
        let twice = not(not(equal_to(1))).check(&v);
        assert_eq!(is_matched(&twice), plain);
    }
    assert_eq!(not(not(equal_to(1))).check(&1), matched("not(not(equal))"));
    assert_eq!(
        not(not(equal_to(1))).check(&2),
        failed("not(not(equal))", "not(equal) is satisfied")
    );
}

#[test]
fn all_reports_the_failing_matcher() {
    let a = All::of(assertion_always_succeeds()).and(assertion_always_fails());
    assert_eq!(a.check(&0), failed("fails_always", "This matcher fails always"));
    let b = All::of(assertion_always_fails()).and(assertion_always_succeeds());
    assert_eq!(b.check(&0), failed("fails_always", "This matcher fails always"));
}

#[test]
fn all_checks_the_last_added_first() {
    let a = All::of(equal_to(1)).and(less_than(0));
    assert_eq!(a.check(&5), failed("less_than", "  Expected: 0\n  Got: 5"));
    let b = All::of(less_than(10)).and(greater_than(0));
    assert_eq!(b.check(&5), matched("less_than"));
}

#[test]
fn any_names_its_success_any_of() {
    let a = Any::of(assertion_always_fails()).or(assertion_always_succeeds());
    assert_eq!(a.check(&0), matched("any_of"));
    let b = Any::of(assertion_always_succeeds()).or(assertion_always_fails());
    assert_eq!(b.check(&0), matched("any_of"));
    assert_eq!(Any::of(equal_to(3)).check(&3), matched("any_of"));
}

#[test]
fn any_reports_the_earliest_failure() {
    let a = Any::of(equal_to(1)).or(less_than(0));
    assert_eq!(a.check(&5), failed("equal", "  Expected: 1\n  Got: 5"));
    let b = Any::of(less_than(0)).or(equal_to(1));
    assert_eq!(b.check(&5), failed("less_than", "  Expected: 0\n  Got: 5"));
}

#[test]
fn chains_nest() {
    let inner = Any::of(equal_to(1)).or(equal_to(2));
    let outer = All::of(Predicate::AnyOf(Box::new(inner))).and(greater_than(0));
    assert_eq!(outer.check(&2), matched("any_of"));
    assert_eq!(outer.check(&3), failed("equal", "  Expected: 1\n  Got: 3"));
    assert_eq!(not(Predicate::AllOf(Box::new(All::of(equal_to(4))))).check(&4),
        failed("not(equal)", "equal is satisfied"));
}

#[test]
fn folding_helpers_keep_the_order() {
    assert!(all_of::<i32>(vec![]).is_none());
    assert!(any_of::<i32>(vec![]).is_none());
    let a = all_of(vec![equal_to(1), less_than(0)]).unwrap();
    assert_eq!(a.check(&5), failed("less_than", "  Expected: 0\n  Got: 5"));
    let b = any_of(vec![equal_to(1), less_than(0), greater_than(100)]).unwrap();
    assert_eq!(b.check(&5), failed("equal", "  Expected: 1\n  Got: 5"));
    assert_eq!(b.check(&1), matched("any_of"));
    let c = all_of(vec![greater_than(0), less_than(10)]).unwrap();
    assert_eq!(c.check(&5), matched("greater_than"));
}

#[test]
fn comparison_text_puts_expected_first() {
    assert_eq!(comparison_text("5", "6"), "  Expected: 5\n  Got: 6");
    assert_eq!(comparison_text("", ""), "  Expected: \n  Got: ");
}

#[test]
fn range_text_lays_out_value_and_bounds() {
    assert_eq!(range_text("7", "8", "12"), "7 should be between 8 and 12");
}

#[test]
fn any_names_a_success_anywhere_in_the_chain_any_of() {
    let a = any_of(vec![equal_to(1), equal_to(5), less_than(0)]).unwrap();
    assert_eq!(a.check(&5), matched("any_of"));
    let b = Any::of(greater_than(0)).or(equal_to(9)).or(equal_to(8));
    assert_eq!(b.check(&3), matched("any_of"));
}
