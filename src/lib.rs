//! Value assertions built from composable matchers.
//!
//! A matcher is asked whether a value satisfies it and answers with a
//! [`MatchResult`]. Leaf matchers live in [`matchers::leaves`], the
//! conjunctive and disjunctive chains in [`matchers::combinators`].
use vstd::prelude::*;

pub mod matchers;

verus! {

/// The ghost picture of a [`MatchResult`]: the same two variants, with the
/// strings seen as sequences of characters.
pub enum Verdict {
    Matched { name: Seq<char> },
    Failed { name: Seq<char>, reason: Seq<char> },
}

impl Verdict {
    pub open spec fn is_matched(self) -> bool {
        self is Matched
    }

    pub open spec fn name(self) -> Seq<char> {
        match self {
            Verdict::Matched { name } => name,
            Verdict::Failed { name, .. } => name,
        }
    }

    /// Every result names its matcher, and a failure gives a reason.
    pub open spec fn well_formed(self) -> bool {
        match self {
            Verdict::Matched { name } => name.len() > 0,
            Verdict::Failed { name, reason } => name.len() > 0 && reason.len() > 0,
        }
    }
}

/// The outcome of asking a matcher about one value.
#[derive(Debug, PartialEq, Eq)]
pub enum MatchResult {
    Matched { name: String },
    Failed { name: String, reason: String },
}

impl View for MatchResult {
    type V = Verdict;

    open spec fn view(&self) -> Verdict {
        match self {
            MatchResult::Matched { name } => Verdict::Matched { name: name@ },
            MatchResult::Failed { name, reason } => Verdict::Failed { name: name@, reason: reason@ },
        }
    }
}

/// Renders a free-text failure reason: `"  Because: "` followed by the reason.
pub fn format_fail_reason(reason: &str) -> (r: String)
    ensures
        r@ == "  Because: "@ + reason@,
{
    String::from_str("  Because: ").concat(reason)
}

/// `"  Expected: <expected>\n  Got: <actual>"`, from the two renderings.
pub open spec fn comparison_layout(expected: Seq<char>, actual: Seq<char>) -> Seq<char> {
    "  Expected: "@ + expected + "\n  Got: "@ + actual
}

/// `text` is a two-line comparison, whatever the values' renderings.
pub open spec fn is_comparison_text(text: Seq<char>) -> bool {
    exists|expected: Seq<char>, actual: Seq<char>|
        #[trigger] comparison_layout(expected, actual) == text
}

/// A two-line comparison is never empty.
pub proof fn lemma_comparison_text_nonempty(text: Seq<char>)
    requires
        is_comparison_text(text),
    ensures
        text.len() > 0,
{
    let (expected, actual) = choose|expected: Seq<char>, actual: Seq<char>|
        #[trigger] comparison_layout(expected, actual) == text;
    reveal_strlit("  Expected: ");
    assert(text.len() >= "  Expected: "@.len());
}

/// The `Debug` rendering of a value.
///
/// Relies on `format!` with `{:?}`, which renders through the value's
/// `Debug` impl; nothing is stated of the text.
#[verifier::external_body]
pub(crate) fn debug_text<T: std::fmt::Debug + ?Sized>(x: &T) -> String {
    format!("{:?}", x)
}

/// Lays out a comparison on two lines from the renderings of the expected
/// and the actual value.
pub fn comparison_text(expected: &str, actual: &str) -> (r: String)
    ensures
        r@ == comparison_layout(expected@, actual@),
{
    String::from_str("  Expected: ").concat(expected).concat("\n  Got: ").concat(actual)
}

/// Renders a comparison of an expected and an actual value on two lines,
/// each through its `Debug` rendering: the expected value first.
pub fn format_fail_comparison<T: std::fmt::Debug>(actual: T, expected: T) -> (r: String)
    ensures
        is_comparison_text(r@),
{
    let e = debug_text(&expected);
    let a = debug_text(&actual);
    let r = comparison_text(e.as_str(), a.as_str());
    proof {
        assert(r@ == comparison_layout(e@, a@));
    }
    r
}

/// Builds the results of one named matcher.
pub struct MatchResultBuilder {
    pub name: String,
}

impl MatchResultBuilder {
    /// A builder for the matcher called `name`.
    pub fn for_(name: &str) -> (b: MatchResultBuilder)
        ensures
            b.name@ == name@,
    {
        MatchResultBuilder { name: String::from_str(name) }
    }

    /// Declares success.
    pub fn matched(self) -> (r: MatchResult)
        ensures
            r@ == (Verdict::Matched { name: self.name@ }),
    {
        MatchResult::Matched { name: self.name }
    }

    /// Declares failure with the given reason.
    pub fn failed_because(self, reason: &str) -> (r: MatchResult)
        ensures
            r@ == (Verdict::Failed { name: self.name@, reason: reason@ }),
    {
        MatchResult::Failed { name: self.name, reason: String::from_str(reason) }
    }

    /// Declares failure as a comparison of `actual` with `expected`.
    pub fn failed_comparison<T: std::fmt::Debug>(self, actual: T, expected: T) -> (r: MatchResult)
        ensures
            r@ matches Verdict::Failed { name, reason }
                && name == self.name@ && is_comparison_text(reason),
    {
        MatchResult::Failed { name: self.name, reason: format_fail_comparison(actual, expected) }
    }
}

/// Anything that can be asked whether a value of type `T` satisfies it.
///
/// `allows(v, out)` holds of every result `out` that checking `v` may give.
/// For most matchers exactly one result is allowed; the text of a rendered
/// reason, or the identity of a storage location, can leave more open.
pub trait Matcher<T> {
    spec fn allows(&self, actual: T, out: Verdict) -> bool;

    fn check(&self, actual: &T) -> (r: MatchResult)
        ensures
            self.allows(*actual, r@),
            r@.well_formed(),
    ;
}

} // verus!
