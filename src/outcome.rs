use vstd::laws_eq::obeys_concrete_eq;
use vstd::prelude::*;
use vstd::std_specs::cmp::PartialEqSpec;

verus! {

/// The outcome of one test body.
#[derive(Debug)]
pub enum TestResult {
    Pass,
    Fail(String),
}

impl TestResult {
    pub open spec fn is_pass(&self) -> bool {
        self is Pass
    }

    /// The diagnostic of a failed outcome; empty for a pass.
    pub open spec fn message(&self) -> Seq<char> {
        match self {
            TestResult::Pass => Seq::empty(),
            TestResult::Fail(m) => m@,
        }
    }

    /// A failure always explains itself.
    pub open spec fn wf(&self) -> bool {
        self is Fail ==> self.message().len() > 0
    }

    pub fn passed(&self) -> (r: bool)
        ensures
            r == self.is_pass(),
    {
        match self {
            TestResult::Pass => true,
            TestResult::Fail(_) => false,
        }
    }
}

pub open spec fn eq_failure_text(left: Seq<char>, right: Seq<char>) -> Seq<char> {
    "Assertion failed: "@ + left + " != "@ + right
}

pub open spec fn true_failure_text() -> Seq<char> {
    "Assertion failed: condition is false"@
}

pub open spec fn false_failure_text() -> Seq<char> {
    "Assertion failed: condition is true"@
}

pub open spec fn panic_text() -> Seq<char> {
    "Panic occurred"@
}

/// Relies on the `Debug` formatting of `T`; nothing is assumed of the text.
#[verifier::external_body]
fn debug_text<T: std::fmt::Debug>(value: &T) -> (r: String) {
    format!("{:?}", value)
}

/// The failure reported when two values differ, given their textual forms.
pub fn eq_failure(left_text: &str, right_text: &str) -> (r: TestResult)
    ensures
        !r.is_pass(),
        r.message() == eq_failure_text(left_text@, right_text@),
        r.wf(),
{
    let mut m = String::from_str("Assertion failed: ");
    m.append(left_text);
    m.append(" != ");
    m.append(right_text);
    proof {
        reveal_strlit("Assertion failed: ");
    }
    TestResult::Fail(m)
}

/// Passes when the two values are equal; otherwise fails with a message that
/// shows both of them.
pub fn assert_eq<T: PartialEq + std::fmt::Debug>(left: T, right: T) -> (r: TestResult)
    ensures
        T::obeys_eq_spec() ==> (r.is_pass() <==> left.eq_spec(&right)),
        !r.is_pass() ==> exists|a: Seq<char>, b: Seq<char>|
            r.message() == #[trigger] eq_failure_text(a, b),
        r.wf(),
{
    if left == right {
        TestResult::Pass
    } else {
        let l = debug_text(&left);
        let rt = debug_text(&right);
        eq_failure(l.as_str(), rt.as_str())
    }
}

/// Passes exactly when the condition holds.
pub fn assert_true(condition: bool) -> (r: TestResult)
    ensures
        r.is_pass() == condition,
        !condition ==> r.message() == true_failure_text(),
        r.wf(),
{
    if condition {
        TestResult::Pass
    } else {
        proof {
            reveal_strlit("Assertion failed: condition is false");
        }
        TestResult::Fail(String::from_str("Assertion failed: condition is false"))
    }
}

/// Passes exactly when the condition does not hold.
pub fn assert_false(condition: bool) -> (r: TestResult)
    ensures
        r.is_pass() == !condition,
        condition ==> r.message() == false_failure_text(),
        r.wf(),
{
    if !condition {
        TestResult::Pass
    } else {
        proof {
            reveal_strlit("Assertion failed: condition is true");
        }
        TestResult::Fail(String::from_str("Assertion failed: condition is true"))
    }
}

/// The outcome that stands for a test body that terminated abnormally.
pub fn panic_outcome() -> (r: TestResult)
    ensures
        !r.is_pass(),
        r.message() == panic_text(),
        r.wf(),
{
    proof {
        reveal_strlit("Panic occurred");
    }
    TestResult::Fail(String::from_str("Panic occurred"))
}

/// Comparing a value with itself passes, for every type whose `==` is
/// equality.
pub proof fn lemma_assert_eq_reflexive<T: PartialEq>(x: T)
    requires
        obeys_concrete_eq::<T>(),
    ensures
        T::obeys_eq_spec(),
        x.eq_spec(&x),
{
    reveal(obeys_concrete_eq);
}

/// Comparing two different values fails, for every type whose `==` is
/// equality.
pub proof fn lemma_assert_eq_distinct<T: PartialEq>(x: T, y: T)
    requires
        obeys_concrete_eq::<T>(),
        x != y,
    ensures
        T::obeys_eq_spec(),
        !x.eq_spec(&y),
{
    reveal(obeys_concrete_eq);
}

} // verus!
