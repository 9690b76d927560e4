use crate::outcome::TestResult;
use vstd::prelude::*;

verus! {

pub open spec fn digit_chars() -> Seq<char> {
    "0123456789"@
}

/// The decimal form of `n`, most significant digit first, without leading
/// zeros.
pub open spec fn decimal_text(n: nat) -> Seq<char>
    decreases n,
{
    if n < 10 {
        digit_chars().subrange(n as int, n + 1int)
    } else {
        decimal_text(n / 10) + digit_chars().subrange((n % 10) as int, (n % 10) + 1int)
    }
}

/// The decimal form of `n`.
pub fn decimal(n: usize) -> (r: String)
    ensures
        r@ == decimal_text(n as nat),
    decreases n,
{
    let digits = "0123456789";
    proof {
        reveal_strlit("0123456789");
    }
    if n < 10 {
        String::from_str(digits.substring_ascii(n, n + 1))
    } else {
        let mut s = decimal(n / 10);
        s.append(digits.substring_ascii(n % 10, n % 10 + 1));
        s
    }
}

/// Relies on the `Debug` formatting of `std::time::Duration`: the text
/// depends on the length of the interval alone.
pub uninterp spec fn duration_debug(nanos: nat) -> Seq<char>;

/// Relies on `std::time::Duration::from_nanos` and its `Debug` formatting.
#[verifier::external_body]
fn duration_text(nanos: u64) -> (r: String)
    ensures
        r@ == duration_debug(nanos as nat),
{
    format!("{:?}", std::time::Duration::from_nanos(nanos))
}

pub open spec fn banner_text() -> Seq<char> {
    "\u{1f355} Pizza Test Framework \u{1f355}"@
}

pub open spec fn running_text(index: nat, name: Seq<char>) -> Seq<char> {
    "Running test "@ + decimal_text(index + 1) + ": "@ + name
}

pub open spec fn passed_text(name: Seq<char>, duration: Seq<char>) -> Seq<char> {
    "\x1b[32m\u{2705} "@ + name + ": PASSED in "@ + duration + "\x1b[0m"@
}

pub open spec fn failed_text(name: Seq<char>, duration: Seq<char>, reason: Seq<char>) -> Seq<char> {
    "\x1b[31m\u{274c} "@ + name + ": FAILED in "@ + duration + " - "@ + reason + "\x1b[0m"@
}

/// The status line of one finished test.
pub open spec fn status_text(name: Seq<char>, duration: Seq<char>, result: TestResult) -> Seq<char> {
    if result.is_pass() {
        passed_text(name, duration)
    } else {
        failed_text(name, duration, result.message())
    }
}

pub open spec fn summary_header_text(duration: Seq<char>) -> Seq<char> {
    "\nTest Summary (total time: "@ + duration + "):"@
}

pub open spec fn totals_text(total: nat, passed: nat, failed: nat) -> Seq<char> {
    "Total: "@ + decimal_text(total) + ", \x1b[32mPassed: "@ + decimal_text(passed)
        + "\x1b[0m, \x1b[31mFailed: "@ + decimal_text(failed) + "\x1b[0m"@
}

/// The line printed before anything else.
pub fn banner() -> (r: String)
    ensures
        r@ == banner_text(),
{
    String::from_str("\u{1f355} Pizza Test Framework \u{1f355}")
}

/// The line announcing the test at zero-based `index`, numbered from one.
pub fn running_line(index: usize, name: &str) -> (r: String)
    requires
        index < usize::MAX,
    ensures
        r@ == running_text(index as nat, name@),
{
    let mut s = String::from_str("Running test ");
    let number = decimal(index + 1);
    s.append(number.as_str());
    s.append(": ");
    s.append(name);
    s
}

/// The status line of a finished test, given the text of its duration.
pub fn status_line(name: &str, duration: &str, result: &TestResult) -> (r: String)
    ensures
        r@ == status_text(name@, duration@, *result),
{
    match result {
        TestResult::Pass => {
            let mut s = String::from_str("\x1b[32m\u{2705} ");
            s.append(name);
            s.append(": PASSED in ");
            s.append(duration);
            s.append("\x1b[0m");
            s
        },
        TestResult::Fail(reason) => {
            let mut s = String::from_str("\x1b[31m\u{274c} ");
            s.append(name);
            s.append(": FAILED in ");
            s.append(duration);
            s.append(" - ");
            s.append(reason.as_str());
            s.append("\x1b[0m");
            s
        },
    }
}

/// The number of passing outcomes in `s`.
pub open spec fn count_passed(s: Seq<bool>) -> nat
    decreases s.len(),
{
    if s.len() == 0 {
        0
    } else {
        count_passed(s.drop_last()) + if s.last() { 1nat } else { 0nat }
    }
}

/// The number of failing outcomes in `s`.
pub open spec fn count_failed(s: Seq<bool>) -> nat
    decreases s.len(),
{
    if s.len() == 0 {
        0
    } else {
        count_failed(s.drop_last()) + if s.last() { 0nat } else { 1nat }
    }
}

/// Every outcome is counted exactly once, as passed or as failed.
pub proof fn lemma_counts_partition(s: Seq<bool>)
    ensures
        count_passed(s) + count_failed(s) == s.len(),
    decreases s.len(),
{
    if s.len() > 0 {
        lemma_counts_partition(s.drop_last());
    }
}

/// The running aggregate of a test run: one outcome and one duration per
/// finished test, in the order in which they finished, and the run's clock in
/// nanoseconds since the run began.
pub struct RunSummary {
    passed: usize,
    failed: usize,
    clock: u64,
    outcomes: Ghost<Seq<bool>>,
    durations: Ghost<Seq<nat>>,
}

impl RunSummary {
    /// Whether each finished test passed, in order.
    pub closed spec fn outcomes(&self) -> Seq<bool> {
        self.outcomes@
    }

    /// How long each finished test took, in nanoseconds, in order.
    pub closed spec fn durations(&self) -> Seq<nat> {
        self.durations@
    }

    pub closed spec fn clock_spec(&self) -> nat {
        self.clock as nat
    }

    pub closed spec fn wf(&self) -> bool {
        &&& self.passed == count_passed(self.outcomes@)
        &&& self.failed == count_failed(self.outcomes@)
        &&& self.outcomes@.len() <= usize::MAX
        &&& self.durations@.len() == self.outcomes@.len()
        &&& forall|i: int| 0 <= i < self.durations@.len() ==> #[trigger] self.durations@[i] <= self.clock
    }

    pub open spec fn total_spec(&self) -> nat {
        self.outcomes().len()
    }

    /// The well-formedness of a summary in terms of its public views: counts
    /// split the finished tests, and no test outlasted the clock.
    pub proof fn lemma_wf(&self)
        requires
            self.wf(),
        ensures
            self.durations().len() == self.outcomes().len(),
            count_passed(self.outcomes()) + count_failed(self.outcomes()) == self.total_spec(),
            forall|i: int| 0 <= i < self.durations().len() ==> #[trigger] self.durations()[i] <= self.clock_spec(),
    {
        lemma_counts_partition(self.outcomes@);
    }

    pub fn new() -> (r: Self)
        ensures
            r.wf(),
            r.outcomes() == Seq::<bool>::empty(),
            r.durations() == Seq::<nat>::empty(),
            r.clock_spec() == 0,
    {
        RunSummary { passed: 0, failed: 0, clock: 0, outcomes: Ghost(Seq::empty()), durations: Ghost(Seq::empty()) }
    }

    pub fn passed(&self) -> (r: usize)
        requires
            self.wf(),
        ensures
            r == count_passed(self.outcomes()),
    {
        self.passed
    }

    pub fn failed(&self) -> (r: usize)
        requires
            self.wf(),
        ensures
            r == count_failed(self.outcomes()),
    {
        self.failed
    }

    pub fn total(&self) -> (r: usize)
        requires
            self.wf(),
        ensures
            r == self.total_spec(),
    {
        proof {
            lemma_counts_partition(self.outcomes@);
        }
        self.passed + self.failed
    }

    /// Nanoseconds since the run began, as of the last recorded event.
    pub fn clock(&self) -> (r: u64)
        ensures
            r == self.clock_spec(),
    {
        self.clock
    }

    /// Records the outcome of the next test, which ran from `started` to
    /// `ended` (nanoseconds since the run began), and returns its status
    /// line. Any outcome, a failure included, leaves the run going.
    pub fn record(&mut self, name: &str, result: &TestResult, started: u64, ended: u64) -> (line: String)
        requires
            old(self).wf(),
            old(self).clock_spec() <= started <= ended,
            old(self).total_spec() < usize::MAX,
        ensures
            final(self).wf(),
            final(self).outcomes() == old(self).outcomes().push(result.is_pass()),
            final(self).durations() == old(self).durations().push((ended - started) as nat),
            final(self).clock_spec() == ended,
            line@ == status_text(name@, duration_debug((ended - started) as nat), *result),
    {
        proof {
            lemma_counts_partition(self.outcomes@);
        }
        let passed = result.passed();
        let ghost before = self.outcomes@;
        if passed {
            self.passed = self.passed + 1;
        } else {
            self.failed = self.failed + 1;
        }
        self.outcomes = Ghost(self.outcomes@.push(passed));
        self.durations = Ghost(self.durations@.push((ended - started) as nat));
        self.clock = ended;
        proof {
            assert(self.outcomes@.drop_last() == before);
        }
        let duration = duration_text(ended - started);
        status_line(name, duration.as_str(), result)
    }

    /// Closes the run at `ended` (nanoseconds since it began) and returns
    /// the two summary lines: the total time, then the counts.
    pub fn finish(&self, ended: u64) -> (r: (String, String))
        requires
            self.wf(),
            self.clock_spec() <= ended,
        ensures
            r.0@ == summary_header_text(duration_debug(ended as nat)),
            r.1@ == totals_text(
                self.total_spec(),
                count_passed(self.outcomes()),
                count_failed(self.outcomes()),
            ),
    {
        let mut header = String::from_str("\nTest Summary (total time: ");
        let duration = duration_text(ended);
        header.append(duration.as_str());
        header.append("):");
        let mut totals = String::from_str("Total: ");
        let total = decimal(self.total());
        totals.append(total.as_str());
        totals.append(", \x1b[32mPassed: ");
        let passed = decimal(self.passed);
        totals.append(passed.as_str());
        totals.append("\x1b[0m, \x1b[31mFailed: ");
        let failed = decimal(self.failed);
        totals.append(failed.as_str());
        totals.append("\x1b[0m");
        (header, totals)
    }

    /// The line announcing the next test to run.
    pub fn running_line(&self, name: &str) -> (r: String)
        requires
            self.wf(),
            self.total_spec() < usize::MAX,
        ensures
            r@ == running_text(self.total_spec(), name@),
    {
        running_line(self.total(), name)
    }
}

/// Counting is exact: after any sequence of recorded outcomes, passed and
/// failed add up to the number of tests, each counted once.
pub proof fn lemma_total_is_passed_plus_failed(summary: &RunSummary)
    requires
        summary.wf(),
    ensures
        count_passed(summary.outcomes()) + count_failed(summary.outcomes()) == summary.total_spec(),
        summary.total_spec() == summary.outcomes().len(),
{
    summary.lemma_wf();
}

/// Timing is consistent: no finished test took longer than the whole run,
/// measured up to any moment not before the last recorded event.
pub proof fn lemma_test_within_run(summary: &RunSummary, ended: nat, i: int)
    requires
        summary.wf(),
        summary.clock_spec() <= ended,
        0 <= i < summary.durations().len(),
    ensures
        summary.durations()[i] <= ended,
{
    summary.lemma_wf();
}

} // verus!
