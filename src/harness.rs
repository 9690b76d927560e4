use crate::outcome::TestResult;
use crate::report::{count_failed, count_passed, RunSummary};
use vstd::prelude::*;

verus! {

/// A named test case. Implementors supply the body; the hooks around it
/// default to doing nothing.
pub trait PizzaTest {
    fn name(&self) -> &'static str;

    fn setup(&self) {
    }

    fn run(&self) -> TestResult;

    fn teardown(&self) {
    }
}

/// The registry of test cases, kept in the order in which they were added,
/// which is also the order in which they run.
pub struct Pizza<T: PizzaTest> {
    tests: Vec<T>,
}

impl<T: PizzaTest> Pizza<T> {
    pub closed spec fn tests(&self) -> Seq<T> {
        self.tests@
    }

    pub fn new() -> (r: Self)
        ensures
            r.tests() == Seq::<T>::empty(),
    {
        Pizza { tests: Vec::new() }
    }

    /// Appends a test case after all those already registered.
    pub fn add_test(&mut self, test: T)
        ensures
            final(self).tests() == old(self).tests().push(test),
    {
        self.tests.push(test);
    }

    pub fn len(&self) -> (r: usize)
        ensures
            r == self.tests().len(),
    {
        self.tests.len()
    }

    /// The registered test at `index`.
    pub fn test(&self, index: usize) -> (r: &T)
        requires
            index < self.tests().len(),
        ensures
            *r == self.tests()[index as int],
    {
        &self.tests[index]
    }

    /// The display name of the test at `index`.
    pub fn name(&self, index: usize) -> (r: &'static str)
        requires
            index < self.tests().len(),
        ensures
            call_ensures(T::name, (&self.tests()[index as int],), r),
    {
        self.tests[index].name()
    }

    /// Runs the test at `index`: its setup, its body, then its teardown,
    /// whatever the body returned. The body's outcome is returned.
    pub fn run_test(&self, index: usize) -> (r: TestResult)
        requires
            index < self.tests().len(),
        ensures
            call_ensures(T::run, (&self.tests()[index as int],), r),
    {
        let test = &self.tests[index];
        test.setup();
        let result = test.run();
        test.teardown();
        result
    }

    /// Runs the test at `index` as `run_test` does, except that the body is
    /// invoked through `guard`, which is handed the test and returns its
    /// outcome. A guard that contains abnormal termination of the body makes
    /// this call the one boundary at which a fault is turned into a failure;
    /// teardown still follows.
    pub fn run_test_guarded<F: Fn(&T) -> TestResult>(&self, index: usize, guard: F) -> (r: TestResult)
        requires
            index < self.tests().len(),
            call_requires(guard, (&self.tests()[index as int],)),
        ensures
            call_ensures(guard, (&self.tests()[index as int],), r),
    {
        let test = &self.tests[index];
        test.setup();
        let result = guard(test);
        test.teardown();
        result
    }

    /// The index of the next test to run, given what the run has recorded so
    /// far: tests run once each, in the order they were registered, and the
    /// run ends when all of them have been recorded.
    pub fn next_index(&self, summary: &RunSummary) -> (r: Option<usize>)
        requires
            summary.wf(),
        ensures
            r == if summary.total_spec() < self.tests().len() {
                Some(summary.total_spec() as usize)
            } else {
                None::<usize>
            },
    {
        let done = summary.total();
        if done < self.tests.len() {
            Some(done)
        } else {
            None
        }
    }
}

/// A run driven by `next_index` ends with every registered test recorded
/// once: at that point passed and failed add up to the number of tests.
pub proof fn lemma_finished_run_counts_every_test<T: PizzaTest>(pizza: &Pizza<T>, summary: &RunSummary)
    requires
        summary.wf(),
        summary.total_spec() == pizza.tests().len(),
    ensures
        count_passed(summary.outcomes()) + count_failed(summary.outcomes()) == pizza.tests().len(),
{
    summary.lemma_wf();
}

} // verus!
