use pizza::harness::{Pizza, PizzaTest};
use pizza::outcome::{assert_false, assert_true, eq_failure, panic_outcome, TestResult};
use pizza::report::{banner, decimal, running_line, status_line, RunSummary};
use std::cell::RefCell;
use std::rc::Rc;

fn message(r: &TestResult) -> Option<String> {
    match r {
        TestResult::Pass => None,
        TestResult::Fail(m) => Some(m.clone()),
    }
}

#[test]
fn assert_eq_equal_values_pass() {
    assert!(pizza::outcome::assert_eq(2 + 2, 4).passed());
    assert!(pizza::outcome::assert_eq("x", "x").passed());
    assert!(pizza::outcome::assert_eq(vec![1, 2], vec![1, 2]).passed());
}

#[test]
fn assert_eq_unequal_values_fail_with_both_values() {
    let r = pizza::outcome::assert_eq(1 + 1, 3);
    assert_eq!(message(&r), Some("Assertion failed: 2 != 3".to_string()));
    let r = pizza::outcome::assert_eq("a", "b");
    assert_eq!(message(&r), Some("Assertion failed: \"a\" != \"b\"".to_string()));
}

#[test]
fn eq_failure_embeds_both_texts() {
    let r = eq_failure("left", "right");
    assert_eq!(message(&r), Some("Assertion failed: left != right".to_string()));
}

#[test]
fn assert_true_and_false() {
    assert!(assert_true(true).passed());
    assert_eq!(
        message(&assert_true(false)),
        Some("Assertion failed: condition is false".to_string())
    );
    assert!(assert_false(false).passed());
    assert_eq!(
        message(&assert_false(true)),
        Some("Assertion failed: condition is true".to_string())
    );
}

#[test]
fn panic_outcome_is_sentinel_failure() {
    assert_eq!(message(&panic_outcome()), Some("Panic occurred".to_string()));
}

#[test]
fn decimal_renders_numbers() {
    assert_eq!(decimal(0), "0");
    assert_eq!(decimal(7), "7");
    assert_eq!(decimal(10), "10");
    assert_eq!(decimal(4096), "4096");
    assert_eq!(decimal(usize::MAX), usize::MAX.to_string());
}

#[test]
fn report_lines() {
    assert_eq!(banner(), "\u{1f355} Pizza Test Framework \u{1f355}");
    assert_eq!(running_line(0, "A"), "Running test 1: A");
    assert_eq!(running_line(11, "B"), "Running test 12: B");
    assert_eq!(
        status_line("A", "1ms", &TestResult::Pass),
        "\x1b[32m\u{2705} A: PASSED in 1ms\x1b[0m"
    );
    assert_eq!(
        status_line("D", "2ms", &TestResult::Fail("why".to_string())),
        "\x1b[31m\u{274c} D: FAILED in 2ms - why\x1b[0m"
    );
}

#[test]
fn empty_run_summary() {
    let s = RunSummary::new();
    let (header, totals) = s.finish(0);
    assert_eq!(header, "\nTest Summary (total time: 0ns):");
    assert_eq!(totals, "Total: 0, \x1b[32mPassed: 0\x1b[0m, \x1b[31mFailed: 0\x1b[0m");
}

#[test]
fn record_counts_and_formats_durations() {
    let mut s = RunSummary::new();
    let line = s.record("A", &TestResult::Pass, 0, 1_500);
    assert_eq!(line, "\x1b[32m\u{2705} A: PASSED in 1.5\u{b5}s\x1b[0m");
    let line = s.record("B", &panic_outcome(), 2_000, 2_000_000);
    assert_eq!(line, "\x1b[31m\u{274c} B: FAILED in 1.998ms - Panic occurred\x1b[0m");
    assert_eq!((s.total(), s.passed(), s.failed(), s.clock()), (2, 1, 1, 2_000_000));
    assert_eq!(s.running_line("C"), "Running test 3: C");
    let (header, _) = s.finish(3_000_000_000);
    assert_eq!(header, "\nTest Summary (total time: 3s):");
}

#[test]
fn failure_does_not_stop_later_tests() {
    let mut s = RunSummary::new();
    s.record("crash", &panic_outcome(), 0, 10);
    s.record("fine", &TestResult::Pass, 10, 20);
    s.record("also fine", &assert_true(true), 20, 30);
    assert_eq!((s.total(), s.passed(), s.failed()), (3, 2, 1));
}

struct Case {
    name: &'static str,
    body: fn() -> TestResult,
    log: Rc<RefCell<Vec<String>>>,
}

impl PizzaTest for Case {
    fn name(&self) -> &'static str {
        self.name
    }

    fn setup(&self) {
        self.log.borrow_mut().push(format!("setup {}", self.name));
    }

    fn run(&self) -> TestResult {
        self.log.borrow_mut().push(format!("run {}", self.name));
        (self.body)()
    }

    fn teardown(&self) {
        self.log.borrow_mut().push(format!("teardown {}", self.name));
    }
}

fn scenario(log: &Rc<RefCell<Vec<String>>>) -> Pizza<Case> {
    let mut p = Pizza::new();
    p.add_test(Case { name: "A", body: || pizza::outcome::assert_eq(2 + 2, 4), log: log.clone() });
    p.add_test(Case { name: "B", body: || assert_true(3 > 2), log: log.clone() });
    p.add_test(Case { name: "C", body: || assert_false(1 > 2), log: log.clone() });
    p.add_test(Case { name: "D", body: || pizza::outcome::assert_eq(1 + 1, 3), log: log.clone() });
    p
}

#[test]
fn tests_keep_registration_order_and_hooks_wrap_body() {
    let log = Rc::new(RefCell::new(Vec::new()));
    let p = scenario(&log);
    assert_eq!(p.len(), 4);
    let names: Vec<&str> = (0..p.len()).map(|i| p.name(i)).collect();
    assert_eq!(names, vec!["A", "B", "C", "D"]);
    assert_eq!(p.test(2).name(), "C");
    assert!(!p.run_test(3).passed());
    assert_eq!(*log.borrow(), vec!["setup D", "run D", "teardown D"]);
}

#[test]
fn four_test_scenario_summary() {
    let log = Rc::new(RefCell::new(Vec::new()));
    let p = scenario(&log);
    let mut s = RunSummary::new();
    let mut lines = Vec::new();
    while let Some(i) = p.next_index(&s) {
        lines.push(s.running_line(p.name(i)));
        let r = p.run_test(i);
        let t = s.clock();
        lines.push(s.record(p.name(i), &r, t, t + 1));
    }
    let (_, totals) = s.finish(s.clock());
    assert_eq!(totals, "Total: 4, \x1b[32mPassed: 3\x1b[0m, \x1b[31mFailed: 1\x1b[0m");
    assert_eq!(lines[0], "Running test 1: A");
    assert_eq!(lines[6], "Running test 4: D");
    assert!(lines[7].contains("Assertion failed: 2 != 3"));
    assert!(lines[7].contains("D: FAILED"));
}

#[test]
fn next_index_walks_registration_order_once() {
    let log = Rc::new(RefCell::new(Vec::new()));
    let p = scenario(&log);
    let mut s = RunSummary::new();
    let mut seen = Vec::new();
    while let Some(i) = p.next_index(&s) {
        seen.push(i);
        s.record(p.name(i), &TestResult::Pass, 0, 0);
    }
    assert_eq!(seen, vec![0, 1, 2, 3]);
    assert_eq!(p.next_index(&s), None);
    let empty: Pizza<Case> = Pizza::new();
    assert_eq!(empty.next_index(&RunSummary::new()), None);
}

fn sentinel_guard(t: &Case) -> TestResult {
    t.log.borrow_mut().push(format!("guarded {}", t.name));
    panic_outcome()
}

#[test]
fn guarded_run_keeps_hooks_and_takes_guard_outcome() {
    let log = Rc::new(RefCell::new(Vec::new()));
    let p = scenario(&log);
    let r = p.run_test_guarded(0, sentinel_guard);
    assert_eq!(message(&r), Some("Panic occurred".to_string()));
    assert_eq!(*log.borrow(), vec!["setup A", "guarded A", "teardown A"]);
    let r = p.run_test_guarded(1, |t: &Case| t.run());
    assert!(r.passed());
}
