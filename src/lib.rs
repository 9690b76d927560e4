//! A small sequential test harness: outcomes, assertion helpers, a registry
//! of test cases, and the text of the run report.

pub mod harness;
pub mod outcome;
pub mod report;

pub use outcome::TestResult;
