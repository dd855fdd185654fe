use std::iter::repeat;

use littletest::{
    CompositeReporter, ProgressReporter, Reporter, Runnable, StatisticsReporter, TestResult,
    TestRunner, TestStats, TestTimings,
};

struct TestCase {
    result: TestResult,
}

impl TestCase {
    fn new(result: TestResult) -> TestCase {
        TestCase { result }
    }
}

impl Runnable for TestCase {
    fn run(&self) -> TestResult {
        self.result.clone()
    }
}

fn run_to_string(tests: &Vec<TestCase>, parallel: bool) -> String {
    let runner = TestRunner::new(parallel);
    let mut out = String::new();
    runner.run(tests, &mut out);
    out
}

/// Splits a report into its glyph section and its statistics line.
fn parse_report(out: &str) -> (String, String) {
    let rest = out
        .strip_prefix("# Running.\n\n")
        .expect("report must open with the header line");
    let glyph_end = rest.find("\n\n").expect("report must hold a footer");
    let glyphs = &rest[..glyph_end];
    let after_timings = &rest[glyph_end + 2..];
    let stats_start = after_timings.find("\n\n").expect("footer must hold a stats line") + 2;
    let stats_seg = &after_timings[stats_start..];
    let stats_end = stats_seg.find('\n').expect("stats line must end with a newline");
    (glyphs.to_string(), stats_seg[..stats_end].to_string())
}

#[test]
fn it_works() {
    let runnables = repeat(TestResult::Pass)
        .take(10)
        .map(|result| TestCase::new(result))
        .collect::<Vec<_>>();

    let runner = TestRunner::new(true);
    let mut out = String::new();
    runner.run(&runnables, &mut out);
}

#[test]
fn all_pass_sequential() {
    let tests: Vec<TestCase> = (0..10).map(|_| TestCase::new(TestResult::Pass)).collect();
    let out = run_to_string(&tests, false);
    let (glyphs, stats) = parse_report(&out);
    assert_eq!(glyphs, "..........");
    assert_eq!(stats, "10 runs, 0 failures, 0 errors, 0 skips.");
    assert!(!out.contains("You have skipped tests."));
}

#[test]
fn all_pass_parallel() {
    let tests: Vec<TestCase> = (0..10).map(|_| TestCase::new(TestResult::Pass)).collect();
    let out = run_to_string(&tests, true);
    let (glyphs, stats) = parse_report(&out);
    assert_eq!(glyphs, "..........");
    assert_eq!(stats, "10 runs, 0 failures, 0 errors, 0 skips.");
    assert!(!out.contains("You have skipped tests."));
}

#[test]
fn mixed_outcomes_sequential() {
    let tests = vec![
        TestCase::new(TestResult::Pass),
        TestCase::new(TestResult::Fail),
        TestCase::new(TestResult::Error),
        TestCase::new(TestResult::Skipped),
    ];
    let out = run_to_string(&tests, false);
    let (glyphs, stats) = parse_report(&out);
    assert_eq!(glyphs, ".FES");
    assert_eq!(stats, "4 runs, 1 failures, 1 errors, 1 skips.");
    assert!(out.ends_with("\nYou have skipped tests. Run with --verbose for details.\n"));
}

#[test]
fn mixed_outcomes_parallel_multiset() {
    let tests = vec![
        TestCase::new(TestResult::Pass),
        TestCase::new(TestResult::Fail),
        TestCase::new(TestResult::Error),
        TestCase::new(TestResult::Skipped),
    ];
    let out = run_to_string(&tests, true);
    let (glyphs, stats) = parse_report(&out);
    let mut sorted: Vec<char> = glyphs.chars().collect();
    sorted.sort();
    assert_eq!(sorted, vec!['.', 'E', 'F', 'S']);
    assert_eq!(stats, "4 runs, 1 failures, 1 errors, 1 skips.");
    assert!(out.contains("You have skipped tests."));
}

#[test]
fn empty_run() {
    let tests: Vec<TestCase> = Vec::new();
    let out = run_to_string(&tests, false);
    let (glyphs, stats) = parse_report(&out);
    assert_eq!(glyphs, "");
    assert_eq!(stats, "0 runs, 0 failures, 0 errors, 0 skips.");
    assert!(!out.contains("You have skipped tests."));
}

#[test]
fn empty_run_parallel() {
    let tests: Vec<TestCase> = Vec::new();
    let out = run_to_string(&tests, true);
    let (_, stats) = parse_report(&out);
    assert_eq!(stats, "0 runs, 0 failures, 0 errors, 0 skips.");
}

#[test]
fn skip_notice_only_with_skips() {
    let with_skip = vec![TestCase::new(TestResult::Skipped)];
    let out = run_to_string(&with_skip, false);
    assert!(out.contains("\nYou have skipped tests. Run with --verbose for details.\n"));

    let without_skip = vec![
        TestCase::new(TestResult::Pass),
        TestCase::new(TestResult::Fail),
        TestCase::new(TestResult::Error),
    ];
    let out = run_to_string(&without_skip, false);
    assert!(!out.contains("You have skipped tests."));
}

#[test]
fn stats_fold() {
    let zero = TestStats::new();
    assert_eq!(zero.runs, 0);
    assert_eq!(zero.failures, 0);
    assert_eq!(zero.errors, 0);
    assert_eq!(zero.skips, 0);

    let f = TestResult::Fail;
    let one = TestStats::create(&f);
    assert_eq!(one.runs, 1);
    assert_eq!(one.failures, 1);
    assert_eq!(one.errors, 0);
    assert_eq!(one.skips, 0);

    let s = TestResult::Skipped;
    let two = TestStats::combine(one, TestStats::create(&s));
    assert_eq!(two.runs, 2);
    assert_eq!(two.failures, 1);
    assert_eq!(two.errors, 0);
    assert_eq!(two.skips, 1);
}

#[test]
fn stats_fold_order_independent() {
    let outcomes = vec![
        TestResult::Pass,
        TestResult::Fail,
        TestResult::Error,
        TestResult::Skipped,
        TestResult::Fail,
    ];
    let forward = outcomes
        .iter()
        .map(TestStats::create)
        .fold(TestStats::new(), TestStats::combine);
    let backward = outcomes
        .iter()
        .rev()
        .map(TestStats::create)
        .fold(TestStats::new(), TestStats::combine);
    assert_eq!(forward.runs, backward.runs);
    assert_eq!(forward.failures, backward.failures);
    assert_eq!(forward.errors, backward.errors);
    assert_eq!(forward.skips, backward.skips);
}

#[test]
fn stats_line_rendering() {
    let stats = TestStats {
        runs: 5,
        failures: 1,
        errors: 2,
        skips: 3,
    };
    assert_eq!(stats.render(), "5 runs, 1 failures, 2 errors, 3 skips.");
}

#[test]
fn timings_rendering() {
    let timings = TestTimings::new(1_500_000_000, 3);
    assert_eq!(timings.render(), "Finished in 1.500000000s, 2 runs/s.");

    let zero = TestTimings::new(0, 4);
    assert_eq!(zero.render(), "Finished in 0.000000000s, 0 runs/s.");

    let fast = TestTimings::new(35_602, 10);
    assert_eq!(fast.render(), "Finished in 0.000035602s, 280883 runs/s.");
}

#[test]
fn outcome_glyphs() {
    assert_eq!(TestResult::Pass.render(), ".");
    assert_eq!(TestResult::Fail.render(), "F");
    assert_eq!(TestResult::Error.render(), "E");
    assert_eq!(TestResult::Skipped.render(), "S");
}

#[test]
fn progress_reporter_writes_each_glyph() {
    let mut reporter = ProgressReporter::new();
    let mut out = String::new();
    reporter.start(&mut out);
    assert_eq!(out, "");
    reporter.record(&TestResult::Pass, &mut out);
    reporter.record(&TestResult::Fail, &mut out);
    reporter.record(&TestResult::Error, &mut out);
    reporter.record(&TestResult::Skipped, &mut out);
    reporter.report(&mut out);
    assert_eq!(out, ".FES");
}

#[test]
fn statistics_reporter_lifecycle() {
    let mut reporter = StatisticsReporter::new();
    let mut out = String::new();
    reporter.start(&mut out);
    assert_eq!(out, "# Running.\n\n");
    reporter.record(&TestResult::Pass, &mut out);
    reporter.record(&TestResult::Skipped, &mut out);
    assert_eq!(out, "# Running.\n\n");
    reporter.report(&mut out);
    assert!(out.contains("\n2 runs, 0 failures, 0 errors, 1 skips.\n"));
    assert!(out.contains("Finished in "));
    assert!(out.contains(" runs/s."));
    assert!(out.ends_with("\nYou have skipped tests. Run with --verbose for details.\n"));
}

#[test]
fn composite_forwards_to_both_children() {
    let mut composite = CompositeReporter::new(ProgressReporter::new(), StatisticsReporter::new());
    let mut out = String::new();
    composite.start(&mut out);
    assert_eq!(out, "# Running.\n\n");
    composite.record(&TestResult::Pass, &mut out);
    composite.record(&TestResult::Fail, &mut out);
    assert_eq!(out, "# Running.\n\n.F");
    composite.report(&mut out);
    assert!(out.starts_with("# Running.\n\n.F\n\nFinished in "));
    assert!(out.contains("\n2 runs, 1 failures, 0 errors, 0 skips.\n"));
    assert!(!out.contains("You have skipped tests."));
}

#[test]
fn composite_children_run_in_order() {
    let mut composite = CompositeReporter::new(ProgressReporter::new(), ProgressReporter::new());
    let mut out = String::new();
    composite.start(&mut out);
    composite.record(&TestResult::Fail, &mut out);
    assert_eq!(out, "FF");
}

#[test]
fn single_failure_sequential() {
    let tests = vec![TestCase::new(TestResult::Fail)];
    let out = run_to_string(&tests, false);
    let (glyphs, stats) = parse_report(&out);
    assert_eq!(glyphs, "F");
    assert_eq!(stats, "1 runs, 1 failures, 0 errors, 0 skips.");
}
