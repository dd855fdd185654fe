use vstd::prelude::*;

mod laws;
mod reporters;
mod types;

pub use reporters::CompositeReporter;
pub use reporters::ProgressReporter;
pub use reporters::Reporter;
pub use reporters::StatisticsReporter;
pub use types::TestResult;
pub use types::TestStats;
pub use types::TestTimings;

use rayon::iter::IntoParallelRefIterator;
use rayon::iter::ParallelIterator;
use reporters::footer_text;
use reporters::header_text;
use types::glyph_char;
use types::glyphs;

verus! {

/// A runnable test case: the one capability the engine needs from a test.
///
/// Invoking `run` produces exactly one outcome. Little further is required:
/// a test may be nondeterministic, so two invocations may return different
/// outcomes. A test that is to be run in parallel must tolerate concurrent
/// invocation, which the engine does not check.
///
/// A test that does know something of its outcome may narrow `may_return`;
/// the engine then promises that everything it reports for this test is an
/// outcome the test could have produced. By default any outcome is allowed.
pub trait Runnable {
    /// Which outcomes an invocation of this test can produce.
    open spec fn may_return(&self, result: TestResult) -> bool {
        true
    }

    fn run(&self) -> (r: TestResult)
        ensures
            self.may_return(r),
    ;
}

/// Relies on rayon's parallel iterators: `par_iter().map(..).collect()`
/// invokes the mapping closure exactly once per element and, the source
/// iterator being indexed, collects the mapped values in input order — so
/// the vector holds, at each position, one outcome of the test at that
/// position. The closure only invokes the test's own `run`.
#[verifier::external_body]
fn run_all_parallel<T: Runnable + Sync>(tests: &Vec<T>) -> (r: Vec<TestResult>)
    ensures
        r@.len() == tests@.len(),
        forall|i: int| 0 <= i < tests@.len() ==> tests@[i].may_return(r@[i]),
{
    tests.par_iter().map(|test| test.run()).collect()
}

/// The full text one run writes to its sink when it delivers the outcomes
/// `rs` and measures `nanos` nanoseconds of elapsed time: the header, one
/// glyph per outcome in delivery order, and the closing statistics.
pub open spec fn run_output(rs: Seq<TestResult>, nanos: u64) -> Seq<char> {
    header_text() + glyphs(rs) + footer_text(nanos, rs)
}

/// The execution engine: runs every test of a batch exactly once, delivers
/// every outcome to the reporter pipeline exactly once, and drives the
/// reporter lifecycle around the whole batch.
pub struct TestRunner {
    parallelism: bool,
}

impl TestRunner {
    /// Whether this runner dispatches its tests to a worker pool rather
    /// than running them one after the other.
    pub closed spec fn is_parallel(&self) -> bool {
        self.parallelism
    }

    /// A runner; `parallelism` selects parallel dispatch over sequential.
    pub fn new(parallelism: bool) -> (r: TestRunner)
        ensures
            r.is_parallel() == parallelism,
    {
        TestRunner { parallelism }
    }

    /// Runs the whole batch and writes the report to `out`: the header, one
    /// glyph per test as its outcome arrives, and the closing statistics
    /// over exactly the delivered outcomes — here, one outcome of each test,
    /// with the outcome of the `i`th test delivered `i`th.
    pub fn run<T: Runnable + Sync>(&self, tests: &Vec<T>, out: &mut String)
        ensures
            exists|rs: Seq<TestResult>, nanos: u64|
                rs.len() == tests@.len()
                && (forall|i: int| 0 <= i < rs.len() ==> tests@[i].may_return(rs[i]))
                && final(out)@ == old(out)@ + run_output(rs, nanos),
    {
        let ghost out0 = out@;
        let progress = ProgressReporter::new();
        let statistics = StatisticsReporter::new();
        let mut reporter = CompositeReporter::new(progress, statistics);
        reporter.start(out);
        proof {
            assert(out@ =~= out0 + header_text());
        }

        let ghost mut delivered = Seq::<TestResult>::empty();
        proof {
            assert(glyphs(delivered) =~= Seq::<char>::empty());
            assert(out@ =~= out0 + header_text() + glyphs(delivered));
        }

        if self.parallelism {
            let results = run_all_parallel(tests);
            proof {
                assert(results@.subrange(0, 0) =~= Seq::<TestResult>::empty());
            }
            let mut i: usize = 0;
            while i < results.len()
                invariant
                    i <= results.len(),
                    results@.len() == tests@.len(),
                    forall|j: int| 0 <= j < tests@.len() ==> tests@[j].may_return(results@[j]),
                    delivered == results@.subrange(0, i as int),
                    reporter.a.recorded() == delivered,
                    reporter.b.recorded() == delivered,
                    out@ == out0 + header_text() + glyphs(delivered),
                decreases results.len() - i,
            {
                let result = results[i];
                reporter.record(&result, out);
                proof {
                    let prev = delivered;
                    delivered = delivered.push(result);
                    assert(delivered =~= results@.subrange(0, i as int + 1));
                    assert(glyphs(delivered) =~= glyphs(prev).push(glyph_char(result)));
                    assert(out@ =~= out0 + header_text() + glyphs(delivered));
                }
                i = i + 1;
            }
        } else {
            let mut i: usize = 0;
            while i < tests.len()
                invariant
                    i <= tests.len(),
                    delivered.len() == i,
                    forall|j: int| 0 <= j < i ==> tests@[j].may_return(delivered[j]),
                    reporter.a.recorded() == delivered,
                    reporter.b.recorded() == delivered,
                    out@ == out0 + header_text() + glyphs(delivered),
                decreases tests.len() - i,
            {
                let result = tests[i].run();
                reporter.record(&result, out);
                proof {
                    let prev = delivered;
                    delivered = delivered.push(result);
                    assert(glyphs(delivered) =~= glyphs(prev).push(glyph_char(result)));
                    assert(out@ =~= out0 + header_text() + glyphs(delivered));
                }
                i = i + 1;
            }
        }

        proof {
            assert(delivered.len() == tests@.len());
            assert(forall|j: int|
                0 <= j < delivered.len() ==> tests@[j].may_return(delivered[j]));
        }
        let ghost before_report = out@;
        let ghost rep_before = reporter;
        reporter.report(out);
        proof {
            let t = choose|t: Seq<char>|
                rep_before.report_allows(t) && out@ == before_report + t;
            let (ta, tb) = choose|ta: Seq<char>, tb: Seq<char>|
                rep_before.a.report_allows(ta) && rep_before.b.report_allows(tb)
                    && t == ta + tb;
            let nanos = choose|nanos: u64| tb == footer_text(nanos, delivered);
            assert(out@ =~= out0 + run_output(delivered, nanos));
        }
    }
}

} // verus!
