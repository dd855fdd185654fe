use vstd::prelude::*;

use crate::types::TestResult;
use crate::types::TestStats;
use crate::types::TestTimings;
use crate::types::glyph_char;
use crate::types::lemma_counts_complete;
use crate::types::lemma_counts_empty;
use crate::types::lemma_counts_push;
use crate::types::stats_match;
use crate::types::stats_render;
use crate::types::stats_text;
use crate::types::n_skip;
use crate::types::timings_render;

verus! {

/// `std::time::Instant`, a monotonic timestamp. Opaque to the library: it is
/// only ever obtained from the clock and handed back to it.
#[verifier::external_type_specification]
#[verifier::external_body]
pub struct ExInstant(std::time::Instant);

/// Relies on `std::time::Instant::now`: returns the current instant of the
/// monotonic clock. The value depends on when the call runs, so nothing is
/// promised of it.
pub assume_specification[ std::time::Instant::now ]() -> std::time::Instant;

/// Relies on `std::time::Instant::elapsed`: returns the time from the given
/// instant to now. The value depends on when the call runs, so nothing is
/// promised of it.
pub assume_specification[ std::time::Instant::elapsed ](
    i: &std::time::Instant,
) -> core::time::Duration;

/// Relies on `core::time::Duration::as_nanos`: returns the total number of
/// nanoseconds of the duration. `Duration` is opaque here, so nothing more
/// can be stated of the value.
pub assume_specification[ core::time::Duration::as_nanos ](
    d: &core::time::Duration,
) -> u128;

/// The header line that opens every report.
pub open spec fn header_text() -> Seq<char> {
    "# Running.\n\n"@
}

/// The notice that closes a report whose run skipped at least one test.
pub open spec fn skip_notice_text() -> Seq<char> {
    "\nYou have skipped tests. Run with --verbose for details.\n"@
}

/// The timing and statistics lines that close every report.
pub open spec fn footer_base(nanos: u64, rs: Seq<TestResult>) -> Seq<char> {
    "\n\n"@ + timings_render(nanos, rs.len()) + "\n\n"@ + stats_text(rs) + "\n"@
}

/// Everything the statistics reporter emits when a run that received the
/// outcomes `rs` finishes after `nanos` nanoseconds: the timing line, the
/// statistics line, and — exactly when an outcome was a skip — the notice.
pub open spec fn footer_text(nanos: u64, rs: Seq<TestResult>) -> Seq<char> {
    footer_base(nanos, rs)
        + if n_skip(rs) > 0 { skip_notice_text() } else { Seq::<char>::empty() }
}

/// A consumer of the outcome stream of one run, with a strict lifecycle:
/// `start` exactly once, then `record` exactly once per completed test in
/// delivery order, then `report` exactly once. All output goes to the
/// injected sink `out`.
///
/// The contract guarantees that no reporter loses or duplicates a result:
/// `recorded` is exactly the stream delivered so far. What a reporter writes
/// is pinned by its `start_output`/`record_output`/`report_allows` spec
/// functions, so a caller that knows the concrete reporter knows the text.
pub trait Reporter {
    /// The outcomes delivered to this reporter so far, in delivery order.
    spec fn recorded(&self) -> Seq<TestResult>;

    /// The text `start` appends to the sink.
    spec fn start_output(&self) -> Seq<char>;

    /// The text `record` appends to the sink for one outcome.
    spec fn record_output(&self, result: TestResult) -> Seq<char>;

    /// Whether `report`, called in this state, may append `text` to the
    /// sink. A relation rather than a function because a report may depend
    /// on the wall clock.
    spec fn report_allows(&self, text: Seq<char>) -> bool;

    /// Opens the run.
    fn start(&mut self, out: &mut String)
        ensures
            final(self).recorded() == old(self).recorded(),
            final(out)@ == old(out)@ + old(self).start_output(),
    ;

    /// Consumes one completed outcome.
    fn record(&mut self, result: &TestResult, out: &mut String)
        ensures
            final(self).recorded() == old(self).recorded().push(*result),
            final(out)@ == old(out)@ + old(self).record_output(*result),
    ;

    /// Closes the run.
    fn report(&mut self, out: &mut String)
        ensures
            final(self).recorded() == old(self).recorded(),
            exists|t: Seq<char>|
                old(self).report_allows(t) && final(out)@ == old(out)@ + t,
    ;
}

/// Writes one glyph per completed test to the sink, immediately, so progress
/// is visible as it happens. `start` and `report` emit nothing.
pub struct ProgressReporter {
    /// The outcomes seen so far; kept only for the specification.
    pub seen: Ghost<Seq<TestResult>>,
}

impl ProgressReporter {
    /// A progress reporter that has seen no outcomes.
    pub fn new() -> (r: ProgressReporter)
        ensures
            r.recorded() == Seq::<TestResult>::empty(),
    {
        ProgressReporter { seen: Ghost(Seq::empty()) }
    }
}

impl Reporter for ProgressReporter {
    open spec fn recorded(&self) -> Seq<TestResult> {
        self.seen@
    }

    open spec fn start_output(&self) -> Seq<char> {
        Seq::<char>::empty()
    }

    open spec fn record_output(&self, result: TestResult) -> Seq<char> {
        seq![glyph_char(result)]
    }

    open spec fn report_allows(&self, text: Seq<char>) -> bool {
        text == Seq::<char>::empty()
    }

    fn start(&mut self, out: &mut String) {
        proof {
            assert(out@ =~= out@ + Seq::<char>::empty());
        }
    }

    fn record(&mut self, result: &TestResult, out: &mut String) {
        let glyph = result.render();
        out.append(glyph);
        self.seen = Ghost(self.seen@.push(*result));
    }

    fn report(&mut self, out: &mut String) {
        proof {
            assert(out@ =~= out@ + Seq::<char>::empty());
            assert(old(self).report_allows(Seq::<char>::empty()));
        }
    }
}

/// Buffers every outcome it receives, and at `report` time folds them into
/// aggregate statistics and emits the timing line, the statistics line, and
/// the skip notice when a test was skipped. `start` emits the header line
/// and captures the run's start time.
pub struct StatisticsReporter {
    start_time: std::time::Instant,
    results: Vec<TestResult>,
}

impl StatisticsReporter {
    /// A statistics reporter holding no outcomes yet.
    pub fn new() -> (r: StatisticsReporter)
        ensures
            r.recorded() == Seq::<TestResult>::empty(),
    {
        StatisticsReporter { start_time: std::time::Instant::now(), results: Vec::new() }
    }

    /// Folds the buffered outcomes into aggregate statistics, one at a time.
    /// The fold is order-independent: the resulting counters depend only on
    /// the multiset of buffered outcomes.
    fn tally(&self) -> (r: TestStats)
        ensures
            stats_match(r, self.recorded()),
    {
        let mut stats = TestStats::new();
        let mut i: usize = 0;
        proof {
            assert(self.results@.subrange(0, 0) =~= Seq::<TestResult>::empty());
        }
        while i < self.results.len()
            invariant
                i <= self.results.len(),
                stats_match(stats, self.results@.subrange(0, i as int)),
            decreases self.results.len() - i,
        {
            let current = self.results[i];
            let one = TestStats::create(&current);
            proof {
                lemma_counts_complete(self.results@.subrange(0, i as int));
                lemma_counts_complete(seq![current]);
            }
            stats = TestStats::combine(stats, one);
            proof {
                lemma_counts_empty();
                lemma_counts_push(Seq::<TestResult>::empty(), current);
                assert(Seq::<TestResult>::empty().push(current) =~= seq![current]);
                lemma_counts_push(self.results@.subrange(0, i as int), self.results@[i as int]);
                assert(self.results@.subrange(0, i as int).push(self.results@[i as int])
                    =~= self.results@.subrange(0, i as int + 1));
            }
            i = i + 1;
        }
        proof {
            assert(self.results@.subrange(0, self.results@.len() as int) =~= self.results@);
        }
        stats
    }
}

impl Reporter for StatisticsReporter {
    closed spec fn recorded(&self) -> Seq<TestResult> {
        self.results@
    }

    open spec fn start_output(&self) -> Seq<char> {
        header_text()
    }

    open spec fn record_output(&self, result: TestResult) -> Seq<char> {
        Seq::<char>::empty()
    }

    open spec fn report_allows(&self, text: Seq<char>) -> bool {
        exists|nanos: u64| text == footer_text(nanos, self.recorded())
    }

    fn start(&mut self, out: &mut String) {
        out.append("# Running.\n\n");
        self.start_time = std::time::Instant::now();
    }

    fn record(&mut self, result: &TestResult, out: &mut String) {
        self.results.push(*result);
        proof {
            assert(out@ =~= out@ + Seq::<char>::empty());
        }
    }

    fn report(&mut self, out: &mut String) {
        let elapsed = self.start_time.elapsed();
        let nanos128 = elapsed.as_nanos();
        let nanos: u64 = if nanos128 > u64::MAX as u128 { u64::MAX } else { nanos128 as u64 };

        out.append("\n\n");
        let timings = TestTimings::new(nanos, self.results.len());
        let timing_line = timings.render();
        out.append(timing_line.as_str());
        out.append("\n\n");

        let stats = self.tally();
        let stats_line = stats.render();
        out.append(stats_line.as_str());
        out.append("\n");

        if stats.skips > 0 {
            out.append("\nYou have skipped tests. Run with --verbose for details.\n");
        }

        proof {
            assert(stats_render(stats) =~= stats_text(old(self).recorded()));
            assert(out@ =~= old(out)@ + footer_text(nanos, old(self).recorded()));
            assert(old(self).report_allows(footer_text(nanos, old(self).recorded())));
        }
    }
}

/// Fans every lifecycle call out to two child reporters, first `a` then `b`,
/// synchronously, before returning. The sink therefore holds `a`'s output
/// for a call immediately before `b`'s, and both children receive the exact
/// outcome stream the composite receives.
pub struct CompositeReporter<A: Reporter, B: Reporter> {
    pub a: A,
    pub b: B,
}

impl<A: Reporter, B: Reporter> CompositeReporter<A, B> {
    /// A composite over the two given children, forwarded to in this order.
    pub fn new(a: A, b: B) -> (r: CompositeReporter<A, B>)
        ensures
            r.a == a,
            r.b == b,
    {
        CompositeReporter { a, b }
    }
}

impl<A: Reporter, B: Reporter> Reporter for CompositeReporter<A, B> {
    open spec fn recorded(&self) -> Seq<TestResult> {
        self.a.recorded()
    }

    open spec fn start_output(&self) -> Seq<char> {
        self.a.start_output() + self.b.start_output()
    }

    open spec fn record_output(&self, result: TestResult) -> Seq<char> {
        self.a.record_output(result) + self.b.record_output(result)
    }

    open spec fn report_allows(&self, text: Seq<char>) -> bool {
        exists|ta: Seq<char>, tb: Seq<char>|
            self.a.report_allows(ta) && self.b.report_allows(tb) && text == ta + tb
    }

    fn start(&mut self, out: &mut String)
        ensures
            final(self).b.recorded() == old(self).b.recorded(),
    {
        self.a.start(out);
        self.b.start(out);
        proof {
            assert(out@ =~= old(out)@ + old(self).start_output());
        }
    }

    fn record(&mut self, result: &TestResult, out: &mut String)
        ensures
            final(self).b.recorded() == old(self).b.recorded().push(*result),
    {
        self.a.record(result, out);
        self.b.record(result, out);
        proof {
            assert(out@ =~= old(out)@ + old(self).record_output(*result));
        }
    }

    fn report(&mut self, out: &mut String)
        ensures
            final(self).b.recorded() == old(self).b.recorded(),
    {
        let ghost mid0 = out@;
        self.a.report(out);
        let ghost mid1 = out@;
        self.b.report(out);
        proof {
            let ta = choose|t: Seq<char>|
                old(self).a.report_allows(t) && mid1 == mid0 + t;
            let tb = choose|t: Seq<char>|
                old(self).b.report_allows(t) && out@ == mid1 + t;
            assert(out@ =~= old(out)@ + (ta + tb));
            assert(old(self).report_allows(ta + tb));
        }
    }
}

} // verus!
