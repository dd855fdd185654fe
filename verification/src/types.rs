use vstd::prelude::*;

verus! {

/// The outcome of running one test: a closed vocabulary of four variants,
/// each with a fixed one-character rendering (`.`, `F`, `E`, `S`).
#[derive(Clone, Copy, PartialEq, Eq, Structural)]
pub enum TestResult {
    Pass,
    Fail,
    Error,
    Skipped,
}

/// The one-character rendering of an outcome.
pub open spec fn glyph_char(r: TestResult) -> char {
    match r {
        TestResult::Pass => '.',
        TestResult::Fail => 'F',
        TestResult::Error => 'E',
        TestResult::Skipped => 'S',
    }
}

/// The progress line for a sequence of outcomes: one glyph per outcome,
/// in sequence order, with no separators.
pub open spec fn glyphs(rs: Seq<TestResult>) -> Seq<char> {
    rs.map_values(|r: TestResult| glyph_char(r))
}

impl TestResult {
    /// The outcome's one-character rendering, as executable text.
    pub fn render(&self) -> (r: &'static str)
        ensures
            r@ == seq![glyph_char(*self)],
    {
        let s: &'static str = match *self {
            TestResult::Pass => ".",
            TestResult::Fail => "F",
            TestResult::Error => "E",
            TestResult::Skipped => "S",
        };
        proof {
            reveal_strlit(".");
            reveal_strlit("F");
            reveal_strlit("E");
            reveal_strlit("S");
            assert(s@ =~= seq![glyph_char(*self)]);
        }
        s
    }
}

/// Aggregate counters over a collection of outcomes.
pub struct TestStats {
    pub runs: usize,
    pub failures: usize,
    pub errors: usize,
    pub skips: usize,
}

/// How many outcomes of a sequence are `Fail`. Stated over the multiset of
/// the sequence, so the count is independent of the order of the outcomes.
pub open spec fn n_fail(rs: Seq<TestResult>) -> nat {
    rs.to_multiset().count(TestResult::Fail)
}

/// How many outcomes of a sequence are `Error`.
pub open spec fn n_error(rs: Seq<TestResult>) -> nat {
    rs.to_multiset().count(TestResult::Error)
}

/// How many outcomes of a sequence are `Skipped`.
pub open spec fn n_skip(rs: Seq<TestResult>) -> nat {
    rs.to_multiset().count(TestResult::Skipped)
}

/// How many outcomes of a sequence are `Pass`.
pub open spec fn n_pass(rs: Seq<TestResult>) -> nat {
    rs.to_multiset().count(TestResult::Pass)
}

/// The statistics that faithfully summarise a sequence of outcomes:
/// `runs` is the number of outcomes, and each failure counter is the
/// number of outcomes of its kind.
pub open spec fn stats_match(s: TestStats, rs: Seq<TestResult>) -> bool {
    &&& s.runs == rs.len()
    &&& s.failures == n_fail(rs)
    &&& s.errors == n_error(rs)
    &&& s.skips == n_skip(rs)
}

impl TestStats {
    /// The all-zero accumulator: the statistics of no outcomes.
    pub fn new() -> (r: TestStats)
        ensures
            stats_match(r, Seq::<TestResult>::empty()),
    {
        proof {
            lemma_counts_empty();
        }
        TestStats { runs: 0, failures: 0, errors: 0, skips: 0 }
    }

    /// The statistics of a single outcome.
    pub fn create(result: &TestResult) -> (r: TestStats)
        ensures
            stats_match(r, seq![*result]),
    {
        proof {
            lemma_counts_empty();
            lemma_counts_push(Seq::<TestResult>::empty(), *result);
            assert(Seq::<TestResult>::empty().push(*result) =~= seq![*result]);
        }
        TestStats {
            runs: 1,
            failures: match *result { TestResult::Fail => 1, _ => 0 },
            errors: match *result { TestResult::Error => 1, _ => 0 },
            skips: match *result { TestResult::Skipped => 1, _ => 0 },
        }
    }

    /// Pointwise sum of two accumulators. Combining the statistics of two
    /// outcome collections yields the statistics of their union, so folding
    /// outcomes through `create` and `combine` is associative and
    /// commutative in the final counts.
    pub fn combine(a: TestStats, b: TestStats) -> (r: TestStats)
        requires
            a.runs + b.runs <= usize::MAX,
            a.failures + b.failures <= usize::MAX,
            a.errors + b.errors <= usize::MAX,
            a.skips + b.skips <= usize::MAX,
        ensures
            r.runs == a.runs + b.runs,
            r.failures == a.failures + b.failures,
            r.errors == a.errors + b.errors,
            r.skips == a.skips + b.skips,
    {
        TestStats {
            runs: a.runs + b.runs,
            failures: a.failures + b.failures,
            errors: a.errors + b.errors,
            skips: a.skips + b.skips,
        }
    }
}

/// The empty sequence has all counters at zero.
pub proof fn lemma_counts_empty()
    ensures
        n_fail(Seq::<TestResult>::empty()) == 0,
        n_error(Seq::<TestResult>::empty()) == 0,
        n_skip(Seq::<TestResult>::empty()) == 0,
        n_pass(Seq::<TestResult>::empty()) == 0,
{
    let e = Seq::<TestResult>::empty();
    e.to_multiset_ensures();
    assert(!e.contains(TestResult::Fail));
    assert(!e.contains(TestResult::Error));
    assert(!e.contains(TestResult::Skipped));
    assert(!e.contains(TestResult::Pass));
}

/// Appending one outcome to a sequence raises the matching counter by one
/// and leaves the other counters unchanged.
pub proof fn lemma_counts_push(rs: Seq<TestResult>, r: TestResult)
    ensures
        n_fail(rs.push(r)) == n_fail(rs) + (if r == TestResult::Fail { 1int } else { 0 }),
        n_error(rs.push(r)) == n_error(rs) + (if r == TestResult::Error { 1int } else { 0 }),
        n_skip(rs.push(r)) == n_skip(rs) + (if r == TestResult::Skipped { 1int } else { 0 }),
        n_pass(rs.push(r)) == n_pass(rs) + (if r == TestResult::Pass { 1int } else { 0 }),
{
    rs.to_multiset_ensures();
    assert(rs.push(r).to_multiset() =~= rs.to_multiset().insert(r));
}

/// Every outcome is counted by exactly one of the four counters: the counts
/// of the four variants partition the sequence. In particular each counter
/// is at most the number of outcomes.
pub proof fn lemma_counts_complete(rs: Seq<TestResult>)
    ensures
        n_pass(rs) + n_fail(rs) + n_error(rs) + n_skip(rs) == rs.len(),
    decreases rs.len(),
{
    if rs.len() == 0 {
        assert(rs =~= Seq::<TestResult>::empty());
        lemma_counts_empty();
    } else {
        let prefix = rs.drop_last();
        lemma_counts_complete(prefix);
        lemma_counts_push(prefix, rs.last());
        assert(prefix.push(rs.last()) =~= rs);
    }
}

/// The character for one decimal digit.
pub open spec fn digit_char(d: nat) -> char {
    if d == 0 { '0' }
    else if d == 1 { '1' }
    else if d == 2 { '2' }
    else if d == 3 { '3' }
    else if d == 4 { '4' }
    else if d == 5 { '5' }
    else if d == 6 { '6' }
    else if d == 7 { '7' }
    else if d == 8 { '8' }
    else { '9' }
}

/// The usual decimal rendering of a natural number: most significant digit
/// first, no leading zeros (a single `0` for zero itself).
pub open spec fn dec_digits(n: nat) -> Seq<char>
    decreases n,
{
    if n < 10 {
        seq![digit_char(n)]
    } else {
        dec_digits(n / 10).push(digit_char(n % 10))
    }
}

/// The last `k` decimal digits of a natural number, zero-padded to exactly
/// `k` characters, most significant first.
pub open spec fn pad_digits(n: nat, k: nat) -> Seq<char>
    decreases k,
{
    if k == 0 {
        Seq::<char>::empty()
    } else {
        pad_digits(n / 10, (k - 1) as nat).push(digit_char(n % 10))
    }
}

/// Appends the character of one decimal digit to `out`.
fn push_digit(out: &mut String, d: u128)
    requires
        d < 10,
    ensures
        final(out)@ == old(out)@ + seq![digit_char(d as nat)],
{
    let s: &'static str = if d == 0 { "0" }
        else if d == 1 { "1" }
        else if d == 2 { "2" }
        else if d == 3 { "3" }
        else if d == 4 { "4" }
        else if d == 5 { "5" }
        else if d == 6 { "6" }
        else if d == 7 { "7" }
        else if d == 8 { "8" }
        else { "9" };
    proof {
        reveal_strlit("0");
        reveal_strlit("1");
        reveal_strlit("2");
        reveal_strlit("3");
        reveal_strlit("4");
        reveal_strlit("5");
        reveal_strlit("6");
        reveal_strlit("7");
        reveal_strlit("8");
        reveal_strlit("9");
        assert(s@ =~= seq![digit_char(d as nat)]);
    }
    out.append(s);
}

/// Appends the decimal rendering of `n` to `out`.
pub fn push_dec(out: &mut String, n: u128)
    ensures
        final(out)@ == old(out)@ + dec_digits(n as nat),
    decreases n,
{
    if n < 10 {
        push_digit(out, n);
    } else {
        assert(n / 10 < n) by (nonlinear_arith)
            requires n >= 10,
        ;
        push_dec(out, n / 10);
        push_digit(out, n % 10);
        proof {
            assert(old(out)@ + dec_digits((n / 10) as nat) + seq![digit_char((n % 10) as nat)]
                =~= old(out)@ + dec_digits(n as nat));
        }
    }
}

/// Appends the last `k` decimal digits of `n` to `out`, zero-padded.
pub fn push_padded(out: &mut String, n: u64, k: u8)
    ensures
        final(out)@ == old(out)@ + pad_digits(n as nat, k as nat),
    decreases k,
{
    if k == 0 {
        proof {
            assert(out@ =~= out@ + pad_digits(n as nat, 0));
        }
    } else {
        push_padded(out, n / 10, k - 1);
        push_digit(out, (n % 10) as u128);
        proof {
            assert(old(out)@ + pad_digits((n / 10) as nat, (k - 1) as nat)
                + seq![digit_char((n % 10) as nat)]
                =~= old(out)@ + pad_digits(n as nat, k as nat));
        }
    }
}

/// The statistics line for given counter values.
pub open spec fn stats_render(s: TestStats) -> Seq<char> {
    dec_digits(s.runs as nat) + " runs, "@
        + dec_digits(s.failures as nat) + " failures, "@
        + dec_digits(s.errors as nat) + " errors, "@
        + dec_digits(s.skips as nat) + " skips."@
}

/// The statistics line for a sequence of outcomes.
pub open spec fn stats_text(rs: Seq<TestResult>) -> Seq<char> {
    dec_digits(rs.len()) + " runs, "@
        + dec_digits(n_fail(rs)) + " failures, "@
        + dec_digits(n_error(rs)) + " errors, "@
        + dec_digits(n_skip(rs)) + " skips."@
}

impl TestStats {
    /// Renders the counters as the report's statistics line:
    /// `{runs} runs, {failures} failures, {errors} errors, {skips} skips.`
    pub fn render(&self) -> (r: String)
        ensures
            r@ == stats_render(*self),
    {
        let mut s = String::new();
        push_dec(&mut s, self.runs as u128);
        s.append(" runs, ");
        push_dec(&mut s, self.failures as u128);
        s.append(" failures, ");
        push_dec(&mut s, self.errors as u128);
        s.append(" errors, ");
        push_dec(&mut s, self.skips as u128);
        s.append(" skips.");
        proof {
            assert(s@ =~= stats_render(*self));
        }
        s
    }
}

/// Wall-clock measurements of one run: the elapsed time in nanoseconds and
/// the number of results delivered, from which the throughput is computed.
pub struct TestTimings {
    pub nanos: u64,
    pub runs: usize,
}

/// Whole runs per second, rounded down. When no time at all was measured the
/// throughput is reported as zero rather than attempting a division by zero.
pub open spec fn throughput_of(nanos: u64, runs: nat) -> nat {
    if nanos == 0 {
        0
    } else {
        (runs * 1_000_000_000) / (nanos as nat)
    }
}

/// The timing line for a run: elapsed seconds with nine fractional digits,
/// then the throughput in whole runs per second.
pub open spec fn timings_render(nanos: u64, runs: nat) -> Seq<char> {
    "Finished in "@
        + dec_digits((nanos as nat) / 1_000_000_000)
        + "."@
        + pad_digits((nanos as nat) % 1_000_000_000, 9)
        + "s, "@
        + dec_digits(throughput_of(nanos, runs))
        + " runs/s."@
}

impl TestTimings {
    /// Creates the timings for a run that delivered `runs` results in
    /// `nanos` nanoseconds.
    pub fn new(nanos: u64, runs: usize) -> (r: TestTimings)
        ensures
            r.nanos == nanos,
            r.runs == runs,
    {
        TestTimings { nanos, runs }
    }

    /// Renders the timing line:
    /// `Finished in {elapsedSeconds}s, {throughput} runs/s.`
    pub fn render(&self) -> (r: String)
        ensures
            r@ == timings_render(self.nanos, self.runs as nat),
    {
        let mut s = String::new();
        s.append("Finished in ");
        push_dec(&mut s, (self.nanos / 1_000_000_000) as u128);
        s.append(".");
        push_padded(&mut s, self.nanos % 1_000_000_000, 9);
        s.append("s, ");
        let tp: u128 = if self.nanos == 0 {
            0
        } else {
            proof {
                vstd::arithmetic::mul::lemma_mul_inequality(
                    self.runs as int,
                    u64::MAX as int,
                    1_000_000_000int,
                );
            }
            (self.runs as u128) * 1_000_000_000u128 / (self.nanos as u128)
        };
        assert(tp as nat == throughput_of(self.nanos, self.runs as nat));
        push_dec(&mut s, tp);
        s.append(" runs/s.");
        proof {
            assert(s@ =~= timings_render(self.nanos, self.runs as nat));
        }
        s
    }
}

} // verus!
