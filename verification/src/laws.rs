use vstd::prelude::*;

use crate::reporters::footer_base;
use crate::reporters::footer_text;
use crate::reporters::skip_notice_text;
use crate::types::TestResult;
use crate::types::glyph_char;
use crate::types::glyphs;
use crate::types::lemma_counts_complete;
use crate::types::lemma_counts_empty;
use crate::types::lemma_counts_push;
use crate::types::n_error;
use crate::types::n_fail;
use crate::types::n_pass;
use crate::types::n_skip;

verus! {

/// A run in which every test passes has `runs` equal to the number of tests,
/// all failure counters at zero, and a progress line of exactly one dot per
/// test, in order.
pub proof fn lemma_all_pass(rs: Seq<TestResult>)
    requires
        forall|i: int| 0 <= i < rs.len() ==> rs[i] == TestResult::Pass,
    ensures
        n_pass(rs) == rs.len(),
        n_fail(rs) == 0,
        n_error(rs) == 0,
        n_skip(rs) == 0,
        glyphs(rs) == Seq::new(rs.len(), |i: int| '.'),
{
    rs.to_multiset_ensures();
    assert(!rs.contains(TestResult::Fail));
    assert(!rs.contains(TestResult::Error));
    assert(!rs.contains(TestResult::Skipped));
    lemma_counts_complete(rs);
    assert(glyphs(rs) =~= Seq::new(rs.len(), |i: int| '.'));
}

/// The aggregate statistics are a function of the multiset of outcomes
/// alone: two deliveries of the same outcomes, in any two orders, give the
/// same length and the same four counters. This is why parallel dispatch,
/// which delivers in completion order, reports the same statistics as
/// sequential dispatch.
pub proof fn lemma_counts_order_independent(a: Seq<TestResult>, b: Seq<TestResult>)
    requires
        a.to_multiset() == b.to_multiset(),
    ensures
        a.len() == b.len(),
        n_pass(a) == n_pass(b),
        n_fail(a) == n_fail(b),
        n_error(a) == n_error(b),
        n_skip(a) == n_skip(b),
{
    a.to_multiset_ensures();
    b.to_multiset_ensures();
}

/// How often a character occurs in a progress line: exactly the count of
/// the outcome it renders, and never at all for any other character.
pub proof fn lemma_glyph_count(rs: Seq<TestResult>, c: char)
    ensures
        glyphs(rs).to_multiset().count(c) == if c == '.' {
            n_pass(rs)
        } else if c == 'F' {
            n_fail(rs)
        } else if c == 'E' {
            n_error(rs)
        } else if c == 'S' {
            n_skip(rs)
        } else {
            0
        },
    decreases rs.len(),
{
    if rs.len() == 0 {
        assert(rs =~= Seq::<TestResult>::empty());
        lemma_counts_empty();
        assert(glyphs(rs) =~= Seq::<char>::empty());
        glyphs(rs).to_multiset_ensures();
        assert(!glyphs(rs).contains(c));
    } else {
        let prefix = rs.drop_last();
        let last = rs.last();
        lemma_glyph_count(prefix, c);
        lemma_counts_push(prefix, last);
        assert(prefix.push(last) =~= rs);
        assert(glyphs(rs) =~= glyphs(prefix).push(glyph_char(last)));
        glyphs(prefix).to_multiset_ensures();
        assert(glyphs(prefix).push(glyph_char(last)).to_multiset()
            =~= glyphs(prefix).to_multiset().insert(glyph_char(last)));
    }
}

/// The multiset of glyphs written is a function of the multiset of outcomes
/// alone, and the progress line always has one glyph per outcome. So for the
/// same outcomes, a parallel run writes a permutation of the glyphs a
/// sequential run writes.
pub proof fn lemma_glyphs_order_independent(a: Seq<TestResult>, b: Seq<TestResult>)
    requires
        a.to_multiset() == b.to_multiset(),
    ensures
        glyphs(a).to_multiset() == glyphs(b).to_multiset(),
        glyphs(a).len() == a.len(),
        glyphs(b).len() == b.len(),
{
    lemma_counts_order_independent(a, b);
    assert forall|c: char|
        glyphs(a).to_multiset().count(c) == glyphs(b).to_multiset().count(c) by {
        lemma_glyph_count(a, c);
        lemma_glyph_count(b, c);
    }
    assert(glyphs(a).to_multiset() =~= glyphs(b).to_multiset());
}

/// The skip notice closes the report exactly when at least one outcome was a
/// skip; otherwise the report ends with the statistics line.
pub proof fn lemma_skip_notice(nanos: u64, rs: Seq<TestResult>)
    ensures
        n_skip(rs) > 0 ==> footer_text(nanos, rs) == footer_base(nanos, rs)
            + skip_notice_text(),
        n_skip(rs) == 0 ==> footer_text(nanos, rs) == footer_base(nanos, rs),
{
    if n_skip(rs) == 0 {
        assert(footer_text(nanos, rs) =~= footer_base(nanos, rs));
    }
}

} // verus!
