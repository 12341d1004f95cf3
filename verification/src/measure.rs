//! Per-worker measurement results and their aggregation.
//!
//! A run-level result is the field-wise sum of the per-worker results. Note
//! that elapsed time is aggregated by summation across workers, not by taking
//! the span of the parallel run: the reported denominator is the sum of
//! per-worker wall-clock times. This is a deliberate, historical choice of
//! the measurement methodology, kept for comparability of reports; it
//! deflates the derived operations-per-second figure roughly by the worker
//! count.
use vstd::prelude::*;

verus! {

/// What one worker (or a whole run, after merging) measured: how many
/// workload operations ran, and how long the loop took in nanoseconds.
#[derive(Clone, Copy, Debug, PartialEq, Eq, Structural)]
pub struct ExperimentResult {
    pub num_operations: usize,
    pub elapsed_nanos: u128,
}

impl ExperimentResult {
    /// The zero result: the identity of `merge`.
    pub fn new() -> (r: ExperimentResult)
        ensures
            r.num_operations == 0,
            r.elapsed_nanos == 0,
    {
        ExperimentResult { num_operations: 0, elapsed_nanos: 0 }
    }

    /// Field-wise addition of another worker's result into this one.
    pub fn merge(&mut self, other: ExperimentResult)
        requires
            old(self).num_operations + other.num_operations <= usize::MAX,
            old(self).elapsed_nanos + other.elapsed_nanos <= u128::MAX,
        ensures
            final(self).num_operations == old(self).num_operations + other.num_operations,
            final(self).elapsed_nanos == old(self).elapsed_nanos + other.elapsed_nanos,
    {
        self.num_operations = self.num_operations + other.num_operations;
        self.elapsed_nanos = self.elapsed_nanos + other.elapsed_nanos;
    }
}

impl Default for ExperimentResult {
    /// The zero result, as `new` returns it.
    fn default() -> (r: Self)
        ensures
            r.num_operations == 0,
            r.elapsed_nanos == 0,
    {
        ExperimentResult::new()
    }
}

/// Total operation count over a sequence of per-worker results.
pub open spec fn total_operations(rs: Seq<ExperimentResult>) -> int
    decreases rs.len(),
{
    if rs.len() == 0 {
        0
    } else {
        total_operations(rs.drop_last()) + rs.last().num_operations
    }
}

/// Total elapsed nanoseconds over a sequence of per-worker results.
pub open spec fn total_elapsed(rs: Seq<ExperimentResult>) -> int
    decreases rs.len(),
{
    if rs.len() == 0 {
        0
    } else {
        total_elapsed(rs.drop_last()) + rs.last().elapsed_nanos
    }
}

/// Totals over a prefix never exceed totals over a longer prefix.
proof fn lemma_totals_mono(rs: Seq<ExperimentResult>, n: int)
    requires
        0 <= n <= rs.len(),
    ensures
        total_operations(rs.take(n)) <= total_operations(rs),
        total_elapsed(rs.take(n)) <= total_elapsed(rs),
    decreases rs.len(),
{
    if n < rs.len() {
        assert(rs.drop_last().take(n) =~= rs.take(n));
        lemma_totals_mono(rs.drop_last(), n);
    } else {
        assert(rs.take(n) =~= rs);
    }
}

/// Merge all per-worker results into the run-level aggregate: the field-wise
/// sum of every entry.
pub fn merge_all(results: &Vec<ExperimentResult>) -> (r: ExperimentResult)
    requires
        total_operations(results@) <= usize::MAX,
        total_elapsed(results@) <= u128::MAX,
    ensures
        r.num_operations == total_operations(results@),
        r.elapsed_nanos == total_elapsed(results@),
{
    let mut r = ExperimentResult::new();
    let mut i: usize = 0;
    while i < results.len()
        invariant
            i <= results.len(),
            total_operations(results@) <= usize::MAX,
            total_elapsed(results@) <= u128::MAX,
            r.num_operations == total_operations(results@.take(i as int)),
            r.elapsed_nanos == total_elapsed(results@.take(i as int)),
        decreases results.len() - i,
    {
        proof {
            assert(results@.take(i + 1).drop_last() =~= results@.take(i as int));
            assert(results@.take(i + 1).last() == results@[i as int]);
            lemma_totals_mono(results@, i + 1);
        }
        r.merge(results[i]);
        i = i + 1;
    }
    proof {
        assert(results@.take(results@.len() as int) =~= results@);
    }
    r
}

/// When every worker reports exactly `iters` operations, the aggregate
/// operation count is the worker count times `iters`: a runner that fans a
/// fixed workload out over `N` workers totals `N * iters` operations.
pub proof fn lemma_uniform_workers_total(rs: Seq<ExperimentResult>, iters: usize)
    requires
        forall|i: int| 0 <= i < rs.len() ==> rs[i].num_operations == iters,
    ensures
        total_operations(rs) == rs.len() * iters,
    decreases rs.len(),
{
    if rs.len() == 0 {
    } else {
        lemma_uniform_workers_total(rs.drop_last(), iters);
        assert((rs.len() - 1) * iters + iters == rs.len() * iters) by (nonlinear_arith);
    }
}

} // verus!
