//! The per-worker workload loop.
//!
//! Each iteration fetches one string from the shared source, classifies it,
//! and — on acceptance — copies it into the next cyclic slot of the worker's
//! private scratch buffer. The loop is what a run times; the scratch
//! buffer's allocation is excluded.
use crate::classify::{all_alphanumeric, string_calculation};
use crate::measure::ExperimentResult;
use crate::scratch::ScratchBuffer;
use crate::source::{drawn_from, StringSrc};
use crate::{LOCAL_SCRATCH_SIZE, STR_SIZE_MAX};
use vstd::prelude::*;

verus! {

/// Every string in the pool is accepted by the classification.
pub open spec fn pool_all_accepting(pool: Seq<Seq<char>>) -> bool {
    forall|i: int| 0 <= i < pool.len() ==> all_alphanumeric(pool[i])
}

/// Every string in the pool is rejected by the classification.
pub open spec fn pool_all_rejecting(pool: Seq<Seq<char>>) -> bool {
    forall|i: int| 0 <= i < pool.len() ==> !all_alphanumeric(pool[i])
}

/// Run `iterations` rounds of fetch–classify–record against `strings`,
/// writing accepted values into `scratch`.
///
/// Which strings come back is up to the source's random draws, so the
/// contract holds for every outcome: the acceptance count advances by at
/// most one per iteration; a slot either keeps its value or holds a string
/// drawn from the pool; a pool whose strings are all rejected leaves the
/// buffer untouched, and one whose strings are all accepted advances the
/// count by exactly `iterations`.
pub fn workload(strings: &StringSrc, iterations: usize, scratch: &mut ScratchBuffer)
    requires
        strings.pool().len() >= 1,
        old(scratch).wf(),
        old(scratch).accepted_ops() + iterations <= usize::MAX,
    ensures
        final(scratch).wf(),
        final(scratch).capacity() == old(scratch).capacity(),
        old(scratch).accepted_ops() <= final(scratch).accepted_ops()
            <= old(scratch).accepted_ops() + iterations,
        forall|j: int|
            0 <= j < old(scratch).capacity() ==> final(scratch).slots_view()[j]
                == old(scratch).slots_view()[j] || drawn_from(
                final(scratch).slots_view()[j],
                strings.pool(),
            ),
        pool_all_rejecting(strings.pool()) ==> final(scratch).accepted_ops() == old(
            scratch,
        ).accepted_ops() && final(scratch).slots_view() == old(scratch).slots_view(),
        pool_all_accepting(strings.pool()) ==> final(scratch).accepted_ops() == old(
            scratch,
        ).accepted_ops() + iterations,
{
    let mut k: usize = 0;
    while k < iterations
        invariant
            k <= iterations,
            strings.pool().len() >= 1,
            old(scratch).accepted_ops() + iterations <= usize::MAX,
            scratch.wf(),
            scratch.capacity() == old(scratch).capacity(),
            old(scratch).accepted_ops() <= scratch.accepted_ops() <= old(scratch).accepted_ops()
                + k,
            forall|j: int|
                0 <= j < old(scratch).capacity() ==> scratch.slots_view()[j] == old(
                    scratch,
                ).slots_view()[j] || drawn_from(scratch.slots_view()[j], strings.pool()),
            pool_all_rejecting(strings.pool()) ==> scratch.accepted_ops() == old(
                scratch,
            ).accepted_ops() && scratch.slots_view() == old(scratch).slots_view(),
            pool_all_accepting(strings.pool()) ==> scratch.accepted_ops() == old(
                scratch,
            ).accepted_ops() + k,
        decreases iterations - k,
    {
        let fetched = strings.fetch();
        let output = string_calculation(fetched.as_str());
        let ghost prev = scratch.slots_view();
        let ghost prev_acc: int = scratch.accepted_ops();
        if let Some(ostr) = output {
            scratch.record(ostr.to_owned());
            proof {
                let widx: int = prev_acc % old(scratch).capacity();
                assert(scratch.slots_view() == prev.update(widx, ostr@));
                assert forall|j: int|
                    0 <= j < old(scratch).capacity() implies scratch.slots_view()[j] == old(
                    scratch,
                ).slots_view()[j] || drawn_from(scratch.slots_view()[j], strings.pool()) by {
                    assert(prev.update(widx, ostr@)[j] == scratch.slots_view()[j]);
                    if scratch.slots_view()[j] != prev[j] {
                        assert(scratch.slots_view()[j] == fetched.chars());
                    }
                }
            }
        }
        k = k + 1;
    }
}

/// One worker's full task: allocate the scratch buffer, then run and time
/// the workload loop. The result reports exactly `iterations` operations and
/// however long the loop took.
pub fn thread_loop(strings: &StringSrc, iterations: usize) -> (r: ExperimentResult)
    requires
        strings.pool().len() >= 1,
    ensures
        r.num_operations == iterations,
{
    let local_vec_size: usize = LOCAL_SCRATCH_SIZE / STR_SIZE_MAX;
    let mut local_mem = ScratchBuffer::new(local_vec_size);
    let now = std::time::Instant::now();
    workload(strings, iterations, &mut local_mem);
    let elapsed_nanos = now.elapsed().as_nanos();
    ExperimentResult { num_operations: iterations, elapsed_nanos }
}

} // verus!
