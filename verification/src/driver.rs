//! The contended-write workload: one worker per counter, a fixed number of
//! stores each.
//!
//! A benchmark iteration constructs a fresh aggregate, binds each of the
//! first `thread_count` counters to its own worker, and lets every worker
//! store the loop index values `0, 1, .., INCREMENTS - 1` into its counter.
//! Each counter has exactly one writer and no concurrent reader, which is why
//! the workload is expressible one worker at a time: [`worker_result`] says
//! what a worker leaves behind, and the lemmas below show that workers on
//! distinct counters neither disturb one another nor care in which order they
//! run. [`run`] composes the workers and proves the final contents of all
//! eight counters.

use crate::counters::Atom;
use crate::layout::NUM_COUNTERS;
use vstd::prelude::*;

verus! {

/// Stores each worker performs on its counter: it writes `0, 1, ..,
/// INCREMENTS - 1` in order, so a counter it worked on ends at
/// `INCREMENTS - 1`.
pub const INCREMENTS: usize = 1_000_000;

/// The counter contents a single worker leaves behind: after `count` stores
/// of the values `0, .., count - 1` into slot `ith`, that slot holds
/// `count - 1` and every other slot is untouched. A worker given zero stores
/// changes nothing.
pub open spec fn worker_result(s: Seq<usize>, ith: int, count: usize) -> Seq<usize> {
    if count > 0 {
        s.update(ith, (count - 1) as usize)
    } else {
        s
    }
}

/// One worker's whole task: store the values `0, .., count - 1`, in order,
/// into the `ith` counter of `agg`.
pub fn store_sequence<T: Atom>(agg: &mut T, ith: usize, count: usize)
    requires
        old(agg).wf(),
        ith < NUM_COUNTERS,
    ensures
        final(agg).wf(),
        final(agg).counters() == worker_result(old(agg).counters(), ith as int, count),
{
    proof {
        agg.lemma_wf_len();
    }
    let mut v: usize = 0;
    while v < count
        invariant
            agg.wf(),
            agg.counters().len() == NUM_COUNTERS,
            old(agg).counters().len() == NUM_COUNTERS,
            ith < NUM_COUNTERS,
            v <= count,
            agg.counters() == worker_result(old(agg).counters(), ith as int, v),
        decreases count - v,
    {
        agg.store(ith, v);
        proof {
            assert(agg.counters() =~= worker_result(
                old(agg).counters(),
                ith as int,
                (v + 1) as usize,
            ));
        }
        v = v + 1;
    }
}

/// One benchmark iteration: a fresh aggregate, one worker per counter for
/// the first `thread_count` counters, each performing [`INCREMENTS`] stores.
/// Afterwards every worked-on counter holds `INCREMENTS - 1` — the last
/// value stored — and every remaining counter still holds zero.
pub fn run<T: Atom>(thread_count: usize) -> (r: T)
    requires
        thread_count <= NUM_COUNTERS,
    ensures
        r.wf(),
        r.counters().len() == NUM_COUNTERS,
        forall|i: int| 0 <= i < thread_count ==> r.counters()[i] == INCREMENTS - 1,
        forall|i: int| thread_count <= i < NUM_COUNTERS ==> r.counters()[i] == 0,
{
    let mut agg: T = Atom::new();
    let mut i: usize = 0;
    while i < thread_count
        invariant
            agg.wf(),
            i <= thread_count,
            thread_count <= NUM_COUNTERS,
            agg.counters().len() == NUM_COUNTERS,
            forall|j: int| 0 <= j < i ==> agg.counters()[j] == INCREMENTS - 1,
            forall|j: int| i <= j < NUM_COUNTERS ==> agg.counters()[j] == 0,
        decreases thread_count - i,
    {
        store_sequence(&mut agg, i, INCREMENTS);
        i = i + 1;
    }
    agg
}

/// Workers are independent: a worker bound to slot `ith` leaves every other
/// slot exactly as it found it, whatever its store count.
pub proof fn lemma_worker_preserves_others(s: Seq<usize>, ith: int, count: usize, other: int)
    requires
        0 <= ith < s.len(),
        0 <= other < s.len(),
        other != ith,
    ensures
        worker_result(s, ith, count).len() == s.len(),
        worker_result(s, ith, count)[other] == s[other],
{
}

/// Workers on distinct slots commute: two workers bound to different
/// counters leave the same contents whichever of them runs first, so the
/// scheduling order of the pool cannot change the outcome.
pub proof fn lemma_workers_commute(s: Seq<usize>, i: int, j: int, ci: usize, cj: usize)
    requires
        0 <= i < s.len(),
        0 <= j < s.len(),
        i != j,
    ensures
        worker_result(worker_result(s, i, ci), j, cj) == worker_result(
            worker_result(s, j, cj),
            i,
            ci,
        ),
{
    assert(worker_result(worker_result(s, i, ci), j, cj) =~= worker_result(
        worker_result(s, j, cj),
        i,
        ci,
    ));
}

} // verus!
