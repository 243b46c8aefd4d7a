//! Eight-counter aggregates under the three layout policies.
//!
//! Each aggregate owns exactly [`NUM_COUNTERS`] independent counters and
//! offers the same capability, the [`Atom`] trait: construct with every
//! counter at zero, read the i-th counter, and overwrite the i-th counter.
//! The three types differ only in the memory-layout policy they stand for
//! (see [`crate::layout`]); their observable contents — a sequence of eight
//! counter values — obey identical contracts.

use crate::layout::{NUM_COUNTERS, Variant};
use vstd::prelude::*;

verus! {

/// A single machine-word counter.
///
/// One benchmark worker owns one counter for the whole run and is its only
/// writer, so a plain overwrite is the entire store discipline: no
/// read-modify-write, no ordering constraint against other counters.
pub struct Counter {
    value: usize,
}

impl View for Counter {
    type V = usize;

    closed spec fn view(&self) -> usize {
        self.value
    }
}

impl Counter {
    /// A fresh counter holding zero.
    pub fn new() -> (c: Counter)
        ensures
            c@ == 0,
    {
        Counter { value: 0 }
    }

    /// Overwrite the counter with `value`.
    pub fn store(&mut self, value: usize)
        ensures
            final(self)@ == value,
    {
        self.value = value;
    }

    /// Read the counter.
    pub fn load(&self) -> (v: usize)
        ensures
            v == self@,
    {
        self.value
    }
}

/// The capability every layout variant offers: eight independent counters,
/// created at zero, readable and writable one slot at a time.
pub trait Atom: Sized {
    /// The aggregate's contents: the value of each counter, in slot order.
    spec fn counters(&self) -> Seq<usize>;

    /// Well-formed: the aggregate holds exactly eight counters.
    spec fn wf(&self) -> bool;

    /// Well-formedness pins the length: a well-formed aggregate has exactly
    /// eight counters.
    proof fn lemma_wf_len(&self)
        requires
            self.wf(),
        ensures
            self.counters().len() == NUM_COUNTERS,
    ;

    /// Which layout policy the implementing type stands for.
    fn layout_variant() -> (v: Variant);

    /// An aggregate with all eight counters at zero. No failure mode.
    fn new() -> (r: Self)
        ensures
            r.wf(),
            r.counters().len() == NUM_COUNTERS,
            forall|i: int| 0 <= i < NUM_COUNTERS ==> r.counters()[i] == 0,
    ;

    /// A reference to the `ith` counter. An index outside `0..8` is a
    /// programming error, ruled out here rather than handled.
    fn get_ref(&self, ith: usize) -> (r: &Counter)
        requires
            self.wf(),
            ith < NUM_COUNTERS,
        ensures
            r@ == self.counters()[ith as int],
    ;

    /// Overwrite the `ith` counter with `value`; every other counter keeps
    /// its value.
    fn store(&mut self, ith: usize, value: usize)
        requires
            old(self).wf(),
            ith < NUM_COUNTERS,
        ensures
            final(self).wf(),
            final(self).counters() == old(self).counters().update(ith as int, value),
    ;
}

/// Eight counters packed at natural word alignment: adjacent counters may
/// share a cache line, so contended writes suffer false sharing.
pub struct Normal {
    slots: Vec<Counter>,
}

/// Eight counters packed together, the aggregate as a whole starting on a
/// cache-line boundary: false sharing persists between the counters inside.
pub struct NormalSized {
    slots: Vec<Counter>,
}

/// Eight counters, each padded to a full cache line of its own: no two
/// counters ever share a cache line.
pub struct CacheLineAware {
    slots: Vec<Counter>,
}

/// Eight fresh zero counters, the common constructor body.
fn zeroed_slots() -> (slots: Vec<Counter>)
    ensures
        slots@.len() == NUM_COUNTERS,
        forall|i: int| 0 <= i < NUM_COUNTERS ==> slots@[i]@ == 0,
{
    let mut slots: Vec<Counter> = Vec::new();
    let mut i: usize = 0;
    while i < NUM_COUNTERS
        invariant
            i <= NUM_COUNTERS,
            slots@.len() == i,
            forall|j: int| 0 <= j < i ==> slots@[j]@ == 0,
        decreases NUM_COUNTERS - i,
    {
        slots.push(Counter::new());
        i = i + 1;
    }
    slots
}

impl Atom for Normal {
    closed spec fn counters(&self) -> Seq<usize> {
        self.slots@.map_values(|c: Counter| c@)
    }

    closed spec fn wf(&self) -> bool {
        self.slots@.len() == NUM_COUNTERS
    }

    proof fn lemma_wf_len(&self) {
    }

    fn layout_variant() -> (v: Variant)
        ensures
            v == Variant::Normal,
    {
        Variant::Normal
    }

    fn new() -> (r: Self) {
        Normal { slots: zeroed_slots() }
    }

    fn get_ref(&self, ith: usize) -> (r: &Counter) {
        &self.slots[ith]
    }

    fn store(&mut self, ith: usize, value: usize) {
        self.slots[ith].store(value);
        proof {
            assert(self.counters() =~= old(self).counters().update(ith as int, value));
        }
    }
}

impl Atom for NormalSized {
    closed spec fn counters(&self) -> Seq<usize> {
        self.slots@.map_values(|c: Counter| c@)
    }

    closed spec fn wf(&self) -> bool {
        self.slots@.len() == NUM_COUNTERS
    }

    proof fn lemma_wf_len(&self) {
    }

    fn layout_variant() -> (v: Variant)
        ensures
            v == Variant::NormalSized,
    {
        Variant::NormalSized
    }

    fn new() -> (r: Self) {
        NormalSized { slots: zeroed_slots() }
    }

    fn get_ref(&self, ith: usize) -> (r: &Counter) {
        &self.slots[ith]
    }

    fn store(&mut self, ith: usize, value: usize) {
        self.slots[ith].store(value);
        proof {
            assert(self.counters() =~= old(self).counters().update(ith as int, value));
        }
    }
}

impl Atom for CacheLineAware {
    closed spec fn counters(&self) -> Seq<usize> {
        self.slots@.map_values(|c: Counter| c@)
    }

    closed spec fn wf(&self) -> bool {
        self.slots@.len() == NUM_COUNTERS
    }

    proof fn lemma_wf_len(&self) {
    }

    fn layout_variant() -> (v: Variant)
        ensures
            v == Variant::CacheLineAware,
    {
        Variant::CacheLineAware
    }

    fn new() -> (r: Self) {
        CacheLineAware { slots: zeroed_slots() }
    }

    fn get_ref(&self, ith: usize) -> (r: &Counter) {
        &self.slots[ith]
    }

    fn store(&mut self, ith: usize, value: usize) {
        self.slots[ith].store(value);
        proof {
            assert(self.counters() =~= old(self).counters().update(ith as int, value));
        }
    }
}

} // verus!
