//! Byte sizes and alignments of the three counter-aggregate layout policies.
//!
//! A cache line on the machines this crate targets is 64 bytes, and a bare
//! counter is one 64-bit machine word. The aggregate always holds eight
//! counters; the policies differ only in how much padding surrounds them.

use vstd::prelude::*;

verus! {

/// Size in bytes of one cache line.
pub const CACHE_LINE_BYTES: usize = 64;

/// Number of counters in every aggregate.
pub const NUM_COUNTERS: usize = 8;

/// Size in bytes of one bare counter: a 64-bit machine word.
pub const COUNTER_BYTES: usize = 8;

/// The three layout policies for an aggregate of eight counters.
#[derive(Clone, Copy, Debug, PartialEq, Eq, Structural)]
pub enum Variant {
    /// Counters packed together at the word alignment nature gives them;
    /// neighbours may share a cache line.
    Normal,
    /// The whole aggregate starts on a cache-line boundary, but the counters
    /// inside it are still packed together.
    NormalSized,
    /// Every counter is padded out to a full cache line of its own, so no two
    /// counters ever share one.
    CacheLineAware,
}

/// Bytes that one counter occupies under the given policy, padding included.
pub open spec fn spec_padded_counter_bytes(v: Variant) -> usize {
    match v {
        Variant::Normal => COUNTER_BYTES,
        Variant::NormalSized => COUNTER_BYTES,
        Variant::CacheLineAware => CACHE_LINE_BYTES,
    }
}

/// Bytes that the whole eight-counter aggregate occupies under the given
/// policy.
pub open spec fn spec_aggregate_bytes(v: Variant) -> usize {
    match v {
        Variant::Normal => 64,
        Variant::NormalSized => 64,
        Variant::CacheLineAware => 512,
    }
}

/// Alignment in bytes of the whole aggregate under the given policy.
pub open spec fn spec_aggregate_align(v: Variant) -> usize {
    match v {
        Variant::Normal => COUNTER_BYTES,
        Variant::NormalSized => CACHE_LINE_BYTES,
        Variant::CacheLineAware => CACHE_LINE_BYTES,
    }
}

#[verifier::when_used_as_spec(spec_padded_counter_bytes)]
pub fn padded_counter_bytes(v: Variant) -> (r: usize)
    ensures
        r == spec_padded_counter_bytes(v),
{
    match v {
        Variant::Normal => COUNTER_BYTES,
        Variant::NormalSized => COUNTER_BYTES,
        Variant::CacheLineAware => CACHE_LINE_BYTES,
    }
}

#[verifier::when_used_as_spec(spec_aggregate_bytes)]
pub fn aggregate_bytes(v: Variant) -> (r: usize)
    ensures
        r == spec_aggregate_bytes(v),
{
    match v {
        Variant::Normal => 64,
        Variant::NormalSized => 64,
        Variant::CacheLineAware => 512,
    }
}

#[verifier::when_used_as_spec(spec_aggregate_align)]
pub fn aggregate_align(v: Variant) -> (r: usize)
    ensures
        r == spec_aggregate_align(v),
{
    match v {
        Variant::Normal => COUNTER_BYTES,
        Variant::NormalSized => CACHE_LINE_BYTES,
        Variant::CacheLineAware => CACHE_LINE_BYTES,
    }
}

/// Under every policy the aggregate is exactly eight padded counters, nothing
/// more: no header, no trailing padding. The padded counter is one bare word
/// under the packed policies and exactly one cache line under the
/// cache-line-aware one, whose aggregate is in addition cache-line aligned.
pub proof fn lemma_aggregate_is_eight_padded_counters(v: Variant)
    ensures
        spec_aggregate_bytes(v) == NUM_COUNTERS * spec_padded_counter_bytes(v),
        spec_padded_counter_bytes(Variant::Normal) == COUNTER_BYTES,
        spec_padded_counter_bytes(Variant::NormalSized) == COUNTER_BYTES,
        spec_padded_counter_bytes(Variant::CacheLineAware) == CACHE_LINE_BYTES,
        spec_aggregate_align(Variant::CacheLineAware) == CACHE_LINE_BYTES,
{
}

} // verus!
