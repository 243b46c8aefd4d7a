use cacheline_aligned_atomics::layout::{
    aggregate_align, aggregate_bytes, padded_counter_bytes, Variant, CACHE_LINE_BYTES,
    COUNTER_BYTES, NUM_COUNTERS,
};

#[test]
fn constants_are_the_documented_geometry() {
    assert_eq!(CACHE_LINE_BYTES, 64);
    assert_eq!(NUM_COUNTERS, 8);
    assert_eq!(COUNTER_BYTES, 8);
}

#[test]
fn padded_counter_is_a_word_unless_cache_line_aware() {
    assert_eq!(padded_counter_bytes(Variant::Normal), 8);
    assert_eq!(padded_counter_bytes(Variant::NormalSized), 8);
    assert_eq!(padded_counter_bytes(Variant::CacheLineAware), 64);
}

#[test]
fn aggregate_is_eight_padded_counters() {
    for v in [Variant::Normal, Variant::NormalSized, Variant::CacheLineAware] {
        assert_eq!(aggregate_bytes(v), NUM_COUNTERS * padded_counter_bytes(v));
    }
    assert_eq!(aggregate_bytes(Variant::Normal), 64);
    assert_eq!(aggregate_bytes(Variant::NormalSized), 64);
    assert_eq!(aggregate_bytes(Variant::CacheLineAware), 512);
}

#[test]
fn cache_line_variants_are_cache_line_aligned() {
    assert_eq!(aggregate_align(Variant::Normal), COUNTER_BYTES);
    assert_eq!(aggregate_align(Variant::NormalSized), CACHE_LINE_BYTES);
    assert_eq!(aggregate_align(Variant::CacheLineAware), CACHE_LINE_BYTES);
}
