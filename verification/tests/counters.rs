use cacheline_aligned_atomics::counters::{Atom, CacheLineAware, Counter, Normal, NormalSized};
use cacheline_aligned_atomics::layout::Variant;

#[test]
fn counter_starts_at_zero_and_keeps_the_last_store() {
    let mut c = Counter::new();
    assert_eq!(c.load(), 0);
    c.store(41);
    assert_eq!(c.load(), 41);
    c.store(7);
    assert_eq!(c.load(), 7);
}

#[test]
fn normal_new_is_all_zero() {
    let agg = Normal::new();
    for i in 0..8 {
        assert_eq!(agg.get_ref(i).load(), 0);
    }
}

#[test]
fn normal_sized_new_is_all_zero() {
    let agg = NormalSized::new();
    for i in 0..8 {
        assert_eq!(agg.get_ref(i).load(), 0);
    }
}

#[test]
fn cache_line_aware_new_is_all_zero() {
    let agg = CacheLineAware::new();
    for i in 0..8 {
        assert_eq!(agg.get_ref(i).load(), 0);
    }
}

#[test]
fn store_hits_exactly_one_slot() {
    let mut agg = Normal::new();
    agg.store(3, 17);
    for i in 0..8 {
        let expected = if i == 3 { 17 } else { 0 };
        assert_eq!(agg.get_ref(i).load(), expected);
    }
}

#[test]
fn store_overwrites_rather_than_accumulates() {
    let mut agg = CacheLineAware::new();
    agg.store(0, 10);
    agg.store(0, 3);
    assert_eq!(agg.get_ref(0).load(), 3);
}

#[test]
fn each_aggregate_names_its_layout() {
    assert_eq!(Normal::layout_variant(), Variant::Normal);
    assert_eq!(NormalSized::layout_variant(), Variant::NormalSized);
    assert_eq!(CacheLineAware::layout_variant(), Variant::CacheLineAware);
}
