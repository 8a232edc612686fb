use fastbloom_rs::{BloomFilter, FilterBuilder};

#[test]
fn shift_test() {
    assert_eq!(32 >> 5, 1);
}

fn filter(size: u64, hashes: u32) -> BloomFilter {
    BloomFilter::new(FilterBuilder::from_size_and_hashes(size, hashes))
}

#[test]
fn new_filter_is_empty() {
    let bloom = filter(1024, 4);
    assert!(bloom.is_empty());
    assert_eq!(bloom.config().size, 1024);
    assert_eq!(bloom.config().hashes, 4);
    assert_eq!(bloom.hashes(), 4);
}

#[test]
fn add_then_contains() {
    let mut bloom = filter(1024, 4);
    bloom.add(b"hello");
    assert!(bloom.contains(b"hello"));
    assert!(!bloom.is_empty());
}

#[test]
fn no_false_negatives_many() {
    let mut bloom = filter(65536, 5);
    for x in 0u64..2000 {
        bloom.add(&x.to_le_bytes());
    }
    for x in 0u64..2000 {
        assert!(bloom.contains(&x.to_le_bytes()));
    }
}

#[test]
fn absent_element_not_reported() {
    let mut bloom = filter(1 << 20, 7);
    bloom.add(b"abc");
    assert!(!bloom.contains(b"xyz"));
}

#[test]
fn deterministic_across_instances() {
    let mut a = filter(4096, 6);
    let mut b = filter(4096, 6);
    a.add(b"same element");
    b.add(b"same element");
    assert_eq!(a.get_u8_array(), b.get_u8_array());
    assert_eq!(a.contains(b"same element"), b.contains(b"same element"));
    assert_eq!(a.contains(b"another"), b.contains(b"another"));
}

#[test]
fn add_is_idempotent() {
    let mut once = filter(2048, 3);
    once.add(b"dup");
    let mut twice = filter(2048, 3);
    twice.add(b"dup");
    twice.add(b"dup");
    assert_eq!(once.get_u8_array(), twice.get_u8_array());
}

#[test]
fn compatibility_reflexive_symmetric() {
    let a = FilterBuilder::from_size_and_hashes(256, 3);
    let b = FilterBuilder::from_size_and_hashes(256, 3);
    let c = FilterBuilder::from_size_and_hashes(512, 3);
    let d = FilterBuilder::from_size_and_hashes(256, 4);
    assert!(a.is_compatible_to(&a));
    assert!(a.is_compatible_to(&b) && b.is_compatible_to(&a));
    assert!(!a.is_compatible_to(&c) && !c.is_compatible_to(&a));
    assert!(!a.is_compatible_to(&d) && !d.is_compatible_to(&a));
}

#[test]
fn complete_is_idempotent() {
    let mut config = FilterBuilder::from_size_and_hashes(256, 3);
    config.complete();
    let size = config.size;
    let hashes = config.hashes;
    config.complete();
    config.complete();
    assert_eq!(config.size, size);
    assert_eq!(config.hashes, hashes);
}

#[test]
fn union_of_disjoint_sets() {
    let mut a = filter(65536, 5);
    let mut b = filter(65536, 5);
    for x in 0u64..500 {
        a.add(&x.to_le_bytes());
    }
    for x in 500u64..1000 {
        b.add(&x.to_le_bytes());
    }
    assert!(a.union(&b));
    for x in 0u64..1000 {
        assert!(a.contains(&x.to_le_bytes()));
    }
}

#[test]
fn union_incompatible_changes_nothing() {
    let mut a = filter(1024, 4);
    let b = filter(2048, 4);
    let c = filter(1024, 5);
    a.add(b"kept");
    let before = a.get_u8_array();
    assert!(!a.union(&b));
    assert!(!a.union(&c));
    assert_eq!(a.get_u8_array(), before);
}

#[test]
fn union_is_bitwise_or() {
    let mut a = filter(16, 1);
    let mut b = filter(16, 1);
    a.set(1, true);
    a.set(5, true);
    b.set(5, true);
    b.set(9, true);
    assert!(a.union(&b));
    for i in 0..16usize {
        let expected = i == 1 || i == 5 || i == 9;
        assert_eq!(a.get(i), Some(expected));
    }
}

#[test]
fn intersect_is_bitwise_and() {
    let mut a = filter(16, 1);
    let mut b = filter(16, 1);
    a.set(1, true);
    a.set(5, true);
    b.set(5, true);
    b.set(9, true);
    assert!(a.intersect(&b));
    for i in 0..16usize {
        assert_eq!(a.get(i), Some(i == 5));
    }
}

#[test]
fn intersect_incompatible_changes_nothing() {
    let mut a = filter(1024, 4);
    let b = filter(2048, 4);
    a.add(b"kept");
    let before = a.get_u8_array();
    assert!(!a.intersect(&b));
    assert_eq!(a.get_u8_array(), before);
}

#[test]
fn intersect_introduces_no_new_positives() {
    let mut a = filter(8192, 4);
    let mut b = filter(8192, 4);
    for x in 0u64..300 {
        a.add(&x.to_le_bytes());
    }
    for x in 200u64..500 {
        b.add(&x.to_le_bytes());
    }
    let a_pre = BloomFilter::from_u8_array(&a.get_u8_array(), 4);
    let b_pre = BloomFilter::from_u8_array(&b.get_u8_array(), 4);
    assert!(a.intersect(&b));
    for x in 0u64..600 {
        let e = x.to_le_bytes();
        if a.contains(&e) {
            assert!(a_pre.contains(&e) && b_pre.contains(&e));
        }
    }
    for x in 200u64..300 {
        assert!(a.contains(&x.to_le_bytes()));
    }
}

#[test]
fn clear_resets() {
    let mut bloom = filter(4096, 4);
    for x in 0u64..100 {
        bloom.add(&x.to_le_bytes());
    }
    assert!(!bloom.is_empty());
    bloom.clear();
    assert!(bloom.is_empty());
    for x in 0u64..100 {
        assert!(!bloom.contains(&x.to_le_bytes()));
    }
    assert_eq!(bloom.config().size, 4096);
    assert_eq!(bloom.config().hashes, 4);
}

#[test]
fn get_and_set_single_bits() {
    let mut bloom = filter(100, 2);
    assert_eq!(bloom.get(0), Some(false));
    bloom.set(0, true);
    bloom.set(99, true);
    assert_eq!(bloom.get(0), Some(true));
    assert_eq!(bloom.get(99), Some(true));
    assert_eq!(bloom.get(50), Some(false));
    assert_eq!(bloom.get(100), None);
    bloom.set(0, false);
    assert_eq!(bloom.get(0), Some(false));
}

#[test]
fn sizing_scenario_false_positive_rate() {
    // The standard optimal-parameter derivation for n = 1000 elements at a
    // one-percent target rate: m = ceil(-n ln p / (ln 2)^2), k = round((m/n) ln 2).
    let n: u64 = 1000;
    let p: f64 = 0.01;
    let m = (-(n as f64) * p.ln() / (2f64.ln() * 2f64.ln())).ceil() as u64;
    let k = ((m as f64 / n as f64) * 2f64.ln()).round().max(1.0) as u32;
    assert_eq!(m, 9586);
    assert_eq!(k, 7);

    let mut bloom = BloomFilter::new(FilterBuilder::from_size_and_hashes(m, k));
    for x in 1i64..=1000 {
        bloom.add(&x.to_le_bytes());
    }
    for x in 1i64..=1000 {
        assert!(bloom.contains(&x.to_le_bytes()));
    }
    let mut false_positives: u64 = 0;
    let samples: u64 = 100_000;
    for x in 10_001i64..=110_000 {
        if bloom.contains(&x.to_le_bytes()) {
            false_positives += 1;
        }
    }
    let rate = false_positives as f64 / samples as f64;
    assert!(rate < 0.02, "false-positive rate {} too far above 1%", rate);
    assert!(rate > 0.002, "false-positive rate {} implausibly low", rate);
}
