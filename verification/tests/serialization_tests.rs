use bit_vec::BitVec;
use fastbloom_rs::{BloomFilter, FilterBuilder};

fn filter(size: u64, hashes: u32) -> BloomFilter {
    BloomFilter::new(FilterBuilder::from_size_and_hashes(size, hashes))
}

#[test]
fn byte_packing_is_msb_first() {
    let mut bloom = filter(8, 1);
    bloom.set(0, true);
    assert_eq!(bloom.get_u8_array(), vec![0b1000_0000]);
    bloom.set(7, true);
    assert_eq!(bloom.get_u8_array(), vec![0b1000_0001]);
}

#[test]
fn byte_unpacking_is_msb_first() {
    let bloom = BloomFilter::from_u8_array(&[0b1010_0000, 0b0001_0010], 1);
    assert_eq!(bloom.config().size, 16);
    let expected = [
        true, false, true, false, false, false, false, false, false, false, false, true, false,
        false, true, false,
    ];
    for (i, &want) in expected.iter().enumerate() {
        assert_eq!(bloom.get(i), Some(want));
    }
}

#[test]
fn word_packing_is_lsb_first() {
    let mut bloom = filter(64, 1);
    bloom.set(0, true);
    bloom.set(31, true);
    bloom.set(33, true);
    let words = bloom.get_u32_array();
    assert_eq!(words, vec![1u32 | (1u32 << 31), 1u32 << 1]);
}

#[test]
fn word_array_round_trip() {
    let mut bloom = filter(96, 3);
    for x in 0u64..40 {
        bloom.add(&x.to_le_bytes());
    }
    let words = bloom.get_u32_array();
    let rebuilt = BloomFilter::from_u32_array(&words, 3);
    assert_eq!(rebuilt.config().size, 96);
    assert_eq!(rebuilt.config().hashes, 3);
    assert_eq!(rebuilt.get_u8_array(), bloom.get_u8_array());
    for x in 0u64..40 {
        assert!(rebuilt.contains(&x.to_le_bytes()));
    }
}

#[test]
fn byte_array_round_trip() {
    let mut bloom = filter(8192, 5);
    for x in 0u64..500 {
        bloom.add(&x.to_le_bytes());
    }
    let bytes = bloom.get_u8_array();
    let rebuilt = BloomFilter::from_u8_array(&bytes, 5);
    assert_eq!(rebuilt.config().size, 8192);
    assert_eq!(rebuilt.get_u8_array(), bytes);
    for x in 0u64..500 {
        assert!(rebuilt.contains(&x.to_le_bytes()));
    }
    for x in 1000u64..1100 {
        let e = x.to_le_bytes();
        assert_eq!(rebuilt.contains(&e), bloom.contains(&e));
    }
}

#[test]
fn bit_vec_round_trip_odd_size() {
    let mut bloom = filter(1021, 4);
    for x in 0u64..50 {
        bloom.add(&x.to_le_bytes());
    }
    let bits = bloom.get_bit_vec();
    assert_eq!(bits.len(), 1021);
    let rebuilt = BloomFilter::from_bit_vec(&bits, 4);
    assert_eq!(rebuilt.config().size, 1021);
    for x in 0u64..50 {
        assert!(rebuilt.contains(&x.to_le_bytes()));
    }
    for x in 100u64..200 {
        let e = x.to_le_bytes();
        assert_eq!(rebuilt.contains(&e), bloom.contains(&e));
    }
}

#[test]
fn from_bit_vec_takes_a_copy() {
    let mut bits = BitVec::from_elem(64, false);
    bits.set(3, true);
    let bloom = BloomFilter::from_bit_vec(&bits, 2);
    bits.set(4, true);
    assert_eq!(bloom.get(3), Some(true));
    assert_eq!(bloom.get(4), Some(false));
}

#[test]
fn set_bit_vec_replaces_state() {
    let mut bloom = filter(16, 1);
    bloom.set(2, true);
    let mut replacement = BitVec::from_elem(16, false);
    replacement.set(7, true);
    bloom.set_bit_vec(replacement);
    assert_eq!(bloom.get(2), Some(false));
    assert_eq!(bloom.get(7), Some(true));
    assert_eq!(bloom.config().size, 16);
}

#[test]
fn get_bit_vec_is_a_snapshot() {
    let mut bloom = filter(32, 2);
    bloom.add(b"snapshot");
    let bits = bloom.get_bit_vec();
    bloom.clear();
    assert!(bloom.is_empty());
    let rebuilt = BloomFilter::from_bit_vec(&bits, 2);
    assert!(rebuilt.contains(b"snapshot"));
}
