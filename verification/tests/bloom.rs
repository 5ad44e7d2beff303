use bloom_filter::Bloom;
use bloom_filter::BloomError;

#[test]
fn bloom_test_bloom_size() {
    let bloom = Bloom::new(1024, 2).unwrap();
    assert!(bloom.bit_count() == 8192);
}

#[test]
fn bloom_test_put() {
    let mut bloom = Bloom::new(1024, 2).unwrap();
    let key: &[u8] = b"foo";

    bloom.put(key);
}

#[test]
fn bloom_test_has() {
    let mut bloom = Bloom::new(1024, 2).unwrap();
    let key: &[u8] = b"foo";

    bloom.put(key);
    assert!(bloom.has(key) == true);
    assert!(bloom.has(b"bar") == false);
}

#[test]
fn zero_byte_size_is_rejected_for_any_k() {
    for k in [0, 1, 2, 20] {
        assert!(matches!(Bloom::new(0, k), Err(BloomError::InvalidConfiguration)));
    }
}

#[test]
fn bit_count_is_eight_per_byte() {
    assert_eq!(Bloom::new(1, 1).unwrap().bit_count(), 8);
    assert_eq!(Bloom::new(3, 4).unwrap().bit_count(), 24);
    assert_eq!(Bloom::new(1024, 2).unwrap().bit_count(), 8192);
}

#[test]
fn empty_item_is_a_valid_item() {
    let mut bloom = Bloom::new(1024, 2).unwrap();
    assert!(!bloom.has(b""));
    bloom.put(b"");
    assert!(bloom.has(b""));
    assert!(!bloom.has(b"nonempty"));
}

#[test]
fn inserted_items_stay_found_as_others_arrive() {
    let mut bloom = Bloom::new(1024, 2).unwrap();
    bloom.put(b"foo");
    assert!(bloom.has(b"foo"));
    for other in [b"bar" as &[u8], b"baz", b"qux", b"", b"quux"] {
        bloom.put(other);
        assert!(bloom.has(b"foo"));
        assert!(bloom.has(other));
    }
}

#[test]
fn queries_are_deterministic() {
    let mut bloom = Bloom::new(1024, 2).unwrap();
    bloom.put(b"foo");
    let first_foo = bloom.has(b"foo");
    let first_bar = bloom.has(b"bar");
    for _ in 0..10 {
        assert_eq!(bloom.has(b"foo"), first_foo);
        assert_eq!(bloom.has(b"bar"), first_bar);
    }
}

#[test]
fn clear_forgets_every_insertion() {
    let mut bloom = Bloom::new(1024, 2).unwrap();
    let items = [b"foo" as &[u8], b"bar", b"baz", b""];
    for item in items {
        bloom.put(item);
    }
    bloom.clear();
    for item in items {
        assert!(!bloom.has(item));
    }
    assert_eq!(bloom.bit_count(), 8192);
    bloom.put(b"foo");
    assert!(bloom.has(b"foo"));
}

#[test]
fn zero_rounds_accepts_everything_vacuously() {
    let mut bloom = Bloom::new(1024, 0).unwrap();
    assert!(bloom.has(b"never inserted"));
    bloom.put(b"foo");
    assert!(bloom.has(b"foo"));
    bloom.clear();
    assert!(bloom.has(b"still vacuously present"));
}
