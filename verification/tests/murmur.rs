use murmur3::Murmur3Hasher;
use std::hash::{Hash, Hasher};

#[test]
fn test_progressive_equals_one_shot() {
    let data1 = "abcdefghabcdefghabcdefghabcdefgh".as_bytes();
    let data2 = "abcdefghabcdefghabcdefghabcdefgh".as_bytes();
    let data12 = "abcdefghabcdefghabcdefghabcdefghabcdefghabcdefghabcdefghabcdefgh".as_bytes();
    let expected_hash = 1618858773;

    let mut progressive_hasher = Murmur3Hasher::new(1234);
    Hash::hash_slice(data1, &mut progressive_hasher);
    Hash::hash_slice(data2, &mut progressive_hasher);
    let progressive_hash = progressive_hasher.finish();

    let mut one_shot_hasher = Murmur3Hasher::new(1234);
    Hash::hash_slice(data12, &mut one_shot_hasher);
    let one_shot_hash = one_shot_hasher.finish();

    assert_eq!(progressive_hash, expected_hash);
    assert_eq!(one_shot_hash, expected_hash);
}

#[test]
fn test_unaligned() {
    let data = "abcde".as_bytes();
    let expected_hash = 3902511862;

    let mut hasher = Murmur3Hasher::new(0);
    Hash::hash_slice(data, &mut hasher);
    let hash = hasher.finish();

    assert_eq!(hash, expected_hash);
}

#[test]
fn test_empty_seeded() {
    let data = "".as_bytes();
    let expected_hash = 254590987;

    let mut hasher = Murmur3Hasher::new(1234);
    Hash::hash_slice(data, &mut hasher);
    let hash = hasher.finish();

    assert_eq!(hash, expected_hash);
}

#[test]
fn test_empty_unseeded() {
    let data = "".as_bytes();
    let expected_hash = 0;

    let mut hasher = Murmur3Hasher::new(0);
    Hash::hash_slice(data, &mut hasher);
    let hash = hasher.finish();

    assert_eq!(hash, expected_hash);
}

#[test]
fn test_reset() {
    let data1 = "abcd".as_bytes();
    let data2 = "efgh".as_bytes();
    let expected_hash1 = 1139631978;
    let expected_hash2 = 635154487;

    let mut hasher = Murmur3Hasher::new(0);
    Hash::hash_slice(data1, &mut hasher);
    let hash1 = hasher.finish();

    hasher.reset();
    Hash::hash_slice(data2, &mut hasher);
    let hash2 = hasher.finish();

    assert_eq!(hash1, expected_hash1);
    assert_eq!(hash2, expected_hash2);
}
