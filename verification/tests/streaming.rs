use murmur3::{hash_bytes, Murmur3Hasher};
use std::hash::Hasher;

fn sample(len: usize) -> Vec<u8> {
    let mut data = Vec::new();
    let mut x: u32 = 0x2545_f491;
    for _ in 0..len {
        x = x.wrapping_mul(1664525).wrapping_add(1013904223);
        data.push((x >> 24) as u8);
    }
    data
}

fn write_parts(seed: u32, parts: &[&[u8]]) -> u64 {
    let mut hasher = Murmur3Hasher::new(seed);
    for part in parts {
        hasher.write(part);
    }
    hasher.finish()
}

#[test]
fn one_write_equals_one_shot() {
    for len in 0..40 {
        let data = sample(len);
        for seed in [0u32, 1, 1234, 0xffff_ffff] {
            assert_eq!(write_parts(seed, &[&data]), hash_bytes(&data, seed) as u64);
        }
    }
}

#[test]
fn every_cut_in_two_gives_the_same_digest() {
    let data = sample(23);
    let whole = hash_bytes(&data, 99) as u64;
    for cut in 0..=data.len() {
        assert_eq!(write_parts(99, &[&data[..cut], &data[cut..]]), whole);
    }
}

#[test]
fn every_cut_in_three_gives_the_same_digest() {
    let data = sample(17);
    let whole = hash_bytes(&data, 7) as u64;
    for a in 0..=data.len() {
        for b in a..=data.len() {
            assert_eq!(write_parts(7, &[&data[..a], &data[a..b], &data[b..]]), whole);
        }
    }
}

#[test]
fn byte_by_byte_gives_the_same_digest() {
    let data = sample(64);
    let mut hasher = Murmur3Hasher::new(1234);
    for byte in &data {
        hasher.write(&[*byte]);
    }
    assert_eq!(hasher.finish(), hash_bytes(&data, 1234) as u64);
}

#[test]
fn block_split_three_then_one() {
    assert_eq!(write_parts(0, &[b"abc", b"d"]), 1139631978);
    assert_eq!(write_parts(0, &[b"a", b"bcd"]), 1139631978);
    assert_eq!(write_parts(0, &[b"ab", b"cd"]), 1139631978);
}

#[test]
fn unaligned_in_any_chunking() {
    let data = b"abcde";
    for mask in 0u32..16 {
        let mut hasher = Murmur3Hasher::new(0);
        let mut start = 0;
        for end in 1..=data.len() {
            if end == data.len() || mask & (1 << (end - 1)) != 0 {
                hasher.write(&data[start..end]);
                start = end;
            }
        }
        assert_eq!(hasher.finish(), 3902511862);
    }
}

#[test]
fn two_halves_of_sixty_four_bytes() {
    let half = b"abcdefghabcdefghabcdefghabcdefgh";
    assert_eq!(write_parts(1234, &[half, half]), 1618858773);
}

#[test]
fn empty_writes_change_nothing() {
    let data = sample(13);
    let whole = hash_bytes(&data, 5) as u64;
    assert_eq!(write_parts(5, &[b"", &data]), whole);
    assert_eq!(write_parts(5, &[&data, b""]), whole);
    assert_eq!(write_parts(5, &[b"", &data[..6], b"", b"", &data[6..], b""]), whole);
    assert_eq!(write_parts(5, &[b"", b"", b""]), hash_bytes(b"", 5) as u64);
}

#[test]
fn finish_twice_gives_the_same_digest() {
    let mut hasher = Murmur3Hasher::new(1234);
    hasher.write(b"abcdefg");
    let first = hasher.finish();
    let second = hasher.finish();
    assert_eq!(first, 1113025207);
    assert_eq!(second, first);
}

#[test]
fn writing_goes_on_after_finish() {
    let mut hasher = Murmur3Hasher::new(0);
    hasher.write(b"abcd");
    assert_eq!(hasher.finish(), 1139631978);
    hasher.write(b"e");
    assert_eq!(hasher.finish(), 3902511862);
    hasher.write(b"fgh");
    assert_eq!(hasher.finish(), 1239272644);
}

#[test]
fn reset_gives_a_fresh_hasher_with_the_same_seed() {
    let mut hasher = Murmur3Hasher::new(1234);
    hasher.write(b"abcde");
    hasher.reset();
    assert_eq!(hasher.finish(), 254590987);
    hasher.write(b"abcdefgh");
    assert_eq!(hasher.finish(), 4037461305);
}

#[test]
fn reset_drops_a_pending_tail() {
    let mut hasher = Murmur3Hasher::new(0);
    hasher.write(b"xyz");
    hasher.reset();
    hasher.write(b"a");
    hasher.write(b"bcd");
    assert_eq!(hasher.finish(), 1139631978);
}

#[test]
fn reset_then_write_after_first_digest() {
    let mut hasher = Murmur3Hasher::new(0);
    hasher.write(b"abcd");
    assert_eq!(hasher.finish(), 1139631978);
    hasher.reset();
    hasher.write(b"efgh");
    assert_eq!(hasher.finish(), 635154487);
}
