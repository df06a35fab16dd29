use murmur3::mix::{fmix32, mix_block};

#[test]
fn mix_block_of_zero_word_keeps_hash() {
    assert_eq!(mix_block(0, 0), 0);
    assert_eq!(mix_block(0x1234_5678, 0), 0x1234_5678);
}

#[test]
fn mix_block_exact_values() {
    assert_eq!(mix_block(0, 1), 3277036125);
    assert_eq!(mix_block(0x1234_5678, 0x9abc_def0), 1744305619);
}

#[test]
fn fmix32_exact_values() {
    assert_eq!(fmix32(0), 0);
    assert_eq!(fmix32(1), 1364076727);
    assert_eq!(fmix32(0x1234_5678), 3816608188);
    assert_eq!(fmix32(0xffff_ffff), 2180083513);
}
