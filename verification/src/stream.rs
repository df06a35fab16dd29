//! The hash as a function of the whole byte stream, and the facts about that
//! function on which the incremental hasher rests.

use vstd::prelude::*;
use vstd::arithmetic::div_mod::lemma_mod_mod;
use crate::mix::{spec_fmix32, spec_mix_block, spec_round};

verus! {

/// The first four bytes of `b` read as a little-endian 32-bit word.
pub open spec fn le_word(b: Seq<u8>) -> u32 {
    (b[0] as u32) | ((b[1] as u32) << 8) | ((b[2] as u32) << 16) | ((b[3] as u32) << 24)
}

/// The `i`-th 4-byte block of `data` as a little-endian word.
pub open spec fn block_word(data: Seq<u8>, i: int) -> u32 {
    le_word(data.subrange(4 * i, 4 * i + 4))
}

/// The running hash after the first `n` full blocks of `data` have been
/// absorbed in order, starting from `h`.
pub open spec fn absorb_blocks(h: u32, data: Seq<u8>, n: nat) -> u32
    decreases n,
{
    if n == 0 {
        h
    } else {
        spec_round(absorb_blocks(h, data, (n - 1) as nat), block_word(data, n - 1))
    }
}

/// A tail of at most three bytes, extended with zero bytes to a full block.
pub open spec fn zero_padded(tail: Seq<u8>) -> Seq<u8> {
    Seq::new(4, |i: int| if i < tail.len() { tail[i] } else { 0u8 })
}

/// The low 32 bits of a stream length.
pub open spec fn low32(len: int) -> u32 {
    (len % 0x1_0000_0000) as u32
}

/// The digest of a state: the zero-padded tail is mixed into `h` without the
/// rotate-and-combine step, the low 32 bits of `len` are XORed in, and the
/// result goes through the avalanche.
pub open spec fn finalize(h: u32, tail: Seq<u8>, len: int) -> u32 {
    spec_fmix32(spec_mix_block(h, le_word(zero_padded(tail))) ^ low32(len))
}

/// The number of full 4-byte blocks in `data`.
pub open spec fn full_blocks(data: Seq<u8>) -> nat {
    data.len() / 4
}

/// The bytes of `data` after its last full block: between none and three.
pub open spec fn tail_of(data: Seq<u8>) -> Seq<u8> {
    data.skip(4 * full_blocks(data) as int)
}

/// MurmurHash3 x86_32 of `data` under `seed`.
pub open spec fn murmur3_32(data: Seq<u8>, seed: u32) -> u32 {
    finalize(absorb_blocks(seed, data, full_blocks(data)), tail_of(data), data.len() as int)
}

/// A length and the same length wrapped to 64 bits have the same low 32 bits.
pub proof fn lemma_low32_wrapped(len: int)
    ensures
        low32(len % 0x1_0000_0000_0000_0000) == low32(len),
{
    lemma_mod_mod(len, 0x1_0000_0000, 0x1_0000_0000);
}

/// The first `n` blocks of a stream do not depend on what follows them.
pub proof fn lemma_absorb_prefix(h: u32, a: Seq<u8>, b: Seq<u8>, n: nat)
    requires
        4 * n <= a.len(),
    ensures
        absorb_blocks(h, a + b, n) == absorb_blocks(h, a, n),
    decreases n,
{
    if n > 0 {
        lemma_absorb_prefix(h, a, b, (n - 1) as nat);
        assert((a + b).subrange(4 * (n - 1), 4 * (n - 1) + 4) =~= a.subrange(
            4 * (n - 1),
            4 * (n - 1) + 4,
        ));
    }
}

/// Absorbing `m + n` blocks of `a + b`, where `a` is exactly `m` blocks long,
/// is absorbing `m` blocks of `a` and then `n` blocks of `b`.
pub proof fn lemma_absorb_split(h: u32, a: Seq<u8>, b: Seq<u8>, m: nat, n: nat)
    requires
        a.len() == 4 * m,
        4 * n <= b.len(),
    ensures
        absorb_blocks(h, a + b, m + n) == absorb_blocks(absorb_blocks(h, a, m), b, n),
    decreases n,
{
    if n == 0 {
        lemma_absorb_prefix(h, a, b, m);
    } else {
        lemma_absorb_split(h, a, b, m, (n - 1) as nat);
        assert((a + b).subrange(4 * (m + n - 1), 4 * (m + n - 1) + 4) =~= b.subrange(
            4 * (n - 1),
            4 * (n - 1) + 4,
        ));
    }
}

} // verus!
