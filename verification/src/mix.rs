//! The word-level steps of MurmurHash3 x86_32. All arithmetic is modulo 2^32.

use vstd::prelude::*;

verus! {

/// First multiplier applied to a block word.
pub const C1: u32 = 0xcc9e2d51;

/// Second multiplier applied to a block word.
pub const C2: u32 = 0x1b873593;

/// Rotation applied to a block word between the two multiplications.
pub const R1: u32 = 15;

/// Rotation applied to the running hash after a full block.
pub const R2: u32 = 13;

/// Multiplier applied to the running hash after a full block.
pub const M: u32 = 5;

/// Addend applied to the running hash after a full block.
pub const N: u32 = 0xe6546b64;

/// First multiplier of the final avalanche.
pub const F1: u32 = 0x85ebca6b;

/// Second multiplier of the final avalanche.
pub const F2: u32 = 0xc2b2ae35;

/// `x` rotated left by `r` bits, for `1 <= r <= 31`.
pub open spec fn rotl32(x: u32, r: u32) -> u32 {
    (x << r) | (x >> ((32 - r) as u32))
}

/// The running hash after the word `block` has been mixed in: the word is
/// multiplied by `C1`, rotated by `R1`, multiplied by `C2` and XORed into
/// `hash`. The rotate-and-combine step that follows a full block is not part
/// of this.
pub open spec fn spec_mix_block(hash: u32, block: u32) -> u32 {
    hash ^ rotl32(block.wrapping_mul(C1), R1).wrapping_mul(C2)
}

/// The running hash after one full block: the word is mixed in, then the hash
/// is rotated by `R2`, multiplied by `M` and increased by `N`.
pub open spec fn spec_round(hash: u32, block: u32) -> u32 {
    rotl32(spec_mix_block(hash, block), R2).wrapping_mul(M).wrapping_add(N)
}

/// The final avalanche of the 32-bit state.
pub open spec fn spec_fmix32(h: u32) -> u32 {
    let a = h ^ (h >> 16);
    let b = a.wrapping_mul(F1);
    let c = b ^ (b >> 13);
    let d = c.wrapping_mul(F2);
    d ^ (d >> 16)
}

/// Mixes one 32-bit block word into the running hash.
pub fn mix_block(hash: u32, block: u32) -> (mixed: u32)
    ensures
        mixed == spec_mix_block(hash, block),
{
    let mut k: u32 = block.wrapping_mul(C1);
    k = (k << R1) | (k >> (32 - R1));
    k = k.wrapping_mul(C2);
    hash ^ k
}

/// Diffuses every input bit over the whole 32-bit result.
pub fn fmix32(h: u32) -> (out: u32)
    ensures
        out == spec_fmix32(h),
{
    let mut h: u32 = h;
    h = h ^ (h >> 16);
    h = h.wrapping_mul(F1);
    h = h ^ (h >> 13);
    h = h.wrapping_mul(F2);
    h ^ (h >> 16)
}

} // verus!
