//! The incremental hasher and the one-shot function.

use vstd::prelude::*;
use vstd::arithmetic::div_mod::lemma_add_mod_noop_right;
use vstd::slice::slice_subrange;
use std::hash::Hasher;
use crate::bytes::read_u32_le;
use crate::mix::{fmix32, mix_block, spec_mix_block, spec_round, M, N, R2};
use crate::stream::{
    absorb_blocks, finalize, full_blocks, le_word, lemma_absorb_prefix, lemma_low32_wrapped,
    low32, murmur3_32, tail_of, zero_padded,
};

verus! {

/// What a hasher stands for: the seed it was made with and every byte
/// written to it since it was made or last reset.
pub struct HasherModel {
    pub seed: u32,
    pub written: Seq<u8>,
}

impl HasherModel {
    /// The state of a hasher that has been given nothing yet.
    pub open spec fn fresh(seed: u32) -> HasherModel {
        HasherModel { seed, written: Seq::empty() }
    }

    /// The state after one more write.
    pub open spec fn write(self, bytes: Seq<u8>) -> HasherModel {
        HasherModel { seed: self.seed, written: self.written + bytes }
    }

    /// The state after a sequence of writes, made in order.
    pub open spec fn write_all(self, parts: Seq<Seq<u8>>) -> HasherModel
        decreases parts.len(),
    {
        if parts.len() == 0 {
            self
        } else {
            self.write(parts.first()).write_all(parts.drop_first())
        }
    }

    /// The state after a reset.
    pub open spec fn reset(self) -> HasherModel {
        HasherModel::fresh(self.seed)
    }

    /// The digest of everything written so far, zero-extended to 64 bits.
    pub open spec fn finish(self) -> u64 {
        murmur3_32(self.written, self.seed) as u64
    }

    /// The running hash: every full block written so far, absorbed in order
    /// starting from the seed.
    pub open spec fn hash(self) -> u32 {
        absorb_blocks(self.seed, self.written, full_blocks(self.written))
    }

    /// The bytes that wait for a full block: between none and three.
    pub open spec fn carry(self) -> Seq<u8> {
        tail_of(self.written)
    }

    /// The number of bytes written so far, as a 64-bit counter.
    pub open spec fn len(self) -> u64 {
        (self.written.len() % 0x1_0000_0000_0000_0000) as u64
    }
}

/// An incremental MurmurHash3 x86_32 hasher.
pub struct Murmur3Hasher {
    hash: u32,
    len: u64,
    carry: [u8; 4],
    carry_len: usize,
    seed: u32,
    written: Ghost<Seq<u8>>,
}

impl View for Murmur3Hasher {
    type V = HasherModel;

    closed spec fn view(&self) -> HasherModel {
        HasherModel { seed: self.seed, written: self.written@ }
    }
}

impl Murmur3Hasher {
    /// The fields hold the state that the model derives from the seed and
    /// the bytes written: the running hash over the full blocks, the wrapped
    /// byte count, and the unconsumed tail at the front of the carry buffer.
    #[verifier::type_invariant]
    spec fn well_formed(&self) -> bool {
        &&& self.carry_len <= 3
        &&& self.hash == self@.hash()
        &&& self.len == self@.len()
        &&& self.carry@.subrange(0, self.carry_len as int) == self@.carry()
    }

    /// Creates a new `Murmur3Hasher`.
    pub fn new(seed: u32) -> (hasher: Murmur3Hasher)
        ensures
            hasher@ == HasherModel::fresh(seed),
    {
        let carry = [0u8; 4];
        assert(carry@.subrange(0, 0) =~= tail_of(Seq::<u8>::empty()));
        Murmur3Hasher { hash: seed, len: 0, carry, carry_len: 0, seed, written: Ghost(Seq::empty()) }
    }

    /// Forgets everything written so far; the seed stays.
    pub fn reset(&mut self)
        ensures
            final(self)@ == old(self)@.reset(),
    {
        *self = Murmur3Hasher::new(self.seed);
    }
}

/// Mixes the first four bytes of `buf`, read as a little-endian word, into
/// `hash`, without the rotate-and-combine step.
fn _process_chunk(hash: u32, buf: &[u8]) -> (mixed: u32)
    requires
        buf@.len() >= 4,
    ensures
        mixed == spec_mix_block(hash, le_word(buf@)),
{
    let chunk: u32 = read_u32_le(buf);
    mix_block(hash, chunk)
}

/// Absorbs one full block: mixes the first four bytes of `chunk` into `hash`
/// and applies the rotate-and-combine step.
fn absorb_chunk(hash: u32, chunk: &[u8]) -> (next: u32)
    requires
        chunk@.len() >= 4,
    ensures
        next == spec_round(hash, le_word(chunk@)),
{
    let mixed: u32 = _process_chunk(hash, chunk);
    let rotated: u32 = (mixed << R2) | (mixed >> (32 - R2));
    rotated.wrapping_mul(M).wrapping_add(N)
}

/// The digest of the state made of the running hash, the unconsumed tail and
/// the byte count. The tail is copied into a zeroed block before it is read.
fn finish_state(hash: u32, tail: &[u8], len: u64) -> (digest: u32)
    requires
        tail@.len() <= 3,
    ensures
        digest == finalize(hash, tail@, len as int),
{
    let mut buf = [0u8; 4];
    let mut i: usize = 0;
    while i < tail.len()
        invariant
            i <= tail@.len() <= 3,
            forall|j: int| 0 <= j < i ==> buf@[j] == tail@[j],
            forall|j: int| i <= j < 4 ==> buf@[j] == 0,
        decreases tail@.len() - i,
    {
        buf[i] = tail[i];
        i += 1;
    }
    assert(buf@ =~= zero_padded(tail@));
    let mixed: u32 = _process_chunk(hash, &buf);
    let low: u32 = #[verifier::truncate] (len as u32);
    assert(low == low32(len as int)) by {
        assert(len as u32 == len % 0x1_0000_0000) by (bit_vector);
    }
    fmix32(mixed ^ low)
}

impl Hasher for Murmur3Hasher {
    /// Feeds `bytes` to the hasher. Any sequence of writes leaves the hasher
    /// in the state that one write of their concatenation would.
    fn write(&mut self, bytes: &[u8])
        ensures
            final(self)@ == old(self)@.write(bytes@),
    {
        proof {
            use_type_invariant(&*self);
        }
        let ghost before = self.written@;
        let ghost stream = before + bytes@;
        let seed: u32 = self.seed;
        let n: usize = bytes.len();
        let mut hash: u32 = self.hash;
        let mut carry = self.carry;
        let mut carry_len: usize = self.carry_len;
        let mut pos: usize = 0;
        proof {
            assert(carry_len == tail_of(before).len());
            lemma_absorb_prefix(seed, before, bytes@, full_blocks(before));
            assert(carry@.subrange(0, carry_len as int) =~= stream.subrange(
                before.len() - carry_len,
                before.len() as int,
            ));
        }
        while pos < n
            invariant
                n == bytes@.len(),
                stream == before + bytes@,
                pos <= n,
                carry_len <= 3,
                (before.len() + pos - carry_len) % 4 == 0,
                hash == absorb_blocks(
                    seed,
                    stream,
                    ((before.len() + pos - carry_len) / 4) as nat,
                ),
                carry@.subrange(0, carry_len as int) == stream.subrange(
                    before.len() + pos - carry_len,
                    before.len() + pos,
                ),
            decreases n - pos,
        {
            let ghost done: int = (before.len() + pos - carry_len) / 4;
            if carry_len == 0 && n - pos >= 4 {
                let chunk = slice_subrange(bytes, pos, pos + 4);
                assert(chunk@ =~= stream.subrange(4 * done, 4 * done + 4));
                hash = absorb_chunk(hash, chunk);
                pos += 4;
            } else {
                carry[carry_len] = bytes[pos];
                carry_len += 1;
                pos += 1;
                assert(carry@.subrange(0, carry_len as int) =~= stream.subrange(
                    4 * done,
                    4 * done + carry_len,
                ));
                if carry_len == 4 {
                    hash = absorb_chunk(hash, &carry);
                    carry_len = 0;
                }
            }
        }
        let len: u64 = self.len.wrapping_add(n as u64);
        proof {
            assert(full_blocks(stream) == (stream.len() - carry_len) / 4);
            assert(carry@.subrange(0, carry_len as int) =~= tail_of(stream));
            assert(len == stream.len() % 0x1_0000_0000_0000_0000) by {
                lemma_add_mod_noop_right(
                    n as int,
                    before.len() as int,
                    0x1_0000_0000_0000_0000,
                );
            }
        }
        *self = Murmur3Hasher { hash, len, carry, carry_len, seed, written: Ghost(stream) };
    }

    /// The digest of everything written so far, in the low 32 bits of the
    /// result. The hasher is left as it was and can be written to again.
    fn finish(&self) -> (digest: u64)
        ensures
            digest == self@.finish(),
    {
        proof {
            use_type_invariant(self);
        }
        let tail = slice_subrange(&self.carry, 0, self.carry_len);
        proof {
            lemma_low32_wrapped(self.written@.len() as int);
        }
        finish_state(self.hash, tail, self.len) as u64
    }
}

/// MurmurHash3 x86_32 of `data` under `seed`, in one call.
pub fn hash_bytes(data: &[u8], seed: u32) -> (digest: u32)
    ensures
        digest == murmur3_32(data@, seed),
{
    let n: usize = data.len();
    let mut hash: u32 = seed;
    let mut pos: usize = 0;
    while n - pos >= 4
        invariant
            n == data@.len(),
            pos <= n,
            pos % 4 == 0,
            hash == absorb_blocks(seed, data@, (pos / 4) as nat),
        decreases n - pos,
    {
        hash = absorb_chunk(hash, slice_subrange(data, pos, pos + 4));
        pos += 4;
    }
    let tail = slice_subrange(data, pos, n);
    assert(tail@ =~= tail_of(data@));
    finish_state(hash, tail, n as u64)
}

} // verus!
