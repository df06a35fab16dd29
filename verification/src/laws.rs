//! What holds of every hasher, stated over the model and proved.

use vstd::prelude::*;
use vstd::arithmetic::div_mod::lemma_add_mod_noop_right;
use crate::murmur::HasherModel;
use crate::stream::{
    absorb_blocks, finalize, full_blocks, lemma_absorb_prefix, lemma_absorb_split,
    lemma_low32_wrapped, murmur3_32, tail_of,
};

verus! {

/// A fresh hasher that is given `data` in one write finishes with the
/// one-shot hash of `data` under the same seed, zero-extended to 64 bits;
/// truncated to 32 bits it is that hash.
pub proof fn law_one_shot(data: Seq<u8>, seed: u32)
    ensures
        HasherModel::fresh(seed).write(data).finish() == murmur3_32(data, seed) as u64,
        HasherModel::fresh(seed).write(data).finish() as u32 == murmur3_32(data, seed),
{
    assert(Seq::<u8>::empty() + data =~= data);
    let digest = murmur3_32(data, seed);
    assert((digest as u64) as u32 == digest) by (bit_vector);
}

/// Writing the parts of a stream one after the other leaves the hasher in
/// the state that a single write of the whole stream would, wherever the
/// cuts fall, inside a block or between blocks; so both finish with the same
/// digest.
pub proof fn law_chunking(m: HasherModel, parts: Seq<Seq<u8>>)
    ensures
        m.write_all(parts) == m.write(parts.flatten()),
        m.write_all(parts).finish() == m.write(parts.flatten()).finish(),
    decreases parts.len(),
{
    if parts.len() == 0 {
        assert(m.written + Seq::<u8>::empty() =~= m.written);
    } else {
        law_chunking(m.write(parts.first()), parts.drop_first());
        assert((m.written + parts.first()) + parts.drop_first().flatten() =~= m.written + (
        parts.first() + parts.drop_first().flatten()));
    }
}

/// A write of no bytes changes nothing.
pub proof fn law_empty_write(m: HasherModel)
    ensures
        m.write(Seq::empty()) == m,
{
    assert(m.written + Seq::<u8>::empty() =~= m.written);
}

/// An empty write put before, between or after the writes of a sequence
/// does not change where the sequence leaves the hasher, nor the digest.
pub proof fn law_empty_write_anywhere(m: HasherModel, parts: Seq<Seq<u8>>, at: int)
    requires
        0 <= at <= parts.len(),
    ensures
        m.write_all(parts.insert(at, Seq::empty())) == m.write_all(parts),
        m.write_all(parts.insert(at, Seq::empty())).finish() == m.write_all(parts).finish(),
    decreases parts.len(),
{
    let padded = parts.insert(at, Seq::empty());
    if at == 0 {
        law_empty_write(m);
        assert(padded.drop_first() =~= parts);
    } else {
        law_empty_write_anywhere(m.write(parts.first()), parts.drop_first(), at - 1);
        assert(padded.drop_first() =~= parts.drop_first().insert(at - 1, Seq::empty()));
    }
}

/// The digest is a function of the state alone, and finishing leaves the
/// state as it was: two finalizations with no write between them give the
/// same value.
pub proof fn law_finish_repeatable(m: HasherModel, first: u64, second: u64)
    requires
        first == m.finish(),
        second == m.finish(),
    ensures
        first == second,
{
}

/// A hasher that was reset is in the state of a freshly made hasher with the
/// same seed, whatever had been written to it, and goes on as one: the same
/// writes lead both to the same digest.
pub proof fn law_reset(m: HasherModel, parts: Seq<Seq<u8>>)
    ensures
        m.reset() == HasherModel::fresh(m.seed),
        m.reset().write_all(parts).finish() == HasherModel::fresh(m.seed).write_all(
            parts,
        ).finish(),
{
}

/// The state of a hasher that has been given nothing: the running hash is
/// the seed, the byte counter is zero and the carry is empty.
pub proof fn law_fresh_state(seed: u32)
    ensures
        HasherModel::fresh(seed).hash() == seed,
        HasherModel::fresh(seed).len() == 0,
        HasherModel::fresh(seed).carry() == Seq::<u8>::empty(),
{
    assert(HasherModel::fresh(seed).carry() =~= Seq::<u8>::empty());
}

/// The state of a hasher at any time: at most three bytes wait in the
/// carry, and the bytes before them are a whole number of blocks. The
/// same holds of the 64-bit byte counter.
pub proof fn law_state_invariant(m: HasherModel)
    ensures
        m.carry().len() <= 3,
        (m.written.len() - m.carry().len()) % 4 == 0,
        (m.len() - m.carry().len()) % 4 == 0,
        m.written == m.written.take(4 * full_blocks(m.written) as int) + m.carry(),
{
    assert(m.written =~= m.written.take(4 * full_blocks(m.written) as int) + m.carry());
}

/// A write as a step of the state machine: the carry and the new bytes form
/// the working buffer; its full blocks are absorbed in order into the
/// running hash; what is left of it is the new carry; the byte counter
/// grows by the number of new bytes.
pub proof fn law_write_step(m: HasherModel, bytes: Seq<u8>)
    ensures
        ({
            let buffer = m.carry() + bytes;
            let next = m.write(bytes);
            &&& next.seed == m.seed
            &&& next.hash() == absorb_blocks(m.hash(), buffer, full_blocks(buffer))
            &&& next.carry() == tail_of(buffer)
            &&& next.len() == ((m.len() + bytes.len()) % 0x1_0000_0000_0000_0000) as u64
        }),
{
    let done = full_blocks(m.written);
    let head = m.written.take(4 * done as int);
    let carry = m.carry();
    let buffer = carry + bytes;
    let more = full_blocks(buffer);
    let next = m.write(bytes);
    assert(m.written == head + carry && next.written == head + buffer) by {
        assert(m.written =~= head + carry);
        assert(next.written =~= head + buffer);
    }
    assert(full_blocks(next.written) == done + more) by {
        assert(next.written.len() == 4 * done + buffer.len());
    }
    assert(next.hash() == absorb_blocks(m.hash(), buffer, more)) by {
        lemma_absorb_prefix(m.seed, head, carry, done);
        lemma_absorb_split(m.seed, head, buffer, done, more);
    }
    assert(next.carry() == tail_of(buffer)) by {
        assert((head + buffer).skip(4 * (done + more) as int) =~= buffer.skip(4 * more as int));
    }
    assert(next.len() == ((m.len() + bytes.len()) % 0x1_0000_0000_0000_0000) as u64) by {
        lemma_add_mod_noop_right(
            bytes.len() as int,
            m.written.len() as int,
            0x1_0000_0000_0000_0000,
        );
    }
}

/// Finalization as a function of the state: the digest is computed from the
/// running hash, the carry and the byte counter, and from nothing else.
pub proof fn law_finish_step(m: HasherModel)
    ensures
        m.finish() == finalize(m.hash(), m.carry(), m.len() as int) as u64,
{
    lemma_low32_wrapped(m.written.len() as int);
}

} // verus!
