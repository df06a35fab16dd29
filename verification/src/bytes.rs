//! Reading block words out of byte buffers.

use vstd::prelude::*;
use crate::stream::le_word;

verus! {

/// `byteorder::LittleEndian::read_u32`, which reads the first four bytes of
/// `buf` as a little-endian word whatever the byte order of the host, and
/// panics on a shorter buffer. Trusted: the contract restates that reading
/// and is not proved.
#[verifier::external_body]
pub(crate) fn read_u32_le(buf: &[u8]) -> (word: u32)
    requires
        buf@.len() >= 4,
    ensures
        word == le_word(buf@),
{
    <byteorder::LittleEndian as byteorder::ByteOrder>::read_u32(buf)
}

} // verus!
