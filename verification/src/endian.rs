//! Little-endian integer reads, delegated to the byteorder crate.

use vstd::prelude::*;
use vstd::bytes::spec_u32_from_le_bytes;

verus! {

/// Relies on byteorder's `LittleEndian::read_u32`: the little-endian 32-bit
/// value of the four bytes at `pos` (it panics only on a buffer shorter than
/// four bytes, which the precondition rules out).
#[verifier::external_body]
pub(crate) fn read_le_u32_at(data: &Vec<u8>, pos: usize) -> (r: u32)
    requires
        pos + 4 <= data@.len(),
    ensures
        r == spec_u32_from_le_bytes(data@.subrange(pos as int, pos as int + 4)),
{
    <byteorder::LittleEndian as byteorder::ByteOrder>::read_u32(&data[pos..pos + 4])
}

} // verus!
