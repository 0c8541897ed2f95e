use vstd::prelude::*;

verus! {

/// A name for the IEEE CRC-32 of a byte sequence: a function of the bytes
/// alone.
pub uninterp spec fn crc32_of(data: Seq<u8>) -> u32;

/// Relies on crc32fast::hash: the IEEE CRC-32 checksum of the bytes.
#[verifier::external_body]
pub fn crc32(data: &[u8]) -> (r: u32)
    ensures
        r == crc32_of(data@),
{
    crc32fast::hash(data)
}

} // verus!
