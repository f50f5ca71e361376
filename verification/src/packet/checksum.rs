//! The payload checksum.

use vstd::prelude::*;

verus! {

/// The CRC-32 (IEEE 802.3 polynomial, reflected) of a byte sequence.
///
/// The value is the one `crc32fast::hash` computes; nothing else is assumed
/// about it.
pub uninterp spec fn crc32_ieee(data: Seq<u8>) -> u32;

/// Calls `crc32fast::hash` on `data`.
///
/// Trusted: the result is the CRC-32 of exactly the bytes handed in, a
/// function of those bytes alone. The call accepts every slice, the empty one
/// included.
#[verifier::external_body]
pub(crate) fn crc32(data: &[u8]) -> (sum: u32)
    ensures
        sum == crc32_ieee(data@),
{
    crc32fast::hash(data)
}

} // verus!
