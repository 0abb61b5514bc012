//! The SCALE encodings that cross the boundary to the chain.

use vstd::prelude::*;
use vstd::bytes::{spec_u16_to_le_bytes, spec_u32_to_le_bytes};
use parity_scale_codec::Encode;

verus! {

/// The compact encoding of a length below 2^32: one byte below 2^6, two
/// below 2^14, four below 2^30, and five from there on. The two lowest bits
/// of the first byte tell which.
pub open spec fn compact_length(len: nat) -> Seq<u8> {
    if len < 0x40 {
        seq![(len * 4) as u8]
    } else if len < 0x4000 {
        spec_u16_to_le_bytes((len * 4 + 1) as u16)
    } else if len < 0x4000_0000 {
        spec_u32_to_le_bytes((len * 4 + 2) as u32)
    } else {
        seq![3u8] + spec_u32_to_le_bytes(len as u32)
    }
}

/// The encoding of a byte string: its compact length, then the bytes.
pub open spec fn scale_bytes(bytes: Seq<u8>) -> Seq<u8> {
    compact_length(bytes.len()) + bytes
}

/// The encoding of a flag: one byte, 1 for true.
pub open spec fn scale_bool(flag: bool) -> Seq<u8> {
    seq![if flag { 1u8 } else { 0u8 }]
}

/// Calls `parity_scale_codec::Encode::encode` on a byte string. Trusted to
/// return what [`scale_bytes`] states. The outside function panics on a
/// length that does not fit 32 bits.
#[verifier::external_body]
pub(crate) fn encode_bytes(bytes: &[u8]) -> (encoded: Vec<u8>)
    requires
        bytes@.len() <= u32::MAX,
    ensures
        encoded@ == scale_bytes(bytes@),
{
    bytes.encode()
}

/// Calls `parity_scale_codec::Encode::encode` on a `u32`. Trusted to return
/// its four bytes, the lowest first.
#[verifier::external_body]
pub(crate) fn encode_u32(value: u32) -> (bytes: Vec<u8>)
    ensures
        bytes@ == spec_u32_to_le_bytes(value),
{
    value.encode()
}

} // verus!
