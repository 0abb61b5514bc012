//! The cryptographic primitives that discovery rests on. Each is computed by
//! an outside crate and known here by name only.

use vstd::prelude::*;
use sp_core::Pair;
use parity_scale_codec::{Decode, Encode};

verus! {

/// The SHA-256 digest of `data`.
pub uninterp spec fn sha2_256(data: Seq<u8>) -> Seq<u8>;

/// Whether `signature` is a valid sr25519 signature of `message` under the
/// public key `public`, in the signing context that Substrate uses.
pub uninterp spec fn sr25519_valid(signature: Seq<u8>, message: Seq<u8>, public: Seq<u8>) -> bool;

/// Calls `sp_crypto_hashing::sha2_256`, the digest that Substrate's own
/// crates use; libp2p offers none. Trusted to return the digest that
/// [`sha2_256`] names.
#[verifier::external_body]
pub(crate) fn digest(data: &[u8]) -> (out: [u8; 32])
    ensures
        out@ == sha2_256(data@),
{
    sp_crypto_hashing::sha2_256(data)
}

/// Calls `sp_core::sr25519::Pair::verify`. Trusted to decide what
/// [`sr25519_valid`] names; the outside function rejects malformed keys and
/// signatures by returning `false`. It panics on a message whose length does
/// not fit 32 bits, the most that its transcript can record.
#[verifier::external_body]
pub(crate) fn sr25519_verify(signature: &[u8; 64], message: &[u8], public: &[u8; 32]) -> (valid:
    bool)
    requires
        message@.len() <= u32::MAX,
    ensures
        valid == sr25519_valid(signature@, message@, public@),
{
    sp_core::sr25519::Pair::verify(
        &sp_core::sr25519::Signature::from_raw(*signature),
        message,
        &sp_core::sr25519::Public::from_raw(*public),
    )
}

/// Calls `parity_scale_codec::Decode::decode` for an sr25519 signature.
/// Trusted to read the first 64 bytes of the input as the signature, to leave
/// what follows them unread, and to fail exactly where fewer than 64 bytes are
/// given.
#[verifier::external_body]
pub(crate) fn decode_signature(bytes: &[u8]) -> (signature: Option<[u8; 64]>)
    ensures
        match signature {
            Some(raw) => bytes@.len() >= 64 && raw@ == bytes@.subrange(0, 64),
            None => bytes@.len() < 64,
        },
{
    sp_core::sr25519::Signature::decode(&mut &bytes[..]).ok().map(|signature| signature.0)
}

/// Calls `parity_scale_codec::Encode::encode` on an sr25519 signature.
/// Trusted to return the 64 bytes of the signature and nothing else.
#[verifier::external_body]
pub(crate) fn encode_signature(signature: &[u8; 64]) -> (bytes: Vec<u8>)
    ensures
        bytes@ == signature@,
{
    sp_core::sr25519::Signature::from_raw(*signature).encode()
}

} // verus!
