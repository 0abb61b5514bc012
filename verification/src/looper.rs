//! The decisions of the loop that attests block data: for every new header
//! it asks for the latest block and its availability, has the outcome signed,
//! and submits it under the next nonce.

use vstd::prelude::*;
use vstd::bytes::spec_u32_to_le_bytes;
use parity_scale_codec::Encode;
use crate::scale::{encode_u32, scale_bool, scale_bytes};

verus! {

/// The identifier under which metadata is submitted.
pub const METADATA_ID: u32 = 1;

/// The SCALE encoding of the triple of a block's number, its hash and the
/// availability of its data: the four bytes of the number, the lowest first,
/// then the hash as a byte string, then the flag.
pub open spec fn scale_metadata(number: u32, hash: Seq<u8>, available: bool) -> Seq<u8> {
    spec_u32_to_le_bytes(number) + scale_bytes(hash) + scale_bool(available)
}

/// Calls `parity_scale_codec::Encode::encode` on the triple. Trusted to
/// return what [`scale_metadata`] states. The outside function panics on a
/// hash whose length does not fit 32 bits.
#[verifier::external_body]
fn encode_metadata(number: u32, hash: &Vec<u8>, available: bool) -> (bytes: Vec<u8>)
    requires
        hash@.len() <= u32::MAX,
    ensures
        bytes@ == scale_metadata(number, hash@, available),
{
    (number, hash, available).encode()
}

/// The lower-case hexadecimal digit of a value below 16.
pub open spec fn hex_char(value: int) -> char {
    if value < 10 {
        (0x30 + value) as char
    } else {
        (0x61 + value - 10) as char
    }
}

/// The lower-case hexadecimal text of `bytes`: two digits for each byte, the
/// high half first.
pub open spec fn hex_encoded(bytes: Seq<u8>) -> Seq<char> {
    Seq::new(
        2 * bytes.len(),
        |i: int|
            if i % 2 == 0 {
                hex_char(bytes[i / 2] as int / 16)
            } else {
                hex_char(bytes[i / 2] as int % 16)
            },
    )
}

/// Calls `hex::encode`. Trusted to return what [`hex_encoded`] states.
#[verifier::external_body]
fn hex_encode(bytes: &[u8]) -> (text: String)
    ensures
        text@ == hex_encoded(bytes@),
{
    hex::encode(bytes)
}

/// What the loop does after a step of one header.
#[derive(Debug)]
pub enum Next<T> {
    /// Go on with this header, with what the step gave.
    Proceed(T),
    /// Leave this header and wait for the next.
    Skip,
    /// End the loop.
    Stop,
}

/// Where an answer leads: a value lets the header go on, an absent value
/// skips the header, and an error ends the loop.
pub open spec fn next_of<T, E>(outcome: Result<Option<T>, E>) -> Next<T> {
    match outcome {
        Ok(Some(value)) => Next::Proceed(value),
        Ok(None) => Next::Skip,
        Err(_) => Next::Stop,
    }
}

/// The message that is signed and submitted for a block: the encoded
/// metadata, then the metadata identifier, then the nonce.
pub open spec fn attestation(number: u32, hash: Seq<u8>, available: bool, nonce: u32) -> Seq<u8> {
    scale_metadata(number, hash, available) + spec_u32_to_le_bytes(METADATA_ID)
        + spec_u32_to_le_bytes(nonce)
}

/// The state of the loop: the nonce of the next submission.
#[derive(Debug)]
pub struct Looper {
    nonce: u32,
}

impl Looper {
    /// The nonce of the next submission.
    pub closed spec fn spec_nonce(&self) -> u32 {
        self.nonce
    }

    /// A loop that has submitted nothing yet.
    pub fn new() -> (looper: Self)
        ensures
            looper.spec_nonce() == 0,
    {
        Looper { nonce: 0 }
    }

    /// The nonce of the next submission.
    pub fn nonce(&self) -> (nonce: u32)
        ensures
            nonce == self.spec_nonce(),
    {
        self.nonce
    }

    /// Decides on the answer to the latest-block request.
    pub fn after_latest_block<E>(&self, outcome: Result<Option<(u32, Vec<u8>)>, E>) -> (next: Next<
        (u32, Vec<u8>),
    >)
        ensures
            next == next_of(outcome),
    {
        match outcome {
            Ok(Some(block)) => Next::Proceed(block),
            Ok(None) => Next::Skip,
            Err(_) => Next::Stop,
        }
    }

    /// The hash to ask the availability of, as text.
    pub fn availability_query(&self, block_hash: &Vec<u8>) -> (text: String)
        ensures
            text@ == hex_encoded(block_hash@),
    {
        hex_encode(block_hash.as_slice())
    }

    /// Decides on the answer to the availability request.
    pub fn after_availability<E>(&self, outcome: Result<Option<bool>, E>) -> (next: Next<bool>)
        ensures
            next == next_of(outcome),
    {
        match outcome {
            Ok(Some(available)) => Next::Proceed(available),
            Ok(None) => Next::Skip,
            Err(_) => Next::Stop,
        }
    }

    /// The message to have signed and to submit for a block. The length of
    /// the hash has to fit 32 bits, the most that its encoding can express.
    pub fn message(&self, number: u32, hash: &Vec<u8>, available: bool) -> (message: Vec<u8>)
        requires
            hash@.len() <= u32::MAX,
        ensures
            message@ == attestation(number, hash@, available, self.spec_nonce()),
    {
        let mut message = encode_metadata(number, hash, available);
        let mut id = encode_u32(METADATA_ID);
        let mut nonce = encode_u32(self.nonce);
        message.append(&mut id);
        message.append(&mut nonce);
        message
    }

    /// Decides on the outcome of a submission: an accepted one moves to the
    /// next nonce and lets the loop wait for the next header, a rejected one
    /// ends the loop.
    pub fn after_submit(&mut self, accepted: bool) -> (next: Next<()>)
        requires
            accepted ==> old(self).spec_nonce() < u32::MAX,
        ensures
            accepted ==> next == Next::Proceed(()) && final(self).spec_nonce() == old(
                self,
            ).spec_nonce() + 1,
            !accepted ==> next == Next::<()>::Stop && final(self).spec_nonce() == old(
                self,
            ).spec_nonce(),
    {
        if accepted {
            self.nonce = self.nonce + 1;
            Next::Proceed(())
        } else {
            Next::Stop
        }
    }
}

/// The nonce is part of what is signed: for one block, messages under
/// different nonces differ.
pub proof fn lemma_nonce_is_signed(number: u32, hash: Seq<u8>, available: bool, a: u32, b: u32)
    requires
        attestation(number, hash, available, a) == attestation(number, hash, available, b),
    ensures
        a == b,
{
    vstd::bytes::lemma_auto_spec_u32_to_from_le_bytes();
    let head = scale_metadata(number, hash, available) + spec_u32_to_le_bytes(METADATA_ID);
    let with_a = attestation(number, hash, available, a);
    let with_b = attestation(number, hash, available, b);
    assert(with_a.subrange(head.len() as int, with_a.len() as int) =~= spec_u32_to_le_bytes(a));
    assert(with_b.subrange(head.len() as int, with_b.len() as int) =~= spec_u32_to_le_bytes(b));
}

} // verus!
