//! The chain client's side: how a client is configured and which calls it
//! submits.

use vstd::prelude::*;
use crate::bytes::bytes_to_vec;
use crate::scale::{encode_bytes, scale_bytes};

verus! {

/// The endpoint that a client connects to when none is given.
pub const DEFAULT_URL: &'static str = "ws://127.0.0.1:9944";

/// The name of the pallet that takes the calls.
pub const TASK_PALLET: &'static str = "Task";

/// The settings from which a client is built: the endpoint, and the key `S`
/// that signs its transactions.
pub struct ClientBuilder<S> {
    pub url: String,
    pub signer: S,
}

impl<S> ClientBuilder<S> {
    /// A builder for the endpoint `url`.
    pub fn new(url: &str, signer: S) -> (builder: Self)
        ensures
            builder.url@ == url@,
            builder.signer == signer,
    {
        ClientBuilder { url: url.to_string(), signer }
    }

    /// A builder for the default endpoint.
    pub fn with_default_url(signer: S) -> (builder: Self)
        ensures
            builder.url@ == DEFAULT_URL@,
            builder.signer == signer,
    {
        ClientBuilder { url: DEFAULT_URL.to_string(), signer }
    }

    /// The same builder for another endpoint.
    pub fn set_url(self, url: &str) -> (builder: Self)
        ensures
            builder.url@ == url@,
            builder.signer == self.signer,
    {
        ClientBuilder { url: url.to_string(), signer: self.signer }
    }
}

/// A call that the client submits to the task pallet.
#[derive(Debug)]
pub enum Call {
    /// Register the first verifying key.
    NewKey { key: Vec<u8> },
    /// Submit signed metadata, as an encoded byte string, under an
    /// identifier and a nonce.
    NewMetadata { id: u32, nonce: u32, metadata: Vec<u8>, signature: Vec<u8> },
    /// Replace the verifying key, signed with the previous one.
    RotateKey { key: Vec<u8>, signature: Vec<u8> },
}

impl Call {
    /// The name of the call in the pallet.
    pub open spec fn spec_name(self) -> Seq<char> {
        match self {
            Call::NewKey { .. } => "new_key"@,
            Call::NewMetadata { .. } => "new_metadata"@,
            Call::RotateKey { .. } => "rotate_key"@,
        }
    }

    /// The name of the call in the pallet.
    pub fn name(&self) -> (name: &'static str)
        ensures
            name@ == self.spec_name(),
    {
        match self {
            Call::NewKey { .. } => "new_key",
            Call::NewMetadata { .. } => "new_metadata",
            Call::RotateKey { .. } => "rotate_key",
        }
    }

    /// The call that registers `key`.
    pub fn new_key(key: &[u8]) -> (call: Call)
        ensures
            call matches Call::NewKey { key: k } && k@ == key@,
    {
        Call::NewKey { key: bytes_to_vec(key) }
    }

    /// The call that submits `metadata` with its signature. The metadata goes
    /// into the call as an encoded byte string: its compact length, then the
    /// bytes. Its length has to fit 32 bits, the most that the encoding can
    /// express.
    pub fn submit_metadata(metadata: &[u8], id: u32, nonce: u32, sign: &[u8]) -> (call: Call)
        requires
            metadata@.len() <= u32::MAX,
        ensures
            call matches Call::NewMetadata { id: i, nonce: n, metadata: m, signature: s } && i == id
                && n == nonce && m@ == scale_bytes(metadata@) && s@ == sign@,
    {
        Call::NewMetadata {
            id,
            nonce,
            metadata: encode_bytes(metadata),
            signature: bytes_to_vec(sign),
        }
    }

    /// The call that replaces the verifying key by `key`.
    pub fn rotate_key(key: &[u8], sign: &[u8]) -> (call: Call)
        ensures
            call matches Call::RotateKey { key: k, signature: s } && k@ == key@ && s@ == sign@,
    {
        Call::RotateKey { key: bytes_to_vec(key), signature: bytes_to_vec(sign) }
    }
}

} // verus!
