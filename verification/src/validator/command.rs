//! What a worker is told, and what it asks to have done.

use vstd::prelude::*;
use crate::network::identity::ValidatorId;

verus! {

/// The name of the gossip topic that carries key-generation messages.
pub const DKG_TOPIC: &'static str = "dkg_topic";

/// The name of the gossip topic that carries signing messages.
pub const SIGN_TOPIC: &'static str = "sign_topic";

/// The gossip topic of one of the two protocols.
#[derive(Clone, Copy, Debug, PartialEq, Eq, Structural)]
pub enum Topic {
    /// Key generation.
    Dkg,
    /// Signing.
    Sign,
}

impl Topic {
    /// The well-known name that all nodes derive the topic from.
    pub open spec fn spec_name(self) -> Seq<char> {
        match self {
            Topic::Dkg => DKG_TOPIC@,
            Topic::Sign => SIGN_TOPIC@,
        }
    }

    /// The well-known name that all nodes derive the topic from.
    pub fn name(self) -> (name: &'static str)
        ensures
            name@ == self.spec_name(),
    {
        match self {
            Topic::Dkg => DKG_TOPIC,
            Topic::Sign => SIGN_TOPIC,
        }
    }
}

/// A request of a caller. `R` is the handle through which the reply is sent;
/// each command carries the handle of its own reply.
#[derive(Debug)]
pub enum Command<R> {
    /// Generate a new shared key.
    RotateKey { sender: R },
    /// Sign `message` with the shared key.
    Sign { message: Vec<u8>, sender: R },
    /// Configure the round: `nt` is handed to the engine as it stands.
    Setup { nt: (u16, u16), sender: R },
    /// Deregister validators with the network.
    RemoveValidators { validators: Vec<ValidatorId>, sender: R },
    /// Register validators with the network.
    AddValidators { validators: Vec<ValidatorId>, sender: R },
}

/// Why a request was answered with an error.
#[derive(Debug)]
pub enum Failure {
    /// A signing request is already pending.
    Busy,
    /// The protocol engine rejected a message of the round.
    Protocol(String),
}

impl Failure {
    /// The text of the error.
    pub open spec fn spec_message(self) -> Seq<char> {
        match self {
            Failure::Busy => "Another sign request is in progress"@,
            Failure::Protocol(reason) => reason@,
        }
    }

    /// The text of the error.
    pub fn message(&self) -> (text: String)
        ensures
            text@ == self.spec_message(),
    {
        match self {
            Failure::Busy => "Another sign request is in progress".to_string(),
            Failure::Protocol(reason) => reason.clone(),
        }
    }
}

/// A message of the engine on its way out: its wire form, or the reason why
/// it has none.
#[derive(Debug)]
pub enum Outgoing {
    Encoded(Vec<u8>),
    Unencodable(String),
}

/// What the engine made of a request to start a round or of a first-phase
/// message.
#[derive(Debug)]
pub enum Advance {
    /// It produced the next message of the round.
    Produced(Outgoing),
    /// It refused, for the reason given.
    Refused(String),
}

/// What the engine made of a second-phase key-generation message.
#[derive(Debug)]
pub enum KeyRound {
    /// The round is complete and yields this verifying key.
    Completed(Vec<u8>),
    /// The round goes on with another message.
    Continues(Outgoing),
    /// The round failed.
    Failed(String),
}

/// What the engine made of a second-phase signing message.
#[derive(Debug)]
pub enum SignatureRound {
    /// The round is complete and yields this signature.
    Completed(Vec<u8>),
    /// The round goes on; there is nothing to send.
    Continues,
    /// The round failed.
    Failed(String),
}

/// A payload received on the key-generation topic, after decoding and after
/// the engine has seen it.
#[derive(Debug)]
pub enum DkgMessage {
    /// The payload could not be decoded; the engine never saw it.
    Malformed,
    /// A first-phase message, and what the engine made of it.
    Part1(Advance),
    /// A second-phase message, and what the engine made of it.
    Part2(KeyRound),
}

/// A payload received on the signing topic, after decoding and after the
/// engine has seen it.
#[derive(Debug)]
pub enum SignMessage {
    /// The payload could not be decoded; the engine never saw it.
    Malformed,
    /// A first-phase message: what the engine made of it, and the message
    /// itself in wire form again.
    Part1 { advanced: Advance, echo: Outgoing },
    /// A second-phase message, and what the engine made of it.
    Part2(SignatureRound),
}

/// One thing that happens to a worker.
#[derive(Debug)]
pub enum Event<R> {
    /// A caller's request arrived.
    Command(Command<R>),
    /// The engine was asked to start key generation, as the worker requested.
    DkgStarted(Advance),
    /// The engine was asked to start signing, as the worker requested.
    SignStarted(Advance),
    /// A payload arrived on the key-generation topic.
    Dkg(DkgMessage),
    /// A payload arrived on the signing topic.
    Sign(SignMessage),
}

/// One thing that a worker asks its owner to do.
#[derive(Debug)]
pub enum Action<R> {
    /// Ask the engine to start key generation and report back with
    /// [`Event::DkgStarted`].
    StartDkg,
    /// Ask the engine to start signing `message` and report back with
    /// [`Event::SignStarted`].
    StartSign { message: Vec<u8> },
    /// Publish `message` on `topic`.
    Publish { topic: Topic, message: Vec<u8> },
    /// Answer a key-rotation request.
    DeliverKey { sender: R, result: Result<Vec<u8>, Failure> },
    /// Answer a signing request.
    DeliverSignature { sender: R, result: Result<Vec<u8>, Failure> },
    /// Configure the engine with `nt` and answer with its result.
    Setup { nt: (u16, u16), sender: R },
    /// Deregister `validators` with the network and answer with its result.
    RemoveValidators { validators: Vec<ValidatorId>, sender: R },
    /// Register `validators` with the network and answer with its result.
    AddValidators { validators: Vec<ValidatorId>, sender: R },
}

} // verus!
