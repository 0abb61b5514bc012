//! The requests that a node can make of its network worker.

use vstd::prelude::*;
use crate::network::cache::{AddrCache, CacheView};
use crate::network::identity::{Address, PeerId, ValidatorId};
use crate::network::topic::{sha256_topic_hash, GossipTopic};

verus! {

/// A request to the network worker. `R` is the handle through which the
/// reply is sent; a command without one is not answered.
#[derive(Debug)]
pub enum Command<R> {
    /// Bind a listener to `addr`.
    StartListening { addr: Address, sender: R },
    /// Add `peer_addr` to the routing table as an address of `peer_id`.
    AddAddress { peer_id: PeerId, peer_addr: Address, sender: R },
    /// Stop treating `peer_id` as explicitly dialed.
    RemoveExplicitPeer { peer_id: PeerId, sender: R },
    /// Register validators for discovery and topic membership.
    NewValidators { validators: Vec<ValidatorId> },
    /// Deregister validators.
    RemoveValidators { validators: Vec<ValidatorId> },
    /// Open a gossip topic and hand back its message stream.
    Subscribe { topic: GossipTopic, result_sender: R },
    /// Broadcast `message` on a gossip topic.
    Publish { topic: GossipTopic, message: Vec<u8>, sender: R },
}

/// The caller's side of the network worker: it turns each operation into the
/// command that is sent to the worker.
#[derive(Clone, Copy, Debug)]
pub struct Service;

impl Service {
    /// A handle on the network worker.
    pub fn new() -> Self {
        Service
    }

    /// The command that starts listening on `addr`.
    pub fn start_listening<R>(&self, addr: Address, sender: R) -> (command: Command<R>)
        ensures
            command == (Command::StartListening { addr, sender }),
    {
        Command::StartListening { addr, sender }
    }

    /// The command that adds an address for a peer.
    pub fn add_address<R>(&self, peer_id: PeerId, peer_addr: Address, sender: R) -> (command:
        Command<R>)
        ensures
            command == (Command::AddAddress { peer_id, peer_addr, sender }),
    {
        Command::AddAddress { peer_id, peer_addr, sender }
    }

    /// The command that removes an explicitly added peer.
    pub fn remove_explicit_peer<R>(&self, peer_id: PeerId, sender: R) -> (command: Command<R>)
        ensures
            command == (Command::RemoveExplicitPeer { peer_id, sender }),
    {
        Command::RemoveExplicitPeer { peer_id, sender }
    }

    /// The command that informs the worker of new validators. It has no
    /// reply.
    pub fn new_validators<R>(&self, validators: Vec<ValidatorId>) -> (command: Command<R>)
        ensures
            command == (Command::<R>::NewValidators { validators }),
    {
        Command::NewValidators { validators }
    }

    /// The command that removes validators from the worker's awareness. It
    /// has no reply.
    pub fn remove_validators<R>(&self, validators: Vec<ValidatorId>) -> (command: Command<R>)
        ensures
            command == (Command::<R>::RemoveValidators { validators }),
    {
        Command::RemoveValidators { validators }
    }

    /// The command that subscribes to the topic named `topic_name`.
    pub fn subscribe<R>(&self, topic_name: &str, result_sender: R) -> (command: Command<R>)
        ensures
            command matches Command::Subscribe { topic, result_sender: handle },
            command->Subscribe_topic.spec_name() == topic_name@,
            command->Subscribe_topic.spec_hash() == sha256_topic_hash(topic_name@),
            command->result_sender == result_sender,
    {
        Command::Subscribe { topic: GossipTopic::new(topic_name), result_sender }
    }

    /// The command that publishes `message` on the topic named `topic_name`.
    pub fn publish<R>(&self, topic_name: &str, message: Vec<u8>, sender: R) -> (command: Command<
        R,
    >)
        ensures
            command matches Command::Publish { topic, message: payload, sender: handle },
            command->Publish_topic.spec_name() == topic_name@,
            command->Publish_topic.spec_hash() == sha256_topic_hash(topic_name@),
            command->message == message,
            command->Publish_sender == sender,
    {
        Command::Publish { topic: GossipTopic::new(topic_name), message, sender }
    }
}

/// The settings of the validator network, fixed when the service is built.
/// `K` is the handle on the node's keystore.
pub struct ValidatorNetworkConfig<K> {
    /// The IP address to listen on.
    pub listen_addr: String,
    /// The port to listen on.
    pub listen_port: u16,
    /// The bootstrap nodes to connect to.
    pub bootstrap_nodes: Vec<String>,
    /// How often a connection is retried.
    pub max_retries: usize,
    /// The delay between two retries, in seconds.
    pub retry_delay: u64,
    /// The time allowed for bootstrapping, in seconds.
    pub bootstrap_timeout: u64,
    /// How many connections are attempted in parallel.
    pub parallel_limit: usize,
    /// The keystore of the node, if it has one.
    pub key_ptr: Option<K>,
    /// The address cache to start from.
    pub address_cache: AddrCache,
}

impl<K> Default for ValidatorNetworkConfig<K> {
    fn default() -> (config: Self)
        ensures
            config.listen_addr@ == "0.0.0.0"@,
            config.listen_port == 4422,
            config.bootstrap_nodes@.len() == 0,
            config.max_retries == 3,
            config.retry_delay == 5,
            config.bootstrap_timeout == 60,
            config.parallel_limit == 10,
            config.key_ptr is None,
            config.address_cache@ == CacheView::empty(),
    {
        ValidatorNetworkConfig {
            listen_addr: "0.0.0.0".to_string(),
            listen_port: 4422,
            bootstrap_nodes: Vec::new(),
            max_retries: 3,
            retry_delay: 5,
            bootstrap_timeout: 60,
            parallel_limit: 10,
            key_ptr: None,
            address_cache: AddrCache::new(),
        }
    }
}

} // verus!
