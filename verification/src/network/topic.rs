//! Gossip topics, addressed by name.

use vstd::prelude::*;

verus! {

/// The identifier that gossipsub derives from the name of a topic by
/// hashing it with SHA-256.
pub uninterp spec fn sha256_topic_hash(name: Seq<char>) -> Seq<char>;

/// Hashes `name` as `libp2p::gossipsub::Sha256Topic` does. Trusted to return
/// the identifier that [`sha256_topic_hash`] names.
#[verifier::external_body]
fn hash_name(name: &str) -> (hash: String)
    ensures
        hash@ == sha256_topic_hash(name@),
{
    libp2p::gossipsub::Sha256Topic::new(name).hash().into_string()
}

/// A gossip topic: the name it was made from, and the identifier under which
/// the network knows it.
#[derive(Debug)]
pub struct GossipTopic {
    name: String,
    hash: String,
}

impl GossipTopic {
    /// The name the topic was made from.
    pub closed spec fn spec_name(&self) -> Seq<char> {
        self.name@
    }

    /// The identifier of the topic.
    pub closed spec fn spec_hash(&self) -> Seq<char> {
        self.hash@
    }

    #[verifier::type_invariant]
    spec fn hashed(&self) -> bool {
        self.hash@ == sha256_topic_hash(self.name@)
    }

    /// The topic of the given name.
    pub fn new(topic_name: &str) -> (topic: Self)
        ensures
            topic.spec_name() == topic_name@,
            topic.spec_hash() == sha256_topic_hash(topic_name@),
    {
        GossipTopic { name: topic_name.to_string(), hash: hash_name(topic_name) }
    }

    /// The name the topic was made from.
    pub fn name(&self) -> (name: &str)
        ensures
            name@ == self.spec_name(),
    {
        self.name.as_str()
    }

    /// The identifier of the topic.
    pub fn hash(&self) -> (hash: &str)
        ensures
            hash@ == self.spec_hash(),
            hash@ == sha256_topic_hash(self.spec_name()),
    {
        proof {
            use_type_invariant(self);
        }
        self.hash.as_str()
    }
}

/// Topics made from the same name have the same identifier, whoever makes
/// them: nodes that agree on a name agree on the topic.
pub proof fn lemma_same_name_same_topic(a: Seq<char>, b: Seq<char>)
    requires
        a == b,
    ensures
        sha256_topic_hash(a) == sha256_topic_hash(b),
{
}

} // verus!
