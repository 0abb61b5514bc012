//! From network addresses to the peers that they lead to.

use vstd::prelude::*;
use crate::network::identity::{
    distinct, id_set, insert_once, lemma_id_set_empty, lemma_id_set_push, Address, PeerId,
};

verus! {

/// What the components of a multiaddr say about peers. For the multiaddr that
/// `address` encodes, one entry per component, in order: the peer identity that
/// the component carries if it is a `/p2p` component, nothing for any other.
/// `None` where `address` does not encode a multiaddr.
pub uninterp spec fn multiaddr_components(address: Seq<u8>) -> Option<Seq<Option<Seq<u8>>>>;

/// The byte strings behind a list of optional peer identities.
pub open spec fn component_views(parts: Seq<Option<PeerId>>) -> Seq<Option<Seq<u8>>> {
    Seq::new(
        parts.len(),
        |i: int|
            match parts[i] {
                Some(peer) => Some(peer@),
                None => None,
            },
    )
}

/// Walks `libp2p::Multiaddr::iter` over `address`. Trusted to return what
/// [`multiaddr_components`] names: `None` exactly where
/// `Multiaddr::try_from` rejects the bytes, else one entry per component,
/// holding `PeerId::to_bytes` of a `Protocol::P2p` component and nothing for
/// the other protocols.
#[verifier::external_body]
fn components(address: &Address) -> (parts: Option<Vec<Option<PeerId>>>)
    ensures
        match parts {
            Some(list) => multiaddr_components(address@) == Some(component_views(list@)),
            None => multiaddr_components(address@) is None,
        },
{
    let addr = libp2p::Multiaddr::try_from(address.bytes.clone()).ok()?;
    let mut parts = Vec::new();
    for protocol in addr.iter() {
        parts.push(
            match protocol {
                libp2p::multiaddr::Protocol::P2p(peer) => Some(PeerId { bytes: peer.to_bytes() }),
                _ => None,
            },
        );
    }
    Some(parts)
}

/// The peer that an address leads to: the identity carried by its last
/// component, where that component is a `/p2p` one.
pub open spec fn peer_of(address: Seq<u8>) -> Option<Seq<u8>> {
    match multiaddr_components(address) {
        Some(parts) => if parts.len() > 0 {
            parts.last()
        } else {
            None
        },
        None => None,
    }
}

/// The byte string behind an optional peer identity.
pub open spec fn peer_view(peer: Option<PeerId>) -> Option<Seq<u8>> {
    match peer {
        Some(p) => Some(p@),
        None => None,
    }
}

/// Extracts the peer identity from the last component of `addr`, if that
/// component names a peer.
pub fn peer_id_from_multiaddr(addr: &Address) -> (peer: Option<PeerId>)
    ensures
        peer_view(peer) == peer_of(addr@),
{
    match components(addr) {
        Some(mut parts) => {
            let ghost all = component_views(parts@);
            match parts.pop() {
                Some(last) => {
                    assert(peer_view(last) == all.last());
                    last
                },
                None => None,
            }
        },
        None => None,
    }
}

/// The peers that a set of addresses leads to: every identity carried by the
/// last component of one of them.
pub open spec fn peers_of(addresses: Set<Seq<u8>>) -> Set<Seq<u8>> {
    Set::new(
        |peer: Seq<u8>|
            exists|address: Seq<u8>|
                addresses.contains(address) && #[trigger] peer_of(address) == Some(peer),
    )
}

/// No address leads anywhere from the empty set, and one more address adds the
/// peer it leads to, if any.
pub proof fn lemma_peers_of_insert(addresses: Set<Seq<u8>>, address: Seq<u8>)
    ensures
        peers_of(Set::empty()) == Set::<Seq<u8>>::empty(),
        peers_of(addresses.insert(address)) == match peer_of(address) {
            Some(peer) => peers_of(addresses).insert(peer),
            None => peers_of(addresses),
        },
{
    assert(peers_of(Set::empty()) =~= Set::<Seq<u8>>::empty());
    let grown = peers_of(addresses.insert(address));
    let expected = match peer_of(address) {
        Some(peer) => peers_of(addresses).insert(peer),
        None => peers_of(addresses),
    };
    assert forall|peer: Seq<u8>| grown.contains(peer) <==> expected.contains(peer) by {
        if grown.contains(peer) {
            let a = choose|a: Seq<u8>|
                addresses.insert(address).contains(a) && #[trigger] peer_of(a) == Some(peer);
            if a != address {
                assert(addresses.contains(a));
            }
        }
        if peers_of(addresses).contains(peer) {
            let a = choose|a: Seq<u8>|
                addresses.contains(a) && #[trigger] peer_of(a) == Some(peer);
            assert(addresses.insert(address).contains(a));
        }
        if peer_of(address) == Some(peer) {
            assert(addresses.insert(address).contains(address));
        }
    }
    assert(grown =~= expected);
}

/// The peers that a list of addresses leads to, each once.
pub fn addresses_to_peer_ids(addresses: &Vec<Address>) -> (peers: Vec<PeerId>)
    ensures
        distinct(peers@),
        id_set(peers@) == peers_of(id_set(addresses@)),
{
    let mut peers: Vec<PeerId> = Vec::new();
    let mut i: usize = 0;
    proof {
        lemma_id_set_empty::<PeerId>();
        lemma_id_set_empty::<Address>();
        lemma_peers_of_insert(Set::empty(), Seq::empty());
        assert(addresses@.subrange(0, 0) =~= Seq::<Address>::empty());
    }
    while i < addresses.len()
        invariant
            i <= addresses.len(),
            distinct(peers@),
            id_set(peers@) == peers_of(id_set(addresses@.subrange(0, i as int))),
        decreases addresses.len() - i,
    {
        proof {
            let seen = addresses@.subrange(0, i as int);
            lemma_id_set_push(seen, addresses@[i as int]);
            assert(seen.push(addresses@[i as int]) =~= addresses@.subrange(0, i + 1));
            lemma_peers_of_insert(id_set(seen), addresses@[i as int]@);
        }
        match peer_id_from_multiaddr(&addresses[i]) {
            Some(peer) => {
                insert_once(&mut peers, peer);
            },
            None => {},
        }
        i = i + 1;
    }
    assert(addresses@.subrange(0, addresses.len() as int) =~= addresses@);
    peers
}

} // verus!
