use libp2p::multiaddr::Protocol;
use libp2p::{Multiaddr, PeerId as NetPeerId};
use rc_validator::network::address::{addresses_to_peer_ids, peer_id_from_multiaddr};
use rc_validator::network::cache::AddrCache;
use rc_validator::network::identity::{Address, PeerId, ValidatorId};

fn net_peer(tag: u8) -> NetPeerId {
    NetPeerId::from_bytes(&[0x00, 0x04, tag, tag, tag, tag]).expect("an identity multihash")
}

fn base(port: u16) -> Multiaddr {
    Multiaddr::empty().with(Protocol::Dns("node.example".into())).with(Protocol::Tcp(port))
}

fn with_peer(port: u16, tag: u8) -> Address {
    Address::new(base(port).with(Protocol::P2p(net_peer(tag))).to_vec())
}

fn without_peer(port: u16) -> Address {
    Address::new(base(port).to_vec())
}

fn validator(tag: u8) -> ValidatorId {
    ValidatorId::new([tag; 32])
}

fn sorted(peers: Vec<PeerId>) -> Vec<Vec<u8>> {
    let mut out: Vec<Vec<u8>> = peers.into_iter().map(|p| p.bytes).collect();
    out.sort();
    out
}

fn sorted_validators(ids: Vec<ValidatorId>) -> Vec<[u8; 32]> {
    let mut out: Vec<[u8; 32]> = ids.into_iter().map(|v| v.bytes).collect();
    out.sort();
    out
}

#[test]
fn peer_is_taken_from_the_last_component() {
    let peer = peer_id_from_multiaddr(&with_peer(30333, 7)).expect("a peer");
    assert_eq!(peer.bytes, net_peer(7).to_bytes());
    assert_eq!(peer.bytes, vec![0x00, 0x04, 7, 7, 7, 7]);
}

#[test]
fn address_without_peer_suffix_gives_no_peer() {
    assert!(peer_id_from_multiaddr(&without_peer(30333)).is_none());
}

#[test]
fn peer_in_the_middle_is_not_the_suffix() {
    let addr = base(1).with(Protocol::P2p(net_peer(3))).with(Protocol::P2pCircuit);
    assert!(peer_id_from_multiaddr(&Address::new(addr.to_vec())).is_none());
}

#[test]
fn empty_and_malformed_addresses_give_no_peer() {
    assert!(peer_id_from_multiaddr(&Address::new(Vec::new())).is_none());
    assert!(peer_id_from_multiaddr(&Address::new(vec![0xff, 0xff, 0xff])).is_none());
    assert!(peer_id_from_multiaddr(&Address::new(vec![0x06, 0x01])).is_none());
}

#[test]
fn peers_of_a_list_are_listed_once() {
    let addrs = vec![with_peer(1, 1), with_peer(2, 1), without_peer(3), with_peer(4, 2)];
    let peers = sorted(addresses_to_peer_ids(&addrs));
    assert_eq!(peers, vec![net_peer(1).to_bytes(), net_peer(2).to_bytes()]);
}

#[test]
fn new_cache_knows_nobody() {
    let cache = AddrCache::new();
    assert!(cache.validator_addresses(&validator(1)).is_none());
    assert!(cache.peer_validators(&PeerId::new(net_peer(1).to_bytes())).is_none());
}

#[test]
fn lookup_after_add_gives_the_peers_of_the_addresses() {
    let mut cache = AddrCache::new();
    cache.add_validator(validator(1), vec![with_peer(1, 1), without_peer(2), with_peer(3, 2)]);
    let peers = sorted(cache.validator_addresses(&validator(1)).expect("known"));
    assert_eq!(peers, vec![net_peer(1).to_bytes(), net_peer(2).to_bytes()]);
    assert!(cache.validator_addresses(&validator(2)).is_none());
}

#[test]
fn validator_with_only_bare_addresses_is_known_with_no_peers() {
    let mut cache = AddrCache::new();
    cache.add_validator(validator(1), vec![without_peer(2)]);
    assert_eq!(cache.validator_addresses(&validator(1)).expect("known").len(), 0);
}

#[test]
fn repeated_addresses_count_once() {
    let mut cache = AddrCache::new();
    cache.add_validator(validator(1), vec![with_peer(1, 1), with_peer(1, 1)]);
    assert_eq!(cache.validator_addresses(&validator(1)).expect("known").len(), 1);
    let behind = cache.peer_validators(&PeerId::new(net_peer(1).to_bytes())).expect("seen");
    assert_eq!(sorted_validators(behind), vec![[1u8; 32]]);
}

#[test]
fn update_replaces_addresses_and_keeps_stale_peer_records() {
    let mut cache = AddrCache::new();
    cache.add_validator(validator(1), vec![with_peer(1, 1), with_peer(2, 2)]);
    cache.add_validator(validator(1), vec![with_peer(1, 1)]);
    let peers = sorted(cache.validator_addresses(&validator(1)).expect("known"));
    assert_eq!(peers, vec![net_peer(1).to_bytes()]);
    let stale = cache.peer_validators(&PeerId::new(net_peer(2).to_bytes())).expect("seen");
    assert_eq!(sorted_validators(stale), vec![[1u8; 32]]);
}

#[test]
fn peer_shared_by_two_validators_lists_both() {
    let mut cache = AddrCache::new();
    cache.add_validator(validator(1), vec![with_peer(1, 9)]);
    cache.add_validator(validator(2), vec![with_peer(2, 9)]);
    let behind = cache.peer_validators(&PeerId::new(net_peer(9).to_bytes())).expect("seen");
    assert_eq!(sorted_validators(behind), vec![[1u8; 32], [2u8; 32]]);
}

#[test]
fn peer_already_reachable_is_not_recorded_again_on_update() {
    let mut cache = AddrCache::new();
    cache.add_validator(validator(1), vec![with_peer(1, 1)]);
    cache.add_validator(validator(1), vec![with_peer(5, 1), with_peer(6, 3)]);
    let first = cache.peer_validators(&PeerId::new(net_peer(1).to_bytes())).expect("seen");
    assert_eq!(sorted_validators(first), vec![[1u8; 32]]);
    let third = cache.peer_validators(&PeerId::new(net_peer(3).to_bytes())).expect("seen");
    assert_eq!(sorted_validators(third), vec![[1u8; 32]]);
}
