//! The discovery cache: which addresses a validator published, and which
//! validators were seen behind a peer.

use vstd::prelude::*;
use crate::network::address::{addresses_to_peer_ids, lemma_peers_of_insert, peer_of, peers_of};
use crate::network::identity::{
    distinct, holds, id_set, insert_once, lemma_id_set_empty, lemma_id_set_push, unique, Address,
    Identity, PeerId, ValidatorId,
};

verus! {

/// What a cache holds, as two maps over byte strings: for each known
/// validator the set of its addresses, and for each peer that was seen the set
/// of validators that were reachable through it.
pub struct CacheView {
    pub addresses: Map<Seq<u8>, Set<Seq<u8>>>,
    pub validators: Map<Seq<u8>, Set<Seq<u8>>>,
}

impl CacheView {
    /// The cache that holds nothing.
    pub open spec fn empty() -> CacheView {
        CacheView { addresses: Map::empty(), validators: Map::empty() }
    }

    /// The peers that `validator` is reachable through: those that its
    /// current addresses lead to, or none when it is unknown.
    pub open spec fn peers_for(self, validator: Seq<u8>) -> Set<Seq<u8>> {
        if self.addresses.dom().contains(validator) {
            peers_of(self.addresses[validator])
        } else {
            Set::empty()
        }
    }

    /// The validators recorded behind `peer`, or none when it was never seen.
    pub open spec fn validators_of(self, peer: Seq<u8>) -> Set<Seq<u8>> {
        if self.validators.dom().contains(peer) {
            self.validators[peer]
        } else {
            Set::empty()
        }
    }

    /// The peers that an update of `validator` to `addresses` brings in: those
    /// the new addresses lead to and the previous ones did not.
    pub open spec fn fresh_peers(self, validator: Seq<u8>, addresses: Set<Seq<u8>>) -> Set<
        Seq<u8>,
    > {
        peers_of(addresses).difference(self.peers_for(validator))
    }

    /// The cache after `validator` published `addresses`. Its address set is
    /// replaced. It is recorded behind every peer the update brings in, and no
    /// record behind any peer is removed.
    pub open spec fn add_validator(self, validator: Seq<u8>, addresses: Set<Seq<u8>>) -> CacheView {
        let fresh = self.fresh_peers(validator, addresses);
        CacheView {
            addresses: self.addresses.insert(validator, addresses),
            validators: Map::new(
                |peer: Seq<u8>| self.validators.dom().contains(peer) || fresh.contains(peer),
                |peer: Seq<u8>|
                    if fresh.contains(peer) {
                        self.validators_of(peer).insert(validator)
                    } else {
                        self.validators[peer]
                    },
            ),
        }
    }

    /// The peers currently reachable for `validator`, or `None` when it is
    /// unknown.
    pub open spec fn validator_addresses(self, validator: Seq<u8>) -> Option<Set<Seq<u8>>> {
        if self.addresses.dom().contains(validator) {
            Some(peers_of(self.addresses[validator]))
        } else {
            None
        }
    }
}

/// The addresses that one validator published.
#[derive(Debug)]
struct Published {
    validator: ValidatorId,
    addresses: Vec<Address>,
}

/// The validators that were seen behind one peer.
#[derive(Debug)]
struct Seen {
    peer: PeerId,
    validators: Vec<ValidatorId>,
}

spec fn published_at(entries: Seq<Published>, validator: Seq<u8>) -> int {
    choose|i: int| 0 <= i < entries.len() && (#[trigger] entries[i]).validator@ == validator
}

spec fn published_known(entries: Seq<Published>, validator: Seq<u8>) -> bool {
    exists|i: int| 0 <= i < entries.len() && (#[trigger] entries[i]).validator@ == validator
}

spec fn published_map(entries: Seq<Published>) -> Map<Seq<u8>, Set<Seq<u8>>> {
    Map::new(
        |validator: Seq<u8>| published_known(entries, validator),
        |validator: Seq<u8>| id_set(entries[published_at(entries, validator)].addresses@),
    )
}

spec fn published_ok(entries: Seq<Published>) -> bool {
    &&& forall|i: int, j: int|
        0 <= i < j < entries.len() ==> (#[trigger] entries[i]).validator@ != (
        #[trigger] entries[j]).validator@
    &&& forall|i: int| 0 <= i < entries.len() ==> distinct((#[trigger] entries[i]).addresses@)
}

spec fn seen_at(entries: Seq<Seen>, peer: Seq<u8>) -> int {
    choose|i: int| 0 <= i < entries.len() && (#[trigger] entries[i]).peer@ == peer
}

spec fn seen_known(entries: Seq<Seen>, peer: Seq<u8>) -> bool {
    exists|i: int| 0 <= i < entries.len() && (#[trigger] entries[i]).peer@ == peer
}

spec fn seen_map(entries: Seq<Seen>) -> Map<Seq<u8>, Set<Seq<u8>>> {
    Map::new(
        |peer: Seq<u8>| seen_known(entries, peer),
        |peer: Seq<u8>| id_set(entries[seen_at(entries, peer)].validators@),
    )
}

spec fn seen_ok(entries: Seq<Seen>) -> bool {
    &&& forall|i: int, j: int|
        0 <= i < j < entries.len() ==> (#[trigger] entries[i]).peer@ != (#[trigger] entries[j]).peer@
    &&& forall|i: int| 0 <= i < entries.len() ==> distinct((#[trigger] entries[i]).validators@)
}

proof fn lemma_published_replace(entries: Seq<Published>, at: int, entry: Published)
    requires
        published_ok(entries),
        0 <= at < entries.len(),
        entries[at].validator@ == entry.validator@,
        distinct(entry.addresses@),
    ensures
        published_ok(entries.update(at, entry)),
        published_map(entries.update(at, entry)) == published_map(entries).insert(
            entry.validator@,
            id_set(entry.addresses@),
        ),
{
    let after = entries.update(at, entry);
    let want = published_map(entries).insert(entry.validator@, id_set(entry.addresses@));
    assert forall|v: Seq<u8>| published_known(after, v) <==> want.dom().contains(v) by {
        if published_known(after, v) {
            let i = published_at(after, v);
            assert(entries[i].validator@ == v);
        }
        if published_known(entries, v) {
            let i = published_at(entries, v);
            assert(after[i].validator@ == v);
        }
        if v == entry.validator@ {
            assert(after[at].validator@ == v);
        }
    }
    assert forall|v: Seq<u8>| published_known(after, v) implies published_map(after)[v] == want[v] by {
        let i = published_at(after, v);
        if v == entry.validator@ {
            assert(after[at].validator@ == v);
            assert(i == at);
        } else {
            assert(entries[i].validator@ == v);
            let k = published_at(entries, v);
            assert(k == i);
        }
    }
    assert(published_map(after) =~= want);
}

proof fn lemma_published_push(entries: Seq<Published>, entry: Published)
    requires
        published_ok(entries),
        !published_known(entries, entry.validator@),
        distinct(entry.addresses@),
    ensures
        published_ok(entries.push(entry)),
        published_map(entries.push(entry)) == published_map(entries).insert(
            entry.validator@,
            id_set(entry.addresses@),
        ),
{
    let after = entries.push(entry);
    let last = entries.len() as int;
    let want = published_map(entries).insert(entry.validator@, id_set(entry.addresses@));
    assert forall|v: Seq<u8>| published_known(after, v) <==> want.dom().contains(v) by {
        if published_known(after, v) {
            let i = published_at(after, v);
            if i < last {
                assert(entries[i].validator@ == v);
            }
        }
        if published_known(entries, v) {
            let i = published_at(entries, v);
            assert(after[i].validator@ == v);
        }
        if v == entry.validator@ {
            assert(after[last].validator@ == v);
        }
    }
    assert forall|v: Seq<u8>| published_known(after, v) implies published_map(after)[v] == want[v] by {
        let i = published_at(after, v);
        if v == entry.validator@ {
            assert(after[last].validator@ == v);
            if i < last {
                assert(entries[i].validator@ == v);
            }
        } else {
            assert(entries[i].validator@ == v);
            let k = published_at(entries, v);
            assert(k == i);
        }
    }
    assert(published_map(after) =~= want);
}

proof fn lemma_seen_replace(entries: Seq<Seen>, at: int, entry: Seen)
    requires
        seen_ok(entries),
        0 <= at < entries.len(),
        entries[at].peer@ == entry.peer@,
        distinct(entry.validators@),
    ensures
        seen_ok(entries.update(at, entry)),
        seen_map(entries.update(at, entry)) == seen_map(entries).insert(
            entry.peer@,
            id_set(entry.validators@),
        ),
{
    let after = entries.update(at, entry);
    let want = seen_map(entries).insert(entry.peer@, id_set(entry.validators@));
    assert forall|p: Seq<u8>| seen_known(after, p) <==> want.dom().contains(p) by {
        if seen_known(after, p) {
            let i = seen_at(after, p);
            assert(entries[i].peer@ == p);
        }
        if seen_known(entries, p) {
            let i = seen_at(entries, p);
            assert(after[i].peer@ == p);
        }
        if p == entry.peer@ {
            assert(after[at].peer@ == p);
        }
    }
    assert forall|p: Seq<u8>| seen_known(after, p) implies seen_map(after)[p] == want[p] by {
        let i = seen_at(after, p);
        if p == entry.peer@ {
            assert(after[at].peer@ == p);
            assert(i == at);
        } else {
            assert(entries[i].peer@ == p);
            let k = seen_at(entries, p);
            assert(k == i);
        }
    }
    assert(seen_map(after) =~= want);
}

proof fn lemma_seen_push(entries: Seq<Seen>, entry: Seen)
    requires
        seen_ok(entries),
        !seen_known(entries, entry.peer@),
        distinct(entry.validators@),
    ensures
        seen_ok(entries.push(entry)),
        seen_map(entries.push(entry)) == seen_map(entries).insert(
            entry.peer@,
            id_set(entry.validators@),
        ),
{
    let after = entries.push(entry);
    let last = entries.len() as int;
    let want = seen_map(entries).insert(entry.peer@, id_set(entry.validators@));
    assert forall|p: Seq<u8>| seen_known(after, p) <==> want.dom().contains(p) by {
        if seen_known(after, p) {
            let i = seen_at(after, p);
            if i < last {
                assert(entries[i].peer@ == p);
            }
        }
        if seen_known(entries, p) {
            let i = seen_at(entries, p);
            assert(after[i].peer@ == p);
        }
        if p == entry.peer@ {
            assert(after[last].peer@ == p);
        }
    }
    assert forall|p: Seq<u8>| seen_known(after, p) implies seen_map(after)[p] == want[p] by {
        let i = seen_at(after, p);
        if p == entry.peer@ {
            assert(after[last].peer@ == p);
            if i < last {
                assert(entries[i].peer@ == p);
            }
        } else {
            assert(entries[i].peer@ == p);
            let k = seen_at(entries, p);
            assert(k == i);
        }
    }
    assert(seen_map(after) =~= want);
}

/// A cache of validator addresses and of the peers behind them.
///
/// Both indexes are lists in which no validator, peer or address occurs twice.
#[derive(Debug)]
pub struct AddrCache {
    authority_id_to_addresses: Vec<Published>,
    peer_id_to_authority_ids: Vec<Seen>,
}

impl View for AddrCache {
    type V = CacheView;

    closed spec fn view(&self) -> CacheView {
        CacheView {
            addresses: published_map(self.authority_id_to_addresses@),
            validators: seen_map(self.peer_id_to_authority_ids@),
        }
    }
}

impl AddrCache {
    #[verifier::type_invariant]
    spec fn well_formed(&self) -> bool {
        &&& published_ok(self.authority_id_to_addresses@)
        &&& seen_ok(self.peer_id_to_authority_ids@)
    }

    /// Creates an empty cache.
    pub fn new() -> (cache: Self)
        ensures
            cache@ == CacheView::empty(),
    {
        let cache = AddrCache {
            authority_id_to_addresses: Vec::new(),
            peer_id_to_authority_ids: Vec::new(),
        };
        assert(cache@.addresses =~= Map::empty());
        assert(cache@.validators =~= Map::empty());
        cache
    }

    fn published_position(&self, validator_id: &ValidatorId) -> (at: Option<usize>)
        ensures
            match at {
                Some(i) => i < self.authority_id_to_addresses@.len()
                    && self.authority_id_to_addresses@[i as int].validator@ == validator_id@,
                None => !published_known(self.authority_id_to_addresses@, validator_id@),
            },
    {
        let mut i: usize = 0;
        while i < self.authority_id_to_addresses.len()
            invariant
                i <= self.authority_id_to_addresses@.len(),
                forall|k: int|
                    0 <= k < i ==> (#[trigger] self.authority_id_to_addresses@[k]).validator@
                        != validator_id@,
            decreases self.authority_id_to_addresses@.len() - i,
        {
            if self.authority_id_to_addresses[i].validator.same(validator_id) {
                return Some(i);
            }
            i = i + 1;
        }
        None
    }

    fn seen_position(&self, peer: &PeerId) -> (at: Option<usize>)
        ensures
            match at {
                Some(i) => i < self.peer_id_to_authority_ids@.len()
                    && self.peer_id_to_authority_ids@[i as int].peer@ == peer@,
                None => !seen_known(self.peer_id_to_authority_ids@, peer@),
            },
    {
        let mut i: usize = 0;
        while i < self.peer_id_to_authority_ids.len()
            invariant
                i <= self.peer_id_to_authority_ids@.len(),
                forall|k: int|
                    0 <= k < i ==> (#[trigger] self.peer_id_to_authority_ids@[k]).peer@ != peer@,
            decreases self.peer_id_to_authority_ids@.len() - i,
        {
            if self.peer_id_to_authority_ids[i].peer.same(peer) {
                return Some(i);
            }
            i = i + 1;
        }
        None
    }

    /// Records `validator_id` behind `peer`, keeping what was recorded there.
    fn record_behind(&mut self, peer: &PeerId, validator_id: ValidatorId)
        ensures
            final(self)@.addresses == old(self)@.addresses,
            final(self)@.validators == old(self)@.validators.insert(
                peer@,
                old(self)@.validators_of(peer@).insert(validator_id@),
            ),
    {
        proof {
            use_type_invariant(&*self);
        }
        let position = self.seen_position(peer);
        let ghost before = self.peer_id_to_authority_ids@;
        let mut entries: Vec<Seen> = Vec::new();
        core::mem::swap(&mut self.peer_id_to_authority_ids, &mut entries);
        match position {
            Some(at) => {
                assert(seen_known(before, peer@));
                assert(seen_at(before, peer@) == at);
                let mut validators: Vec<ValidatorId> = Vec::new();
                let current = &entries[at].validators;
                let mut i: usize = 0;
                while i < current.len()
                    invariant
                        i <= current.len(),
                        validators@ == current@.subrange(0, i as int),
                    decreases current.len() - i,
                {
                    validators.push(current[i]);
                    i = i + 1;
                    assert(validators@ =~= current@.subrange(0, i as int));
                }
                assert(current@.subrange(0, current.len() as int) =~= current@);
                insert_once(&mut validators, validator_id);
                let entry = Seen { peer: peer.clone(), validators };
                proof {
                    lemma_seen_replace(before, at as int, entry);
                }
                entries.set(at, entry);
            },
            None => {
                let mut validators: Vec<ValidatorId> = Vec::new();
                proof {
                    lemma_id_set_empty::<ValidatorId>();
                }
                insert_once(&mut validators, validator_id);
                let entry = Seen { peer: peer.clone(), validators };
                proof {
                    lemma_seen_push(before, entry);
                }
                entries.push(entry);
            },
        }
        core::mem::swap(&mut self.peer_id_to_authority_ids, &mut entries);
    }

    /// Replaces the addresses of `validator_id` by `addresses`, and records the
    /// validator behind every peer that the new addresses lead to and the
    /// previous ones did not. No record behind a peer is removed.
    pub fn add_validator(&mut self, validator_id: ValidatorId, addresses: Vec<Address>)
        ensures
            final(self)@ == old(self)@.add_validator(validator_id@, id_set(addresses@)),
    {
        proof {
            use_type_invariant(&*self);
        }
        let ghost start = self@;
        let addresses_set = unique(addresses);
        let new_peer_ids = addresses_to_peer_ids(&addresses_set);
        let position = self.published_position(&validator_id);
        let old_peer_ids = match position {
            Some(at) => {
                assert(published_known(self.authority_id_to_addresses@, validator_id@));
                assert(published_at(self.authority_id_to_addresses@, validator_id@) == at);
                addresses_to_peer_ids(&self.authority_id_to_addresses[at].addresses)
            },
            None => {
                proof {
                    lemma_id_set_empty::<PeerId>();
                }
                Vec::new()
            },
        };
        assert(id_set(old_peer_ids@) == start.peers_for(validator_id@));
        let entry = Published { validator: validator_id, addresses: addresses_set };
        let mut entries: Vec<Published> = Vec::new();
        core::mem::swap(&mut self.authority_id_to_addresses, &mut entries);
        match position {
            Some(at) => {
                proof {
                    lemma_published_replace(entries@, at as int, entry);
                }
                entries.set(at, entry);
            },
            None => {
                proof {
                    lemma_published_push(entries@, entry);
                }
                entries.push(entry);
            },
        }
        core::mem::swap(&mut self.authority_id_to_addresses, &mut entries);
        let ghost fresh = start.fresh_peers(validator_id@, id_set(addresses@));
        let ghost target = start.add_validator(validator_id@, id_set(addresses@));
        let mut k: usize = 0;
        proof {
            lemma_id_set_empty::<PeerId>();
            assert(new_peer_ids@.subrange(0, 0) =~= Seq::<PeerId>::empty());
            assert(self@.validators =~= start.validators);
        }
        while k < new_peer_ids.len()
            invariant
                k <= new_peer_ids.len(),
                distinct(new_peer_ids@),
                id_set(new_peer_ids@) == peers_of(id_set(addresses@)),
                id_set(old_peer_ids@) == start.peers_for(validator_id@),
                fresh == start.fresh_peers(validator_id@, id_set(addresses@)),
                self@.addresses == start.addresses.insert(validator_id@, id_set(addresses@)),
                self@.validators.dom() =~= start.validators.dom().union(
                    id_set(new_peer_ids@.subrange(0, k as int)).intersect(fresh),
                ),
                forall|p: Seq<u8>| #[trigger]
                    self@.validators.dom().contains(p) ==> self@.validators[p] == if id_set(
                        new_peer_ids@.subrange(0, k as int),
                    ).intersect(fresh).contains(p) {
                        start.validators_of(p).insert(validator_id@)
                    } else {
                        start.validators[p]
                    },
            decreases new_peer_ids.len() - k,
        {
            let peer = &new_peer_ids[k];
            let ghost done = new_peer_ids@.subrange(0, k as int);
            let ghost before = self@;
            proof {
                lemma_id_set_push(done, new_peer_ids@[k as int]);
                assert(done.push(new_peer_ids@[k as int]) =~= new_peer_ids@.subrange(0, k + 1));
                assert(!id_set(done).contains(peer@)) by {
                    if id_set(done).contains(peer@) {
                        let i = choose|i: int| 0 <= i < done.len() && #[trigger] done[i]@ == peer@;
                        assert(new_peer_ids@[i]@ == done[i]@);
                    }
                }
                assert(id_set(new_peer_ids@).contains(peer@));
            }
            if !holds(&old_peer_ids, peer) {
                assert(fresh.contains(peer@));
                assert(before.validators_of(peer@) == start.validators_of(peer@));
                self.record_behind(peer, validator_id);
            } else {
                assert(!fresh.contains(peer@));
            }
            k = k + 1;
        }
        proof {
            assert(new_peer_ids@.subrange(0, new_peer_ids.len() as int) =~= new_peer_ids@);
            assert(id_set(new_peer_ids@).intersect(fresh) =~= fresh);
            assert(self@.validators =~= target.validators);
        }
    }

    /// The peers currently reachable for `validator_id`, each once, or `None`
    /// when the validator is unknown.
    pub fn validator_addresses(&self, validator_id: &ValidatorId) -> (peers: Option<Vec<PeerId>>)
        ensures
            match peers {
                Some(list) => distinct(list@) && self@.validator_addresses(validator_id@) == Some(
                    id_set(list@),
                ),
                None => self@.validator_addresses(validator_id@) is None,
            },
    {
        proof {
            use_type_invariant(self);
        }
        match self.published_position(validator_id) {
            Some(at) => {
                assert(published_known(self.authority_id_to_addresses@, validator_id@));
                assert(published_at(self.authority_id_to_addresses@, validator_id@) == at);
                Some(addresses_to_peer_ids(&self.authority_id_to_addresses[at].addresses))
            },
            None => None,
        }
    }

    /// The validators recorded behind `peer`, each once, or `None` when the
    /// peer was never seen.
    pub fn peer_validators(&self, peer: &PeerId) -> (validators: Option<Vec<ValidatorId>>)
        ensures
            match validators {
                Some(list) => distinct(list@) && self@.validators.dom().contains(peer@)
                    && self@.validators[peer@] == id_set(list@),
                None => !self@.validators.dom().contains(peer@),
            },
    {
        proof {
            use_type_invariant(self);
        }
        match self.seen_position(peer) {
            Some(at) => {
                assert(seen_known(self.peer_id_to_authority_ids@, peer@));
                assert(seen_at(self.peer_id_to_authority_ids@, peer@) == at);
                let current = &self.peer_id_to_authority_ids[at].validators;
                let mut list: Vec<ValidatorId> = Vec::new();
                let mut i: usize = 0;
                while i < current.len()
                    invariant
                        i <= current.len(),
                        list@ == current@.subrange(0, i as int),
                    decreases current.len() - i,
                {
                    list.push(current[i]);
                    i = i + 1;
                    assert(list@ =~= current@.subrange(0, i as int));
                }
                assert(current@.subrange(0, current.len() as int) =~= current@);
                Some(list)
            },
            None => None,
        }
    }
}

/// After a validator published a set of addresses, looking it up gives exactly
/// the peers that those addresses lead to. An address that leads to no peer
/// adds nothing to them, and the other validators are looked up as before.
pub proof fn lemma_lookup_after_add(
    cache: CacheView,
    validator: Seq<u8>,
    addresses: Set<Seq<u8>>,
    other: Seq<u8>,
    address: Seq<u8>,
)
    ensures
        cache.add_validator(validator, addresses).validator_addresses(validator) == Some(
            peers_of(addresses),
        ),
        peer_of(address) is None ==> peers_of(addresses.insert(address)) == peers_of(addresses),
        other != validator ==> cache.add_validator(validator, addresses).validator_addresses(other)
            == cache.validator_addresses(other),
{
    lemma_peers_of_insert(addresses, address);
}

/// An update replaces the address set and prunes nothing behind the peers.
/// After `validator` published `first` and then `second`, looking it up gives
/// the peers of `second` alone, while it is still recorded behind every peer
/// that the first update brought in. More generally, whatever was recorded
/// behind a peer before an update is recorded there after it.
pub proof fn lemma_update_replaces_not_prunes(
    cache: CacheView,
    validator: Seq<u8>,
    first: Set<Seq<u8>>,
    second: Set<Seq<u8>>,
    peer: Seq<u8>,
    recorded: Seq<u8>,
)
    ensures
        cache.add_validator(validator, first).add_validator(validator, second).validator_addresses(
            validator,
        ) == Some(peers_of(second)),
        cache.fresh_peers(validator, first).contains(peer) ==> cache.add_validator(
            validator,
            first,
        ).add_validator(validator, second).validators_of(peer).contains(validator),
        cache.validators_of(peer).contains(recorded) ==> cache.add_validator(
            validator,
            first,
        ).validators_of(peer).contains(recorded),
{
}

} // verus!
