//! The identities that discovery relates: validators, peers and addresses.

use vstd::prelude::*;
use crate::bytes::{bytes_eq, bytes_to_vec};

verus! {

/// The public key that names a validator.
#[derive(Clone, Copy, Debug)]
pub struct ValidatorId {
    pub bytes: [u8; 32],
}

impl View for ValidatorId {
    type V = Seq<u8>;

    open spec fn view(&self) -> Seq<u8> {
        self.bytes@
    }
}

impl ValidatorId {
    /// Wraps the 32 bytes of a public key.
    pub fn new(bytes: [u8; 32]) -> (id: Self)
        ensures
            id@ == bytes@,
    {
        ValidatorId { bytes }
    }

    /// Whether two identities hold the same key.
    pub fn same(&self, other: &ValidatorId) -> (same: bool)
        ensures
            same == (self@ == other@),
    {
        bytes_eq(self.bytes.as_slice(), other.bytes.as_slice())
    }

    /// The raw bytes of the key.
    pub fn to_vec(&self) -> (bytes: Vec<u8>)
        ensures
            bytes@ == self@,
    {
        bytes_to_vec(self.bytes.as_slice())
    }
}

/// The network-layer identity of a node, in its binary multihash form.
#[derive(Debug)]
pub struct PeerId {
    pub bytes: Vec<u8>,
}

impl View for PeerId {
    type V = Seq<u8>;

    open spec fn view(&self) -> Seq<u8> {
        self.bytes@
    }
}

impl Clone for PeerId {
    fn clone(&self) -> (copy: Self)
        ensures
            copy@ == self@,
    {
        PeerId { bytes: bytes_to_vec(self.bytes.as_slice()) }
    }
}

impl PeerId {
    /// Wraps the binary form of a peer identity.
    pub fn new(bytes: Vec<u8>) -> (id: Self)
        ensures
            id@ == bytes@,
    {
        PeerId { bytes }
    }

    /// Whether two peer identities are the same.
    pub fn same(&self, other: &PeerId) -> (same: bool)
        ensures
            same == (self@ == other@),
    {
        bytes_eq(self.bytes.as_slice(), other.bytes.as_slice())
    }
}

/// A network address in its binary multiaddr form.
#[derive(Debug)]
pub struct Address {
    pub bytes: Vec<u8>,
}

impl View for Address {
    type V = Seq<u8>;

    open spec fn view(&self) -> Seq<u8> {
        self.bytes@
    }
}

impl Clone for Address {
    fn clone(&self) -> (copy: Self)
        ensures
            copy@ == self@,
    {
        Address { bytes: bytes_to_vec(self.bytes.as_slice()) }
    }
}

impl Address {
    /// Wraps the binary form of an address.
    pub fn new(bytes: Vec<u8>) -> (addr: Self)
        ensures
            addr@ == bytes@,
    {
        Address { bytes }
    }

    /// Whether two addresses are the same.
    pub fn same(&self, other: &Address) -> (same: bool)
        ensures
            same == (self@ == other@),
    {
        bytes_eq(self.bytes.as_slice(), other.bytes.as_slice())
    }
}

/// A value that is identified by a byte string and can be compared by it.
pub trait Identity: View<V = Seq<u8>> + Sized {
    /// Whether `self` and `other` are identified by the same bytes.
    fn same_as(&self, other: &Self) -> (same: bool)
        ensures
            same == (self@ == other@),
    ;

    /// A copy that is identified by the same bytes.
    fn duplicate(&self) -> (copy: Self)
        ensures
            copy@ == self@,
    ;
}

impl Identity for ValidatorId {
    fn same_as(&self, other: &Self) -> (same: bool) {
        self.same(other)
    }

    fn duplicate(&self) -> (copy: Self) {
        *self
    }
}

impl Identity for PeerId {
    fn same_as(&self, other: &Self) -> (same: bool) {
        self.same(other)
    }

    fn duplicate(&self) -> (copy: Self) {
        self.clone()
    }
}

impl Identity for Address {
    fn same_as(&self, other: &Self) -> (same: bool) {
        self.same(other)
    }

    fn duplicate(&self) -> (copy: Self) {
        self.clone()
    }
}

/// The set of byte strings that identify the items of a list.
pub open spec fn id_set<T: Identity>(items: Seq<T>) -> Set<Seq<u8>> {
    Set::new(|id: Seq<u8>| exists|i: int| 0 <= i < items.len() && #[trigger] items[i]@ == id)
}

/// Whether no two items of a list are identified by the same bytes.
pub open spec fn distinct<T: Identity>(items: Seq<T>) -> bool {
    forall|i: int, j: int| 0 <= i < j < items.len() ==> #[trigger] items[i]@ != #[trigger] items[j]@
}

/// The empty list identifies nothing.
pub proof fn lemma_id_set_empty<T: Identity>()
    ensures
        id_set(Seq::<T>::empty()) == Set::<Seq<u8>>::empty(),
{
    assert(id_set(Seq::<T>::empty()) =~= Set::<Seq<u8>>::empty());
}

/// The set of a list grows by one identity when an item is appended.
pub proof fn lemma_id_set_push<T: Identity>(items: Seq<T>, item: T)
    ensures
        id_set(items.push(item)) == id_set(items).insert(item@),
{
    let grown = items.push(item);
    assert forall|id: Seq<u8>| id_set(grown).contains(id) <==> id_set(items).insert(item@).contains(
        id,
    ) by {
        if id_set(grown).contains(id) {
            let i = choose|i: int| 0 <= i < grown.len() && #[trigger] grown[i]@ == id;
            if i < items.len() {
                assert(items[i]@ == id);
            }
        }
        if id_set(items).contains(id) {
            let i = choose|i: int| 0 <= i < items.len() && #[trigger] items[i]@ == id;
            assert(grown[i]@ == id);
        }
        if id == item@ {
            assert(grown[items.len() as int]@ == id);
        }
    }
    assert(id_set(grown) =~= id_set(items).insert(item@));
}

/// Whether `items` holds an item identified as `item` is.
pub fn holds<T: Identity>(items: &Vec<T>, item: &T) -> (found: bool)
    ensures
        found == id_set(items@).contains(item@),
{
    let mut i: usize = 0;
    while i < items.len()
        invariant
            i <= items.len(),
            forall|k: int| 0 <= k < i ==> items@[k]@ != item@,
        decreases items.len() - i,
    {
        if items[i].same_as(item) {
            return true;
        }
        i = i + 1;
    }
    false
}

/// Appends `item` unless `items` already holds one identified as it is.
pub fn insert_once<T: Identity>(items: &mut Vec<T>, item: T)
    requires
        distinct(old(items)@),
    ensures
        distinct(final(items)@),
        id_set(final(items)@) == id_set(old(items)@).insert(item@),
{
    if !holds(items, &item) {
        proof {
            lemma_id_set_push(items@, item);
        }
        items.push(item);
    } else {
        assert(id_set(items@).insert(item@) =~= id_set(items@));
    }
}

/// The items of `items` without repetitions, in the order of their first
/// occurrence.
pub fn unique<T: Identity>(items: Vec<T>) -> (kept: Vec<T>)
    ensures
        distinct(kept@),
        id_set(kept@) == id_set(items@),
{
    let mut kept: Vec<T> = Vec::new();
    let mut i: usize = 0;
    proof {
        lemma_id_set_empty::<T>();
        assert(items@.subrange(0, 0) =~= Seq::<T>::empty());
    }
    while i < items.len()
        invariant
            i <= items.len(),
            distinct(kept@),
            id_set(kept@) == id_set(items@.subrange(0, i as int)),
        decreases items.len() - i,
    {
        proof {
            lemma_id_set_push(items@.subrange(0, i as int), items@[i as int]);
            assert(items@.subrange(0, i as int).push(items@[i as int]) =~= items@.subrange(
                0,
                i + 1,
            ));
        }
        let item = items[i].duplicate();
        insert_once(&mut kept, item);
        i = i + 1;
    }
    assert(items@.subrange(0, items.len() as int) =~= items@);
    kept
}

} // verus!
