//! Helpers on byte strings shared by the other modules.

use vstd::prelude::*;

verus! {

/// Compares two byte strings.
pub fn bytes_eq(a: &[u8], b: &[u8]) -> (same: bool)
    ensures
        same == (a@ == b@),
{
    if a.len() != b.len() {
        return false;
    }
    let mut i: usize = 0;
    while i < a.len()
        invariant
            a.len() == b.len(),
            i <= a.len(),
            forall|k: int| 0 <= k < i ==> a@[k] == b@[k],
        decreases a.len() - i,
    {
        if a[i] != b[i] {
            return false;
        }
        i = i + 1;
    }
    assert(a@ =~= b@);
    true
}

/// Copies a byte string into a fresh vector.
pub fn bytes_to_vec(a: &[u8]) -> (copy: Vec<u8>)
    ensures
        copy@ == a@,
{
    let mut copy: Vec<u8> = Vec::with_capacity(a.len());
    let mut i: usize = 0;
    while i < a.len()
        invariant
            i <= a.len(),
            copy@ == a@.subrange(0, i as int),
        decreases a.len() - i,
    {
        copy.push(a[i]);
        i = i + 1;
        assert(copy@ =~= a@.subrange(0, i as int));
    }
    assert(a@.subrange(0, a.len() as int) =~= a@);
    copy
}

/// The concatenation of a list of byte strings, in order.
pub open spec fn concat(parts: Seq<Seq<u8>>) -> Seq<u8>
    decreases parts.len(),
{
    if parts.len() == 0 {
        Seq::empty()
    } else {
        concat(parts.drop_last()) + parts.last()
    }
}

/// The byte strings that a list of vectors holds.
pub open spec fn views(parts: Seq<Vec<u8>>) -> Seq<Seq<u8>> {
    Seq::new(parts.len(), |i: int| parts[i]@)
}

/// Concatenates the segments of `parts` in order.
pub fn flatten(parts: &Vec<Vec<u8>>) -> (joined: Vec<u8>)
    ensures
        joined@ == concat(views(parts@)),
{
    let mut joined: Vec<u8> = Vec::new();
    let mut i: usize = 0;
    assert(views(parts@).subrange(0, 0) =~= Seq::<Seq<u8>>::empty());
    while i < parts.len()
        invariant
            i <= parts.len(),
            joined@ == concat(views(parts@).subrange(0, i as int)),
        decreases parts.len() - i,
    {
        let part = &parts[i];
        let ghost before = joined@;
        let mut j: usize = 0;
        while j < part.len()
            invariant
                j <= part.len(),
                joined@ == before + part@.subrange(0, j as int),
            decreases part.len() - j,
        {
            joined.push(part[j]);
            j = j + 1;
            assert(joined@ =~= before + part@.subrange(0, j as int));
        }
        assert(part@.subrange(0, part.len() as int) =~= part@);
        proof {
            let next = views(parts@).subrange(0, i + 1);
            assert(next.drop_last() =~= views(parts@).subrange(0, i as int));
            assert(next.last() == part@);
        }
        i = i + 1;
    }
    assert(views(parts@).subrange(0, parts.len() as int) =~= views(parts@));
    joined
}

} // verus!
