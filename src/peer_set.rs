use vstd::prelude::*;

use crate::bytes::{key_seq, position_of};

verus! {

/// A set of peer identifiers (the bytes of each id), kept in insertion order
/// without repetition.
pub struct PeerSet {
    items: Vec<Vec<u8>>,
}

impl View for PeerSet {
    type V = Set<Seq<u8>>;

    closed spec fn view(&self) -> Set<Seq<u8>> {
        key_seq(self.items@).to_set()
    }
}

/// Removing the single occurrence of a key from a repetition-free sequence
/// removes exactly that key from its set.
proof fn lemma_remove_unique(s: Seq<Seq<u8>>, i: int)
    requires
        s.no_duplicates(),
        0 <= i < s.len(),
    ensures
        s.remove(i).no_duplicates(),
        s.remove(i).to_set() == s.to_set().remove(s[i]),
{
    let t = s.remove(i);
    assert forall|a: int, b: int| 0 <= a < b < t.len() implies t[a] != t[b] by {
        let a2 = if a < i { a } else { a + 1 };
        let b2 = if b < i { b } else { b + 1 };
        assert(t[a] == s[a2] && t[b] == s[b2]);
    }
    assert forall|x: Seq<u8>| #[trigger] t.contains(x) <==> s.to_set().remove(s[i]).contains(x) by {
        if t.contains(x) {
            let k = choose|k: int| 0 <= k < t.len() && t[k] == x;
            let k2 = if k < i { k } else { k + 1 };
            assert(s[k2] == x);
            assert(k2 != i);
        }
        if s.contains(x) && x != s[i] {
            let k = choose|k: int| 0 <= k < s.len() && s[k] == x;
            assert(k != i);
            let k2 = if k < i { k } else { k - 1 };
            assert(t[k2] == x);
        }
    }
    assert(t.to_set() =~= s.to_set().remove(s[i]));
}

impl PeerSet {
    /// Well-formedness: no peer id is held twice.
    pub closed spec fn wf(&self) -> bool {
        key_seq(self.items@).no_duplicates()
    }

    /// An empty set.
    pub fn new() -> (r: PeerSet)
        ensures
            r.wf(),
            r@ == Set::<Seq<u8>>::empty(),
    {
        let r = PeerSet { items: Vec::new() };
        assert(key_seq(r.items@) =~= Seq::<Seq<u8>>::empty());
        assert(r@ =~= Set::<Seq<u8>>::empty());
        r
    }

    /// Whether `peer` is in the set.
    pub fn contains(&self, peer: &Vec<u8>) -> (r: bool)
        requires
            self.wf(),
        ensures
            r == self@.contains(peer@),
    {
        position_of(&self.items, peer).is_some()
    }

    /// The number of peers in the set.
    pub fn len(&self) -> (r: usize)
        requires
            self.wf(),
        ensures
            r == self@.len(),
    {
        proof {
            key_seq(self.items@).unique_seq_to_set();
        }
        self.items.len()
    }

    /// Adds `peer`; returns whether it was absent before. Adding a peer that
    /// is already present leaves the set as it was.
    pub fn insert(&mut self, peer: &Vec<u8>) -> (r: bool)
        requires
            old(self).wf(),
        ensures
            final(self).wf(),
            final(self)@ == old(self)@.insert(peer@),
            r == !old(self)@.contains(peer@),
    {
        match position_of(&self.items, peer) {
            Some(_) => {
                assert(old(self)@.insert(peer@) =~= old(self)@);
                false
            },
            None => {
                let ghost before = key_seq(self.items@);
                self.items.push(peer.clone());
                assert(key_seq(self.items@) =~= before.push(peer@));
                assert(self@ =~= old(self)@.insert(peer@)) by {
                    assert forall|x: Seq<u8>| #[trigger] before.push(peer@).contains(x) <==> (
                    before.contains(x) || x == peer@) by {
                        if before.push(peer@).contains(x) && x != peer@ {
                            let k = choose|k: int|
                                0 <= k < before.len() + 1 && before.push(peer@)[k] == x;
                            assert(k < before.len());
                            assert(before[k] == x);
                        }
                        if x == peer@ {
                            assert(before.push(peer@)[before.len() as int] == x);
                        }
                        if before.contains(x) {
                            let k = choose|k: int| 0 <= k < before.len() && before[k] == x;
                            assert(before.push(peer@)[k] == x);
                        }
                    }
                }
                true
            },
        }
    }

    /// Removes `peer`; returns whether it was present. Removing an absent
    /// peer leaves the set as it was.
    pub fn remove(&mut self, peer: &Vec<u8>) -> (r: bool)
        requires
            old(self).wf(),
        ensures
            final(self).wf(),
            final(self)@ == old(self)@.remove(peer@),
            r == old(self)@.contains(peer@),
    {
        match position_of(&self.items, peer) {
            Some(i) => {
                let ghost before = key_seq(self.items@);
                proof {
                    lemma_remove_unique(before, i as int);
                }
                self.items.remove(i);
                assert(key_seq(self.items@) =~= before.remove(i as int));
                assert(before.contains(before[i as int]));
                true
            },
            None => {
                assert(old(self)@.remove(peer@) =~= old(self)@);
                false
            },
        }
    }

    /// The peers of the set, each once, in the order in which they came.
    pub fn to_vec(&self) -> (r: Vec<Vec<u8>>)
        requires
            self.wf(),
        ensures
            key_seq(r@).no_duplicates(),
            key_seq(r@).to_set() == self@,
    {
        let mut r: Vec<Vec<u8>> = Vec::new();
        let mut i: usize = 0;
        while i < self.items.len()
            invariant
                i <= self.items@.len(),
                key_seq(r@) == key_seq(self.items@).subrange(0, i as int),
            decreases self.items@.len() - i,
        {
            let ghost prev = r@;
            let c = self.items[i].clone();
            r.push(c);
            assert(r@ == prev.push(c));
            assert(key_seq(r@) =~= key_seq(prev).push(c@));
            i = i + 1;
            assert(key_seq(r@) =~= key_seq(self.items@).subrange(0, i as int));
        }
        assert(key_seq(self.items@).subrange(0, i as int) =~= key_seq(self.items@));
        r
    }
}

} // verus!
