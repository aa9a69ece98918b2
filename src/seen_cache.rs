use vstd::prelude::*;

use crate::bytes::{key_seq, position_of};

verus! {

/// The number of message ids a node remembers per broadcast strategy.
pub const DEFAULT_SEEN_CAPACITY: usize = 1024;

/// The ids held after observing `id`, oldest first: an id already held
/// changes nothing; a new id is appended, and when the cache is full the
/// oldest id leaves to make room.
pub open spec fn after_observe(ids: Seq<Seq<u8>>, capacity: nat, id: Seq<u8>) -> Seq<Seq<u8>> {
    if ids.contains(id) {
        ids
    } else if ids.len() >= capacity {
        ids.drop_first().push(id)
    } else {
        ids.push(id)
    }
}

/// A bounded record of recently seen message ids, used to suppress
/// duplicates. Ids leave in the order in which they came.
pub struct SeenCache {
    ids: Vec<Vec<u8>>,
    capacity: usize,
}

impl View for SeenCache {
    type V = Seq<Seq<u8>>;

    closed spec fn view(&self) -> Seq<Seq<u8>> {
        key_seq(self.ids@)
    }
}

/// A repetition-free sequence stays so when its first element leaves and an
/// absent element is appended.
proof fn lemma_no_dup_shift_push(s: Seq<Seq<u8>>, id: Seq<u8>, drop: bool)
    requires
        s.no_duplicates(),
        !s.contains(id),
        drop ==> s.len() > 0,
    ensures
        ({
            let t = if drop { s.drop_first() } else { s };
            t.push(id).no_duplicates()
        }),
{
    let t = if drop { s.drop_first() } else { s };
    let off: int = if drop { 1 } else { 0 };
    assert forall|k: int| 0 <= k < t.len() implies t[k] == s[k + off] by {}
    let u = t.push(id);
    assert forall|a: int, b: int| 0 <= a < b < u.len() implies u[a] != u[b] by {
        if b == t.len() {
            assert(u[a] == s[a + off]);
            assert(s.contains(s[a + off]));
        } else {
            assert(u[a] == s[a + off] && u[b] == s[b + off]);
        }
    }
}

impl SeenCache {
    /// The most ids this cache holds at once.
    pub closed spec fn capacity_spec(&self) -> nat {
        self.capacity as nat
    }

    /// Well-formedness: a positive bound that is respected, and no id twice.
    pub closed spec fn wf(&self) -> bool {
        &&& self.capacity > 0
        &&& self@.len() <= self.capacity
        &&& self@.no_duplicates()
    }

    /// An empty cache that remembers up to `capacity` ids.
    pub fn new(capacity: usize) -> (r: SeenCache)
        requires
            capacity > 0,
        ensures
            r.wf(),
            r@ == Seq::<Seq<u8>>::empty(),
            r.capacity_spec() == capacity,
    {
        let r = SeenCache { ids: Vec::new(), capacity };
        assert(r@ =~= Seq::<Seq<u8>>::empty());
        r
    }

    /// The most ids this cache holds at once.
    pub fn capacity(&self) -> (r: usize)
        ensures
            r == self.capacity_spec(),
    {
        self.capacity
    }

    /// The number of ids held.
    pub fn len(&self) -> (r: usize)
        ensures
            r == self@.len(),
    {
        self.ids.len()
    }

    /// Whether `id` is held.
    pub fn contains(&self, id: &Vec<u8>) -> (r: bool)
        ensures
            r == self@.contains(id@),
    {
        position_of(&self.ids, id).is_some()
    }

    /// Records `id` and returns whether it was new, that is, not held before.
    pub fn observe(&mut self, id: &Vec<u8>) -> (r: bool)
        requires
            old(self).wf(),
        ensures
            final(self).wf(),
            final(self).capacity_spec() == old(self).capacity_spec(),
            final(self)@ == after_observe(old(self)@, old(self).capacity_spec(), id@),
            r == !old(self)@.contains(id@),
    {
        if position_of(&self.ids, id).is_some() {
            return false;
        }
        let ghost before = self@;
        let full = self.ids.len() >= self.capacity;
        if full {
            self.ids.remove(0);
            assert(self@ =~= before.drop_first());
        }
        let ghost mid = self@;
        self.ids.push(id.clone());
        assert(self@ =~= mid.push(id@));
        proof {
            lemma_no_dup_shift_push(before, id@, full);
        }
        true
    }
}

/// Observing an id twice in a row is the same as observing it once: the id
/// is held afterwards, so the second observation reports it as already seen
/// and changes nothing.
pub proof fn lemma_dedup_idempotent(ids: Seq<Seq<u8>>, capacity: nat, id: Seq<u8>)
    requires
        capacity > 0,
    ensures
        after_observe(ids, capacity, id).contains(id),
        after_observe(after_observe(ids, capacity, id), capacity, id) == after_observe(
            ids,
            capacity,
            id,
        ),
{
    let once = after_observe(ids, capacity, id);
    if !ids.contains(id) {
        let base = if ids.len() >= capacity { ids.drop_first() } else { ids };
        assert(once == base.push(id));
        assert(once[base.len() as int] == id);
    }
}

/// However many distinct ids are observed, a cache never holds more than its
/// capacity; once full it stays exactly full, the oldest id making way.
pub proof fn lemma_bounded_growth(ids: Seq<Seq<u8>>, capacity: nat, id: Seq<u8>)
    requires
        capacity > 0,
        ids.len() <= capacity,
        ids.no_duplicates(),
    ensures
        after_observe(ids, capacity, id).len() <= capacity,
        ids.len() == capacity ==> after_observe(ids, capacity, id).len() == capacity,
        ids.len() == capacity && !ids.contains(id) ==> !after_observe(
            ids,
            capacity,
            id,
        ).contains(ids[0]),
{
    if ids.len() == capacity && !ids.contains(id) {
        let after = after_observe(ids, capacity, id);
        assert(after == ids.drop_first().push(id));
        if after.contains(ids[0]) {
            let k = choose|k: int| 0 <= k < after.len() && after[k] == ids[0];
            if k < capacity - 1 {
                assert(ids.drop_first()[k] == ids[k + 1]);
            } else {
                assert(ids.contains(ids[0]));
            }
        }
    }
}

} // verus!
