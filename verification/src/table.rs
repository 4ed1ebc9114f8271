//! Tables with one entry for each identifier.
use vstd::prelude::*;
use crate::ids::ObjectId;

verus! {

/// A table with at most one entry for each identifier.
pub struct IdTable<V> {
    keys: Vec<ObjectId>,
    values: Vec<V>,
}

impl<V: View> IdTable<V> {
    /// There is one value for each key, and no key occurs twice.
    pub closed spec fn wf(self) -> bool {
        self.keys@.len() == self.values@.len() && self.keys@.no_duplicates()
    }

    /// What the table holds.
    pub closed spec fn entries(self) -> Map<ObjectId, V::V> {
        Map::new(
            |k: ObjectId| self.keys@.contains(k),
            |k: ObjectId| self.values@[self.keys@.index_of(k)]@,
        )
    }

    /// An empty table.
    pub fn new() -> (r: IdTable<V>)
        ensures
            r.wf(),
            r.entries() == Map::<ObjectId, V::V>::empty(),
    {
        let r = IdTable { keys: Vec::new(), values: Vec::new() };
        proof {
            assert(r.entries() =~= Map::<ObjectId, V::V>::empty());
        }
        r
    }

    fn position(&self, id: ObjectId) -> (r: Option<usize>)
        requires
            self.wf(),
        ensures
            match r {
                Some(i) => i < self.keys@.len() && self.keys@[i as int] == id,
                None => !self.keys@.contains(id),
            },
    {
        let mut i: usize = 0;
        while i < self.keys.len()
            invariant
                i <= self.keys@.len(),
                forall|k: int| 0 <= k < i ==> self.keys@[k] != id,
            decreases self.keys@.len() - i,
        {
            if self.keys[i] == id {
                return Some(i);
            }
            i = i + 1;
        }
        None
    }

    /// The entry of an identifier.
    pub fn get(&self, id: ObjectId) -> (r: Option<&V>)
        requires
            self.wf(),
        ensures
            match r {
                Some(v) => self.entries().dom().contains(id) && self.entries()[id] == v@,
                None => !self.entries().dom().contains(id),
            },
    {
        match self.position(id) {
            Some(i) => {
                proof {
                    assert(self.keys@.contains(id));
                    assert(self.keys@.index_of(id) == i);
                }
                Some(&self.values[i])
            },
            None => None,
        }
    }

    /// Sets the entry of an identifier.
    pub fn insert(&mut self, id: ObjectId, value: V)
        requires
            old(self).wf(),
        ensures
            final(self).wf(),
            final(self).entries() == old(self).entries().insert(id, value@),
    {
        let ghost before = *self;
        match self.position(id) {
            Some(i) => {
                self.values.set(i, value);
                proof {
                    assert(self.keys@ == before.keys@);
                    assert(before.keys@.contains(id));
                    assert forall|k: ObjectId| #[trigger] self.keys@.contains(k) implies (
                    self.values@[self.keys@.index_of(k)]@ == (if k == id {
                        value@
                    } else {
                        before.values@[before.keys@.index_of(k)]@
                    })) by {
                        let j = self.keys@.index_of(k);
                        assert(self.keys@[j] == k);
                        if k != id {
                            assert(j != i);
                        }
                    }
                    assert(self.entries() =~= before.entries().insert(id, value@));
                }
            },
            None => {
                self.keys.push(id);
                self.values.push(value);
                proof {
                    assert(self.keys@ == before.keys@.push(id));
                    assert(self.keys@[before.keys@.len() as int] == id);
                    assert forall|k: ObjectId|
                        self.keys@.contains(k) <==> before.keys@.contains(k) || k == id by {
                        if before.keys@.contains(k) {
                            let j = before.keys@.index_of(k);
                            assert(self.keys@[j] == k);
                        }
                        if self.keys@.contains(k) {
                            let j = self.keys@.index_of(k);
                            if j < before.keys@.len() {
                                assert(before.keys@[j] == k);
                            }
                        }
                    }
                    assert forall|k: ObjectId| #[trigger] self.keys@.contains(k) implies (
                    self.values@[self.keys@.index_of(k)]@ == (if k == id {
                        value@
                    } else {
                        before.values@[before.keys@.index_of(k)]@
                    })) by {
                        let j = self.keys@.index_of(k);
                        assert(self.keys@[j] == k);
                        if k != id {
                            let m = before.keys@.index_of(k);
                            assert(before.keys@[m] == k);
                            assert(self.keys@[m] == k);
                        }
                    }
                    assert(self.entries() =~= before.entries().insert(id, value@));
                }
            },
        }
    }
}

} // verus!
