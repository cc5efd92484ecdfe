//! Records kept under their addresses, at most one under each.

use crate::address::Address;
use vstd::prelude::*;

verus! {

/// A store of records keyed by address. Its model is a map from the
/// address's bytes to the record.
pub struct Table<T> {
    entries: Vec<(Address, T)>,
}

impl<T> Table<T> {
    /// No address is held twice.
    pub closed spec fn wf(&self) -> bool {
        forall|i: int, j: int|
            0 <= i < j < self.entries@.len() ==> (#[trigger] self.entries@[i]).0@ != (
            #[trigger] self.entries@[j]).0@
    }

    /// Some record is kept under `key`.
    spec fn holds(&self, key: Seq<u8>) -> bool {
        exists|i: int| 0 <= i < self.entries@.len() && (#[trigger] self.entries@[i]).0@ == key
    }

    /// Where the record under `key` stands.
    spec fn position(&self, key: Seq<u8>) -> int {
        choose|i: int| 0 <= i < self.entries@.len() && (#[trigger] self.entries@[i]).0@ == key
    }

    /// The records by address.
    pub closed spec fn map(&self) -> Map<Seq<u8>, T> {
        Map::new(|key: Seq<u8>| self.holds(key), |key: Seq<u8>| self.entries@[self.position(key)].1)
    }

    /// The record at a position is the one the map holds under its address.
    proof fn lemma_entry(&self, i: int)
        requires
            self.wf(),
            0 <= i < self.entries@.len(),
        ensures
            self.map().contains_key(self.entries@[i].0@),
            self.map()[self.entries@[i].0@] == self.entries@[i].1,
    {
        let key = self.entries@[i].0@;
        assert(self.holds(key));
        let p = self.position(key);
        assert(p == i);
    }

    /// A table that holds nothing.
    pub fn new() -> (r: Self)
        ensures
            r.wf(),
            r.map() == Map::<Seq<u8>, T>::empty(),
    {
        let r = Table { entries: Vec::new() };
        assert(r.map() =~= Map::<Seq<u8>, T>::empty());
        r
    }

    /// Where the record under `key` stands, if there is one.
    fn find(&self, key: &Address) -> (r: Option<usize>)
        requires
            self.wf(),
        ensures
            match r {
                Some(i) => i < self.entries@.len() && self.entries@[i as int].0@ == key@,
                None => !self.holds(key@),
            },
    {
        let mut i: usize = 0;
        while i < self.entries.len()
            invariant
                i <= self.entries@.len(),
                forall|j: int| 0 <= j < i ==> (#[trigger] self.entries@[j]).0@ != key@,
            decreases self.entries@.len() - i,
        {
            if self.entries[i].0 == *key {
                return Some(i);
            }
            i += 1;
        }
        None
    }

    /// The record under `key`, if there is one.
    pub fn get(&self, key: &Address) -> (r: Option<&T>)
        requires
            self.wf(),
        ensures
            match r {
                Some(record) => self.map().contains_key(key@) && self.map()[key@] == *record,
                None => !self.map().contains_key(key@),
            },
    {
        match self.find(key) {
            Some(i) => {
                proof {
                    self.lemma_entry(i as int);
                }
                Some(&self.entries[i].1)
            },
            None => None,
        }
    }

    /// Whether a record is kept under `key`.
    pub fn contains(&self, key: &Address) -> (r: bool)
        requires
            self.wf(),
        ensures
            r == self.map().contains_key(key@),
    {
        match self.find(key) {
            Some(i) => {
                proof {
                    self.lemma_entry(i as int);
                }
                true
            },
            None => false,
        }
    }

    /// Keeps `record` under `key`, in place of the one kept there if any.
    pub fn put(&mut self, key: Address, record: T)
        requires
            old(self).wf(),
        ensures
            final(self).wf(),
            final(self).map() == old(self).map().insert(key@, record),
    {
        let ghost before = *self;
        match self.find(&key) {
            Some(i) => {
                self.entries.set(i, (key, record));
                assert(self.wf());
                assert forall|k: Seq<u8>| self.holds(k) <==> before.holds(k) by {
                    if self.holds(k) {
                        let p = self.position(k);
                        assert(before.entries@[p].0@ == k);
                    }
                    if before.holds(k) {
                        let p = before.position(k);
                        assert(self.entries@[p].0@ == k);
                    }
                }
                assert forall|k: Seq<u8>| self.holds(k) implies #[trigger] self.map()[k]
                    == before.map().insert(key@, record)[k] by {
                    let p = self.position(k);
                    self.lemma_entry(p);
                    before.lemma_entry(p);
                }
                proof {
                    before.lemma_entry(i as int);
                }
                assert(self.map() =~= before.map().insert(key@, record));
            },
            None => {
                self.entries.push((key, record));
                assert(self.wf());
                let ghost last = before.entries@.len() as int;
                assert forall|k: Seq<u8>| self.holds(k) <==> (before.holds(k) || k == key@) by {
                    if self.holds(k) {
                        let p = self.position(k);
                        if p < last {
                            assert(before.entries@[p].0@ == k);
                        }
                    }
                    if before.holds(k) {
                        let p = before.position(k);
                        assert(self.entries@[p].0@ == k);
                    }
                    if k == key@ {
                        assert(self.entries@[last].0@ == k);
                    }
                }
                assert forall|k: Seq<u8>| self.holds(k) implies #[trigger] self.map()[k]
                    == before.map().insert(key@, record)[k] by {
                    let p = self.position(k);
                    self.lemma_entry(p);
                    if p < last {
                        before.lemma_entry(p);
                    }
                }
                assert(self.map() =~= before.map().insert(key@, record));
            },
        }
    }
}

} // verus!
