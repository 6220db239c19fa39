//! The table of discoveries, keyed by identifier.

use crate::bytes::ids_equal;
use crate::types::{Discovery, DiscoveryId, DiscoveryView};
use vstd::prelude::*;

verus! {

/// A finite map from identifiers to discoveries. No identifier occurs twice.
pub struct DiscoveryTable {
    ids: Vec<DiscoveryId>,
    records: Vec<Discovery>,
}

impl DiscoveryTable {
    /// The table's invariant: one record for each identifier, and no
    /// identifier twice.
    pub closed spec fn wf(&self) -> bool {
        &&& self.ids@.len() == self.records@.len()
        &&& forall|i: int, j: int|
            0 <= i < j < self.ids@.len() ==> (#[trigger] self.ids@[i])@ != (#[trigger] self.ids@[j])@
    }

    spec fn has(&self, key: Seq<u8>, i: int) -> bool {
        0 <= i < self.ids@.len() && self.ids@[i]@ == key
    }

    spec fn position(&self, key: Seq<u8>) -> int {
        choose|i: int| self.has(key, i)
    }

    /// The empty table.
    pub fn new() -> (r: Self)
        ensures
            r.wf(),
            r@ == Map::<Seq<u8>, DiscoveryView>::empty(),
    {
        let r = DiscoveryTable { ids: Vec::new(), records: Vec::new() };
        assert(r@ =~= Map::<Seq<u8>, DiscoveryView>::empty());
        r
    }

    proof fn lemma_entry(&self, key: Seq<u8>, i: int)
        requires
            self.wf(),
            self.has(key, i),
        ensures
            self@.contains_key(key),
            self@[key] == self.records@[i]@,
    {
        let p = self.position(key);
        assert(self.has(key, p));
        if p < i {
            assert(self.ids@[p]@ != self.ids@[i]@);
        } else if i < p {
            assert(self.ids@[i]@ != self.ids@[p]@);
        }
    }

    proof fn lemma_absent(&self, key: Seq<u8>)
        requires
            forall|i: int| !self.has(key, i),
        ensures
            !self@.contains_key(key),
    {
    }

    proof fn lemma_present(&self, key: Seq<u8>) -> (i: int)
        requires
            self@.contains_key(key),
        ensures
            self.has(key, i),
    {
        self.position(key)
    }

    fn find(&self, id: &DiscoveryId) -> (r: Option<usize>)
        requires
            self.wf(),
        ensures
            match r {
                Some(i) => self.has(id@, i as int),
                None => forall|i: int| !self.has(id@, i),
            },
    {
        let mut i: usize = 0;
        while i < self.ids.len()
            invariant
                i <= self.ids@.len(),
                forall|j: int| 0 <= j < i ==> !self.has(id@, j),
            decreases self.ids.len() - i,
        {
            if ids_equal(&self.ids[i], id) {
                return Some(i);
            }
            i += 1;
        }
        None
    }

    /// The discovery stored under `id`, if there is one.
    pub fn get(&self, id: &DiscoveryId) -> (r: Option<&Discovery>)
        requires
            self.wf(),
        ensures
            match r {
                Some(d) => self@.contains_key(id@) && self@[id@] == d@,
                None => !self@.contains_key(id@),
            },
    {
        match self.find(id) {
            Some(i) => {
                proof {
                    self.lemma_entry(id@, i as int);
                }
                Some(&self.records[i])
            },
            None => {
                proof {
                    self.lemma_absent(id@);
                }
                None
            },
        }
    }

    /// Stores `record` under `id`, in place of what was stored there.
    pub fn insert(&mut self, id: DiscoveryId, record: Discovery)
        requires
            old(self).wf(),
        ensures
            final(self).wf(),
            final(self)@ == old(self)@.insert(id@, record@),
    {
        let ghost before = *self;
        let ghost slot: int;
        match self.find(&id) {
            Some(i) => {
                self.records.set(i, record);
                proof {
                    slot = i as int;
                }
            },
            None => {
                self.ids.push(id);
                self.records.push(record);
                proof {
                    slot = before.ids@.len() as int;
                    assert forall|i: int, j: int| 0 <= i < j < self.ids@.len() implies (
                    #[trigger] self.ids@[i])@ != (#[trigger] self.ids@[j])@ by {
                        if j == slot {
                            assert(!before.has(id@, i));
                        }
                    }
                }
            },
        }
        proof {
            let expected = before@.insert(id@, record@);
            assert(self.has(id@, slot));
            assert forall|k: Seq<u8>| self@.contains_key(k) == expected.contains_key(k) by {
                if self@.contains_key(k) {
                    let i = self.lemma_present(k);
                    if k != id@ {
                        assert(before.has(k, i));
                        before.lemma_entry(k, i);
                    }
                }
                if expected.contains_key(k) {
                    if k != id@ {
                        let i = before.lemma_present(k);
                        assert(self.has(k, i));
                        self.lemma_entry(k, i);
                    } else {
                        self.lemma_entry(k, slot);
                    }
                }
            }
            assert forall|k: Seq<u8>| self@.contains_key(k) implies self@[k] == expected[k] by {
                let i = self.lemma_present(k);
                self.lemma_entry(k, i);
                if k != id@ {
                    assert(before.has(k, i));
                    before.lemma_entry(k, i);
                } else {
                    self.lemma_entry(k, slot);
                }
            }
            assert(self@ =~= expected);
        }
    }

    /// Marks the discovery stored under `id` as verified.
    pub fn mark_verified(&mut self, id: &DiscoveryId)
        requires
            old(self).wf(),
            old(self)@.contains_key(id@),
        ensures
            final(self).wf(),
            final(self)@ == old(self)@.insert(
                id@,
                DiscoveryView { verified: true, ..old(self)@[id@] },
            ),
    {
        let ghost before = *self;
        let ghost marked = DiscoveryView { verified: true, ..before@[id@] };
        match self.find(id) {
            Some(i) => {
                proof {
                    before.lemma_entry(id@, i as int);
                }
                self.records[i].verified = true;
                proof {
                    let expected = before@.insert(id@, marked);
                    assert(self.records@[i as int]@ == marked);
                    assert forall|k: Seq<u8>| self@.contains_key(k) == expected.contains_key(
                        k,
                    ) by {
                        if self@.contains_key(k) {
                            let j = self.lemma_present(k);
                            assert(before.has(k, j));
                            before.lemma_entry(k, j);
                        }
                        if expected.contains_key(k) {
                            let j = before.lemma_present(k);
                            assert(self.has(k, j));
                            self.lemma_entry(k, j);
                        }
                    }
                    assert forall|k: Seq<u8>| self@.contains_key(k) implies self@[k]
                        == expected[k] by {
                        let j = self.lemma_present(k);
                        self.lemma_entry(k, j);
                        assert(before.has(k, j));
                        before.lemma_entry(k, j);
                    }
                    assert(self@ =~= expected);
                }
            },
            None => {
                proof {
                    let j = before.lemma_present(id@);
                    assert(self.has(id@, j));
                }
            },
        }
    }
}

impl View for DiscoveryTable {
    type V = Map<Seq<u8>, DiscoveryView>;

    closed spec fn view(&self) -> Map<Seq<u8>, DiscoveryView> {
        Map::new(
            |key: Seq<u8>| exists|i: int| self.has(key, i),
            |key: Seq<u8>| self.records@[self.position(key)]@,
        )
    }
}

} // verus!
