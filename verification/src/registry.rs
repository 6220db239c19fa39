//! The registry of permitted work types.

use crate::bytes::bytes_equal;
use vstd::prelude::*;

verus! {

/// A set of work-type labels. Labels are added and never removed.
pub struct WorkTypes {
    labels: Vec<Vec<u8>>,
}

impl View for WorkTypes {
    type V = Set<Seq<u8>>;

    closed spec fn view(&self) -> Set<Seq<u8>> {
        Set::new(|s: Seq<u8>| exists|i: int| 0 <= i < self.labels@.len() && self.labels@[i]@ == s)
    }
}

impl WorkTypes {
    /// The empty registry.
    pub fn new() -> (r: Self)
        ensures
            r@ == Set::<Seq<u8>>::empty(),
    {
        WorkTypes { labels: Vec::new() }
    }

    /// Whether `label` is registered.
    pub fn contains(&self, label: &Vec<u8>) -> (r: bool)
        ensures
            r == self@.contains(label@),
    {
        let mut i: usize = 0;
        while i < self.labels.len()
            invariant
                i <= self.labels@.len(),
                forall|j: int| 0 <= j < i ==> self.labels@[j]@ != label@,
            decreases self.labels.len() - i,
        {
            if bytes_equal(&self.labels[i], label) {
                return true;
            }
            i += 1;
        }
        false
    }

    /// Registers `label`. Registering a label again changes nothing.
    pub fn register(&mut self, label: Vec<u8>)
        ensures
            final(self)@ == old(self)@.insert(label@),
    {
        if !self.contains(&label) {
            let ghost before = self.labels@;
            self.labels.push(label);
            assert(self.labels@[before.len() as int]@ == label@);
            assert forall|s: Seq<u8>| self@.contains(s) <==> old(self)@.insert(label@).contains(
                s,
            ) by {
                if old(self)@.contains(s) {
                    let i = choose|i: int| 0 <= i < before.len() && before[i]@ == s;
                    assert(self.labels@[i]@ == s);
                }
            }
        }
    }
}

} // verus!
