//! The set of collection interfaces that a run has emitted so far.

use crate::naming::str_eq;
use vstd::prelude::*;

verus! {

/// The canonical keys of the collection interfaces emitted so far in a run.
///
/// Membership is all that is ever asked of it: whether a key is in the set
/// does not depend on the order in which the keys came.
#[derive(Debug)]
pub struct DefinedCollections {
    keys: Vec<String>,
}

impl View for DefinedCollections {
    type V = Set<Seq<char>>;

    closed spec fn view(&self) -> Set<Seq<char>> {
        Set::new(|key: Seq<char>| exists|i: int| 0 <= i < self.keys.len() && self.keys[i]@ == key)
    }
}

impl DefinedCollections {
    /// The empty set, with which a run starts.
    pub fn new() -> (defined: DefinedCollections)
        ensures
            defined@ == Set::<Seq<char>>::empty(),
    {
        let defined = DefinedCollections { keys: Vec::new() };
        defined
    }

    /// Whether an interface has been emitted for `key`.
    pub fn contains(&self, key: &str) -> (found: bool)
        ensures
            found == self@.contains(key@),
    {
        let mut i: usize = 0;
        while i < self.keys.len()
            invariant
                i <= self.keys.len(),
                forall|j: int| 0 <= j < i ==> self.keys[j]@ != key@,
            decreases self.keys.len() - i,
        {
            if str_eq(self.keys[i].as_str(), key) {
                return true;
            }
            i += 1;
        }
        false
    }

    /// Records `key` as emitted. Returns whether it was new.
    pub fn insert(&mut self, key: String) -> (fresh: bool)
        ensures
            final(self)@ == old(self)@.insert(key@),
            fresh == !old(self)@.contains(key@),
    {
        if self.contains(key.as_str()) {
            false
        } else {
            let ghost before = self.keys@;
            self.keys.push(key);
            assert forall|k: Seq<char>| self@.contains(k) <==> old(self)@.insert(key@).contains(
                k,
            ) by {
                if old(self)@.contains(k) {
                    let i = choose|i: int| 0 <= i < before.len() && before[i]@ == k;
                    assert(self.keys[i]@ == k);
                }
                if k == key@ {
                    assert(self.keys[before.len() as int]@ == k);
                }
            }
            true
        }
    }
}

} // verus!
