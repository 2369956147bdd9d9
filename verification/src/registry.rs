//! The store of apes, keyed by id.

use crate::identity::hash_eq;
use crate::types::{Ape, ApeId};
use vstd::prelude::*;

verus! {

/// The registered apes. Ids and apes are kept side by side in the order in
/// which the ids were first stored.
pub struct Registry {
    ids: Vec<ApeId>,
    apes: Vec<Ape>,
}

impl Registry {
    /// Every id is stored once, beside its ape.
    pub closed spec fn inv(&self) -> bool {
        &&& self.ids@.len() == self.apes@.len()
        &&& self.ids@.no_duplicates()
    }

    /// The apes by id.
    pub closed spec fn view(&self) -> Map<ApeId, Ape> {
        Map::new(
            |id: ApeId| self.ids@.contains(id),
            |id: ApeId| self.apes@[self.ids@.index_of(id)],
        )
    }

    /// A registry without apes.
    pub fn new() -> (registry: Registry)
        ensures
            registry.inv(),
            registry@ == Map::<ApeId, Ape>::empty(),
    {
        let registry = Registry { ids: Vec::new(), apes: Vec::new() };
        assert(registry@ =~= Map::<ApeId, Ape>::empty());
        registry
    }

    fn find(&self, id: &ApeId) -> (found: Option<usize>)
        requires
            self.inv(),
        ensures
            match found {
                Some(i) => i < self.ids@.len() && self.ids@[i as int] == *id
                    && self.ids@.index_of(*id) == i,
                None => !self.ids@.contains(*id),
            },
    {
        let mut i: usize = 0;
        while i < self.ids.len()
            invariant
                self.inv(),
                i <= self.ids@.len(),
                forall|j: int| 0 <= j < i ==> self.ids@[j] != *id,
            decreases self.ids@.len() - i,
        {
            if hash_eq(&self.ids[i], id) {
                assert(self.ids@.contains(*id));
                return Some(i);
            }
            i += 1;
        }
        None
    }

    /// Whether an ape is stored under `id`.
    pub fn contains(&self, id: &ApeId) -> (present: bool)
        requires
            self.inv(),
        ensures
            present == self@.contains_key(*id),
    {
        self.find(id).is_some()
    }

    /// The ape stored under `id`, if there is one.
    pub fn get(&self, id: &ApeId) -> (found: Option<Ape>)
        requires
            self.inv(),
        ensures
            found == (if self@.contains_key(*id) {
                Some(self@[*id])
            } else {
                None
            }),
    {
        match self.find(id) {
            Some(i) => Some(self.apes[i]),
            None => None,
        }
    }

    /// Stores `ape` under `id`, in place of the ape that was stored there.
    pub fn insert(&mut self, id: ApeId, ape: Ape)
        requires
            old(self).inv(),
        ensures
            final(self).inv(),
            final(self)@ == old(self)@.insert(id, ape),
    {
        let ghost before = *self;
        match self.find(&id) {
            Some(i) => {
                self.apes.set(i, ape);
                assert forall|x: ApeId| self.ids@.contains(x) implies self.apes@[self.ids@.index_of(
                    x,
                )] == before@.insert(id, ape)[x] by {
                    let j = self.ids@.index_of(x);
                    assert(self.ids@[j] == x);
                }
            },
            None => {
                self.ids.push(id);
                self.apes.push(ape);
                assert forall|x: ApeId| self.ids@.contains(x) implies (x == id
                    || before.ids@.contains(x)) && self.apes@[self.ids@.index_of(x)]
                    == before@.insert(id, ape)[x] by {
                    let j = self.ids@.index_of(x);
                    assert(self.ids@[j] == x);
                    if x != id {
                        assert(before.ids@[j] == x);
                        let k = before.ids@.index_of(x);
                        assert(self.ids@[k] == x);
                    }
                }
                assert forall|x: ApeId| x == id || before.ids@.contains(x) implies self.ids@.contains(
                    x,
                ) by {
                    if x == id {
                        assert(self.ids@[before.ids@.len() as int] == id);
                    } else {
                        let k = before.ids@.index_of(x);
                        assert(self.ids@[k] == x);
                    }
                }
            },
        }
        assert(self@ =~= before@.insert(id, ape));
    }
}

} // verus!
