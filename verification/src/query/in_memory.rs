//! An in-memory store of read model instances, keyed by aggregate ID, for
//! live projections: the projector writes it and queries read it.
use vstd::prelude::*;
use vstd::std_specs::hash::*;
use vstd::std_specs::iter::IteratorSpec;

use std::collections::HashMap;

verus! {

broadcast use group_hash_axioms;

/// An in-memory store for read model instances keyed by ID.
///
/// The same store is the write target of a projector and the read source of
/// a query handler.
pub struct InMemoryViewStore<RM> {
    inner: HashMap<u128, RM>,
}

impl<RM> View for InMemoryViewStore<RM> {
    type V = Map<u128, RM>;

    closed spec fn view(&self) -> Map<u128, RM> {
        self.inner@
    }
}

impl<RM: Clone> InMemoryViewStore<RM> {
    /// Create an empty store.
    pub fn new() -> (r: Self)
        ensures
            r@ == Map::<u128, RM>::empty(),
    {
        InMemoryViewStore { inner: HashMap::new() }
    }

    /// Insert or update a read model instance by its identifier.
    pub fn upsert(&mut self, id: u128, model: RM)
        ensures
            final(self)@ == old(self)@.insert(id, model),
    {
        self.inner.insert(id, model);
    }

    /// Remove a read model instance by its identifier, returning it if it
    /// existed.
    pub fn remove(&mut self, id: &u128) -> (r: Option<RM>)
        ensures
            final(self)@ == old(self)@.remove(*id),
            match r {
                Some(m) => old(self)@.contains_key(*id) && m == old(self)@[*id],
                None => !old(self)@.contains_key(*id),
            },
    {
        self.inner.remove(id)
    }

    /// Get a clone of a read model instance by its identifier.
    pub fn get(&self, id: &u128) -> (r: Option<RM>)
        ensures
            match r {
                Some(m) => self@.contains_key(*id) && cloned(self@[*id], m),
                None => !self@.contains_key(*id),
            },
    {
        match self.inner.get(id) {
            Some(m) => Some(m.clone()),
            None => None,
        }
    }

    /// A copy of every instance, one per identifier, in no particular order.
    pub fn all(&self) -> (r: Vec<RM>)
        ensures
            r@.len() == self@.len(),
            exists|ks: Seq<u128>|
                #![trigger ks.to_set()]
                {
                    &&& ks.no_duplicates()
                    &&& ks.to_set() == self@.dom()
                    &&& ks.len() == r@.len()
                    &&& forall|i: int| 0 <= i < ks.len() ==> cloned(self@[ks[i]], #[trigger] r@[i])
                },
    {
        let mut out: Vec<RM> = Vec::new();
        let ghost keys = spec_keys_iter(&self.inner).remaining();
        proof {
            axiom_spec_keys_iter(&self.inner);
        }
        for k in it: self.inner.keys()
            invariant
                keys == spec_keys_iter(&self.inner).remaining(),
                keys == it.seq(),
                out@.len() == it.index(),
                forall|j: int| 0 <= j < it.index() ==> self@.contains_key(*keys[j]),
                forall|j: int|
                    0 <= j < it.index() ==> cloned(self@[*keys[j]], #[trigger] out@[j]),
        {
            assert(keys.unref().to_set().contains(*k));
            match self.inner.get(k) {
                Some(m) => {
                    out.push(m.clone());
                },
                None => {},
            }
        }
        proof {
            let ks = keys.unref();
            assert(ks.len() == out@.len());
        }
        out
    }

    /// Returns the number of entries currently in the store.
    pub fn len(&self) -> (r: usize)
        ensures
            r == self@.len(),
    {
        self.inner.len()
    }

    /// Returns `true` if the store contains no entries.
    pub fn is_empty(&self) -> (r: bool)
        ensures
            r == (self@.len() == 0),
    {
        self.inner.is_empty()
    }

    /// The current contents, for a query to read.
    pub fn snapshot(&self) -> (r: &HashMap<u128, RM>)
        ensures
            r@ == self@,
    {
        &self.inner
    }
}

/// What a store holds after a write is what a read gives back: after an
/// upsert, the instance stored under its ID is the one written, and the
/// others are unchanged; after a remove, the ID holds nothing and the others
/// are unchanged.
pub proof fn lemma_read_after_write<RM>(m: Map<u128, RM>, id: u128, model: RM, other: u128)
    requires
        other != id,
    ensures
        m.insert(id, model).contains_key(id),
        m.insert(id, model)[id] == model,
        m.insert(id, model).contains_key(other) == m.contains_key(other),
        m.contains_key(other) ==> m.insert(id, model)[other] == m[other],
        !m.remove(id).contains_key(id),
        m.remove(id).contains_key(other) == m.contains_key(other),
        m.contains_key(other) ==> m.remove(id)[other] == m[other],
{
}

} // verus!
