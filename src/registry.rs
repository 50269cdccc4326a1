//! The registry of opened libraries: one handle per identifier, owned by the
//! registry until it is removed.
use vstd::prelude::*;
use std::collections::HashMap;
use std::collections::hash_map::Entry;
use crate::ids::Uuid;
use vstd::std_specs::iter::IteratorSpec;

verus! {

broadcast use vstd::std_specs::hash::group_hash_axioms;

/// Opened handles keyed by the value of their identifier. Callers hold the
/// registry behind one lock, so every operation here runs alone.
pub struct Registry<H> {
    libs: HashMap<u128, H>,
}

impl<H> Registry<H> {
    /// The handles, by identifier value.
    pub closed spec fn handles(&self) -> Map<u128, H> {
        self.libs@
    }

    /// Whether `id` has a handle.
    pub open spec fn is_open(&self, id: Uuid) -> bool {
        self.handles().contains_key(id.value)
    }

    pub fn new() -> (r: Registry<H>)
        ensures
            r.handles() == Map::<u128, H>::empty(),
    {
        Registry { libs: HashMap::new() }
    }

    /// Registers `h` under `id`; a handle that was there already is handed back.
    pub fn insert(&mut self, id: Uuid, h: H) -> (r: Option<H>)
        ensures
            final(self).handles() == old(self).handles().insert(id.value, h),
            match r {
                Some(p) => old(self).is_open(id) && p == old(self).handles()[id.value],
                None => !old(self).is_open(id),
            },
    {
        self.libs.insert(id.value, h)
    }

    /// Takes the handle of `id` out of the registry, if there is one.
    pub fn remove(&mut self, id: Uuid) -> (r: Option<H>)
        ensures
            final(self).handles() == old(self).handles().remove(id.value),
            match r {
                Some(h) => old(self).is_open(id) && h == old(self).handles()[id.value],
                None => !old(self).is_open(id),
            },
    {
        self.libs.remove(&id.value)
    }

    pub fn contains(&self, id: Uuid) -> (r: bool)
        ensures
            r == self.is_open(id),
    {
        self.libs.contains_key(&id.value)
    }

    /// The handle of `id`, if there is one.
    pub fn get(&self, id: Uuid) -> (r: Option<&H>)
        ensures
            match r {
                Some(h) => self.is_open(id) && *h == self.handles()[id.value],
                None => !self.is_open(id),
            },
    {
        self.libs.get(&id.value)
    }

    /// Write access to the handle of `id`, if there is one; the registry
    /// keeps it, with whatever was done to it.
    pub fn get_mut(&mut self, id: Uuid) -> (r: Option<&mut H>)
        ensures
            match r {
                Some(h) => {
                    &&& old(self).is_open(id)
                    &&& *h == old(self).handles()[id.value]
                    &&& final(self).handles() == old(self).handles().insert(id.value, *final(h))
                },
                None => !old(self).is_open(id) && final(self).handles() == old(self).handles(),
            },
    {
        match self.libs.entry(id.value) {
            Entry::Occupied(o) => Some(o.into_mut()),
            Entry::Vacant(_) => None,
        }
    }

    /// The identifiers of the opened libraries, each once, in no set order.
    pub fn ids(&self) -> (r: Vec<Uuid>)
        ensures
            forall|i: int| 0 <= i < r@.len() ==> self.handles().contains_key(#[trigger] r@[i].value),
            forall|k: u128|
                #[trigger] self.handles().contains_key(k) ==> exists|i: int|
                    0 <= i < r@.len() && r@[i].value == k,
            forall|i: int, j: int|
                0 <= i < j < r@.len() ==> #[trigger] r@[i].value != #[trigger] r@[j].value,
    {
        let mut out: Vec<Uuid> = Vec::new();
        let ghost keys = self.libs.keys().remaining();
        for k in it: self.libs.keys()
            invariant
                it.seq() == keys,
                keys.unref().to_set() == self.handles().dom(),
                keys.no_duplicates(),
                out@.len() == it.index(),
                forall|i: int| 0 <= i < it.index() ==> #[trigger] out@[i].value == *keys[i],
        {
            out.push(Uuid { value: *k });
        }
        assert forall|i: int| 0 <= i < out@.len() implies self.handles().contains_key(
            #[trigger] out@[i].value,
        ) by {
            assert(keys.unref()[i] == *keys[i]);
            assert(keys.unref().contains(*keys[i]));
            assert(keys.unref().to_set().contains(*keys[i]));
        }
        assert forall|k: u128| #[trigger] self.handles().contains_key(k) implies exists|i: int|
            0 <= i < out@.len() && out@[i].value == k by {
            assert(keys.unref().to_set().contains(k));
            let i = choose|i: int| 0 <= i < keys.len() && *keys[i] == k;
            assert(out@[i].value == k);
        }
        out
    }

    /// Drops every handle, as at shutdown, which finalizes them.
    pub fn clear(&mut self)
        ensures
            final(self).handles() == Map::<u128, H>::empty(),
    {
        self.libs.clear();
    }

    /// The number of opened libraries.
    pub fn len(&self) -> (r: usize)
        ensures
            r == self.handles().len(),
    {
        self.libs.len()
    }
}

/// After `h` is registered under `id`, looking `id` up finds `h`.
pub proof fn lemma_register_then_lookup<H>(before: Registry<H>, after: Registry<H>, id: Uuid, h: H)
    requires
        after.handles() == before.handles().insert(id.value, h),
    ensures
        after.is_open(id),
        after.handles()[id.value] == h,
{
}

/// After `id` is removed, looking it up finds nothing, and every other
/// identifier keeps its handle.
pub proof fn lemma_remove_then_lookup<H>(before: Registry<H>, after: Registry<H>, id: Uuid)
    requires
        after.handles() == before.handles().remove(id.value),
    ensures
        !after.is_open(id),
        forall|other: Uuid|
            other != id && before.is_open(other) ==> #[trigger] after.is_open(other)
                && after.handles()[other.value] == before.handles()[other.value],
{
    assert forall|other: Uuid| other != id && before.is_open(other) implies #[trigger] after.is_open(
        other,
    ) && after.handles()[other.value] == before.handles()[other.value] by {
        assert(other.value != id.value);
    }
}

} // verus!
