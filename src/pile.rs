//! The resource store: capabilities keyed by raw type, and transformed values
//! keyed by raw type and a process-wide id.
use std::collections::HashMap;
use vstd::prelude::*;

use crate::capability::{Erased, LoaderRouter, TypeTag};

verus! {

broadcast use vstd::std_specs::hash::group_hash_axioms;

/// Handle of a stored resource. Ids come from one counter shared by all raw
/// types: they are unique across the whole store, not per type.
pub type ResourceId = u64;

/// Why an operation on the store failed.
#[derive(Clone, Copy, Debug, PartialEq, Eq, Structural)]
pub enum PileError {
    /// A resource was added for a raw type that has no registered capability.
    MissingCapability,
    /// No transformed value is stored under the requested raw type and id.
    UnknownSlot,
    /// The stored value is not of the requested transformed type.
    TypeMismatch,
}

/// The store. `V` is the universe of opaque values, `L` the type of the
/// registered capabilities.
pub struct ResourcePile<V, L> {
    /// Entry `i` holds the resource with id `i`: its raw type and its
    /// transformed value.
    resources: Vec<(TypeTag, V)>,
    loaders: HashMap<TypeTag, L>,
    counter: u64,
}

impl<V: Erased, L: LoaderRouter<V>> ResourcePile<V, L> {
    /// The registered capabilities, by the raw type they serve.
    pub closed spec fn capabilities(&self) -> Map<TypeTag, L> {
        self.loaders@
    }

    /// The populated slots: `(raw type, id)` to transformed value.
    pub closed spec fn slots(&self) -> Map<(TypeTag, ResourceId), V> {
        Map::new(
            |k: (TypeTag, ResourceId)|
                k.1 < self.resources@.len() && self.resources@[k.1 as int].0 == k.0,
            |k: (TypeTag, ResourceId)| self.resources@[k.1 as int].1,
        )
    }

    /// The id that the next successful `add_resource` hands out.
    pub closed spec fn next_id(&self) -> ResourceId {
        self.counter
    }

    /// Internal consistency: the counter is the number of stored resources,
    /// and each capability is filed under the raw type it accepts.
    pub closed spec fn wf(&self) -> bool {
        &&& self.counter == self.resources@.len()
        &&& forall|k: TypeTag| #[trigger]
            self.loaders@.contains_key(k) ==> self.loaders@[k].raw_key() == k
    }

    /// What `get_transformed_resource(raw, out, id)` returns.
    pub open spec fn lookup(&self, raw: TypeTag, out: TypeTag, id: ResourceId) -> Result<V, PileError> {
        if !self.slots().contains_key((raw, id)) {
            Err(PileError::UnknownSlot)
        } else if self.slots()[(raw, id)].type_key() != out {
            Err(PileError::TypeMismatch)
        } else {
            Ok(self.slots()[(raw, id)])
        }
    }

    /// `post` and `r` are what `add_resource(raw)` makes of `self`: with a
    /// capability for the raw type, a new slot under the next id holding what
    /// that capability produced from `raw`; without one, an error and no change.
    pub open spec fn added(self, raw: V, post: Self, r: Result<ResourceId, PileError>) -> bool {
        let key = raw.type_key();
        match r {
            Ok(id) => {
                &&& self.capabilities().contains_key(key)
                &&& id == self.next_id()
                &&& post.next_id() == id + 1
                &&& post.capabilities() == self.capabilities()
                &&& post.slots() == self.slots().insert((key, id), post.slots()[(key, id)])
                &&& self.capabilities()[key].routes(raw, post.slots()[(key, id)])
            },
            Err(e) => {
                &&& e == PileError::MissingCapability
                &&& !self.capabilities().contains_key(key)
                &&& post == self
            },
        }
    }

    /// An empty store: no capability, no resource, ids starting at zero.
    pub fn new() -> (r: Self)
        ensures
            r.wf(),
            r.capabilities() == Map::<TypeTag, L>::empty(),
            r.slots() == Map::<(TypeTag, ResourceId), V>::empty(),
            r.next_id() == 0,
    {
        let r = ResourcePile { resources: Vec::new(), loaders: HashMap::new(), counter: 0 };
        assert(r.slots() =~= Map::<(TypeTag, ResourceId), V>::empty());
        r
    }

    /// The id that the next successful `add_resource` hands out.
    pub fn next_resource_id(&self) -> (r: ResourceId)
        ensures
            r == self.next_id(),
    {
        self.counter
    }

    /// Registers `k` for the raw type it accepts, replacing any capability
    /// registered for that type before.
    pub fn add_loader(&mut self, k: L)
        requires
            old(self).wf(),
        ensures
            final(self).wf(),
            final(self).capabilities() == old(self).capabilities().insert(k.raw_key(), k),
            final(self).slots() == old(self).slots(),
            final(self).next_id() == old(self).next_id(),
    {
        let key = k.raw_type_tag();
        self.loaders.insert(key, k);
    }

    /// Transforms `raw` with the capability registered for its type and
    /// stores the result under the next id, which is returned.
    /// Fails with `MissingCapability`, changing nothing, where no capability
    /// is registered for the type of `raw`.
    pub fn add_resource(&mut self, raw: V) -> (r: Result<ResourceId, PileError>)
        requires
            old(self).wf(),
            old(self).next_id() < u64::MAX,
        ensures
            final(self).wf(),
            old(self).added(raw, *final(self), r),
    {
        let key = raw.type_tag();
        let loader = match self.loaders.get(&key) {
            Some(l) => l,
            None => return Err(PileError::MissingCapability),
        };
        let out = loader.enroute_create(&raw);
        let id = self.counter;
        self.resources.push((key, out));
        self.counter = id + 1;
        assert(self.slots() =~= old(self).slots().insert((key, id), out));
        Ok(id)
    }

    /// The transformed value stored under raw type `raw` and id `id`, provided
    /// that it is of transformed type `out`.
    /// Fails with `UnknownSlot` where no such slot is populated, and with
    /// `TypeMismatch` where the stored value is of another type than `out`.
    pub fn get_transformed_resource(&self, raw: TypeTag, out: TypeTag, id: ResourceId) -> (r: Result<&V, PileError>)
        requires
            self.wf(),
        ensures
            (match r {
                Ok(v) => self.lookup(raw, out, id) == Ok::<V, PileError>(*v),
                Err(e) => self.lookup(raw, out, id) == Err::<V, PileError>(e),
            }),
    {
        if id >= self.counter {
            assert(!self.slots().contains_key((raw, id)));
            return Err(PileError::UnknownSlot);
        }
        assert(id < self.resources.len());
        let entry = &self.resources[id as usize];
        if entry.0 != raw {
            assert(!self.slots().contains_key((raw, id)));
            return Err(PileError::UnknownSlot);
        }
        assert(self.slots().contains_key((raw, id)));
        if entry.1.type_tag() != out {
            return Err(PileError::TypeMismatch);
        }
        Ok(&entry.1)
    }

    /// Adding a raw value of a registered type succeeds, and getting its id
    /// back, under its raw type and the type of what the capability produced,
    /// yields a value that the capability produces from that raw value.
    pub proof fn lemma_add_then_get(self, raw: V, post: Self, r: Result<ResourceId, PileError>)
        requires
            self.wf(),
            self.capabilities().contains_key(raw.type_key()),
            self.added(raw, post, r),
        ensures
            r is Ok,
            exists|out: V|
                #![trigger self.capabilities()[raw.type_key()].routes(raw, out)]
                self.capabilities()[raw.type_key()].routes(raw, out) && post.lookup(
                    raw.type_key(),
                    out.type_key(),
                    r->Ok_0,
                ) == Ok::<V, PileError>(out),
    {
        let key = raw.type_key();
        let id = r->Ok_0;
        let out = post.slots()[(key, id)];
        assert(post.slots().contains_key((key, id)));
        assert(post.lookup(key, out.type_key(), id) == Ok::<V, PileError>(out));
    }

    /// The id handed out by a successful `add_resource` is greater than every
    /// id already in the store, whatever raw type it is stored under; so ids
    /// are unique across all raw types.
    pub proof fn lemma_id_fresh(self, raw: V, post: Self, id: ResourceId)
        requires
            self.wf(),
            self.added(raw, post, Ok(id)),
        ensures
            forall|k: (TypeTag, ResourceId)| #[trigger] self.slots().contains_key(k) ==> k.1 < id,
    {
    }

    /// Ids returned by two successive successful `add_resource` calls, of any
    /// raw types, strictly increase.
    pub proof fn lemma_ids_increase(
        self,
        a: V,
        mid: Self,
        id_a: ResourceId,
        b: V,
        post: Self,
        id_b: ResourceId,
    )
        requires
            self.wf(),
            self.added(a, mid, Ok(id_a)),
            mid.wf(),
            mid.added(b, post, Ok(id_b)),
        ensures
            id_a < id_b,
    {
    }

    /// Getting an id that no `add_resource` has produced yet fails with
    /// `UnknownSlot`, for every raw and transformed type.
    pub proof fn lemma_unproduced_id(self, raw: TypeTag, out: TypeTag, id: ResourceId)
        requires
            self.wf(),
            id >= self.next_id(),
        ensures
            self.lookup(raw, out, id) == Err::<V, PileError>(PileError::UnknownSlot),
    {
    }

    /// Getting a freshly added resource as another transformed type than the
    /// one its capability produced fails with `TypeMismatch`.
    pub proof fn lemma_wrong_output_type(self, raw: V, post: Self, id: ResourceId, out: TypeTag)
        requires
            self.wf(),
            self.added(raw, post, Ok(id)),
            out != post.slots()[(raw.type_key(), id)].type_key(),
        ensures
            post.lookup(raw.type_key(), out, id) == Err::<V, PileError>(PileError::TypeMismatch),
    {
        assert(post.slots().contains_key((raw.type_key(), id)));
    }
}

} // verus!
