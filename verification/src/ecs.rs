//! The slice of an entity-component world a render pass reads each frame:
//! per-entity component storages, marker sets for hidden entities, and an
//! optional visibility resource computed by a culling system. Entities are
//! dense indices; a storage is a vector of slots, one per entity.

use vstd::prelude::*;

verus! {

/// A per-entity component storage: slot `e` holds entity `e`'s component, if
/// it has one.
#[derive(Clone, Debug)]
pub struct Storage<T> {
    slots: Vec<Option<T>>,
}

impl<T> View for Storage<T> {
    type V = Seq<Option<T>>;

    closed spec fn view(&self) -> Seq<Option<T>> {
        self.slots@
    }
}

impl<T> Storage<T> {
    /// Entity `e` has a component in this storage.
    pub open spec fn has_spec(self, e: int) -> bool {
        0 <= e < self@.len() && self@[e] is Some
    }

    /// Entity `e`'s component.
    pub open spec fn at(self, e: int) -> T
        recommends
            self.has_spec(e),
    {
        self@[e]->Some_0
    }

    /// Entity `e`'s slot, with entities past the end reading as empty.
    pub open spec fn opt_at(self, e: int) -> Option<T> {
        if 0 <= e < self@.len() {
            self@[e]
        } else {
            None
        }
    }

    /// An empty storage with `n` entity slots.
    pub fn new(n: usize) -> (s: Self)
        ensures
            s@.len() == n,
            forall|e: int| 0 <= e < n ==> s@[e] is None,
    {
        let mut slots: Vec<Option<T>> = Vec::new();
        let mut i: usize = 0;
        while i < n
            invariant
                i <= n,
                slots@.len() == i,
                forall|e: int| 0 <= e < i ==> slots@[e] is None,
            decreases n - i,
        {
            slots.push(None);
            i = i + 1;
        }
        Storage { slots }
    }

    /// The number of entity slots.
    pub fn len(&self) -> (n: usize)
        ensures
            n == self@.len(),
    {
        self.slots.len()
    }

    /// Give entity `e` the component `v`.
    pub fn set(&mut self, e: usize, v: T)
        requires
            e < old(self)@.len(),
        ensures
            final(self)@ == old(self)@.update(e as int, Some(v)),
    {
        self.slots[e] = Some(v);
    }

    /// A storage never holds more slots than `usize` can index.
    pub proof fn lemma_slot_count_bound(&self)
        ensures
            self@.len() <= usize::MAX,
    {
        broadcast use vstd::std_specs::vec::axiom_spec_len;

        assert(vstd::std_specs::vec::spec_vec_len(&self.slots) == self.slots@.len());
    }

    /// Does entity `e` have a component here?
    pub fn has(&self, e: usize) -> (b: bool)
        ensures
            b == self.has_spec(e as int),
    {
        e < self.slots.len() && self.slots[e].is_some()
    }
}

impl<T: Copy> Storage<T> {
    /// Entity `e`'s component; the entity must have one.
    pub fn read(&self, e: usize) -> (v: T)
        requires
            self.has_spec(e as int),
        ensures
            v == self.at(e as int),
    {
        self.slots[e].unwrap()
    }

    /// Entity `e`'s slot, empty when the entity has no component or lies past
    /// the end.
    pub fn get(&self, e: usize) -> (r: Option<T>)
        ensures
            r == self.opt_at(e as int),
    {
        if e < self.slots.len() {
            self.slots[e]
        } else {
            None
        }
    }
}

/// A set of entities, stored as one bit per entity slot.
#[derive(Clone, Debug)]
pub struct EntitySet {
    bits: Vec<bool>,
}

impl EntitySet {
    /// Entity `e` is in the set.
    pub closed spec fn contains_spec(self, e: int) -> bool {
        0 <= e < self.bits@.len() && self.bits@[e]
    }

    /// The number of entity slots the set covers.
    pub closed spec fn capacity(self) -> nat {
        self.bits@.len()
    }

    /// An empty set over `n` entity slots.
    pub fn new(n: usize) -> (s: Self)
        ensures
            s.capacity() == n,
            forall|e: int| !s.contains_spec(e),
    {
        let mut bits: Vec<bool> = Vec::new();
        let mut i: usize = 0;
        while i < n
            invariant
                i <= n,
                bits@.len() == i,
                forall|e: int| 0 <= e < i ==> !bits@[e],
            decreases n - i,
        {
            bits.push(false);
            i = i + 1;
        }
        EntitySet { bits }
    }

    /// Put entity `e` in the set.
    pub fn insert(&mut self, e: usize)
        requires
            e < old(self).capacity(),
        ensures
            final(self).capacity() == old(self).capacity(),
            forall|x: int|
                final(self).contains_spec(x) == (old(self).contains_spec(x) || x == e),
    {
        self.bits[e] = true;
    }

    /// Is entity `e` in the set?
    pub fn contains(&self, e: usize) -> (b: bool)
        ensures
            b == self.contains_spec(e as int),
    {
        e < self.bits.len() && self.bits[e]
    }
}

} // verus!
