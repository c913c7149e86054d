//! The entity store: an arena of slots addressed by generation-checked
//! identities.
//!
//! A slot is reused after its entity has been removed, under the next
//! generation, so an identity that has been handed out once is never handed out
//! again. A slot whose generation counter is exhausted is left vacant for good.

use crate::entity::Entity;
use vstd::prelude::*;
use vstd::set_lib::{lemma_int_range, lemma_set_subset_finite, set_int_range};

verus! {

/// Names one entity for as long as the store exists.
#[derive(Clone, Copy, Debug, PartialEq, Eq, Hash, Structural)]
pub struct Identity {
    /// The slot that holds the entity.
    pub index: usize,
    /// How many entities the slot had held before this one.
    pub generation: u64,
}

#[derive(Clone, Copy)]
struct Slot {
    /// The generation of the entity in the slot, or of the last one it held.
    generation: u64,
    entity: Option<Entity>,
}

/// A collection of entities, each under an identity of its own.
pub struct EntityStore {
    slots: Vec<Slot>,
    /// The vacant slots that can take another entity.
    free: Vec<usize>,
}

impl View for EntityStore {
    type V = Map<Identity, Entity>;

    /// The live entities by identity.
    closed spec fn view(&self) -> Map<Identity, Entity> {
        Map::new(
            |id: Identity| self.holds(id),
            |id: Identity| self.slots[id.index as int].entity->Some_0,
        )
    }
}

impl EntityStore {
    spec fn holds(&self, id: Identity) -> bool {
        &&& id.index < self.slots.len()
        &&& self.slots[id.index as int].generation == id.generation
        &&& self.slots[id.index as int].entity is Some
    }

    spec fn reusable(&self, index: usize) -> bool {
        &&& index < self.slots.len()
        &&& self.slots[index as int].entity is None
        &&& self.slots[index as int].generation < u64::MAX
    }

    /// Every identity that the store has handed out so far, live or not.
    pub closed spec fn issued(&self) -> Set<Identity> {
        Set::new(
            |id: Identity|
                id.index < self.slots.len() && id.generation
                    <= self.slots[id.index as int].generation,
        )
    }

    /// The free list names vacant, reusable slots, each once.
    pub closed spec fn wf(&self) -> bool {
        &&& forall|k: int| 0 <= k < self.free.len() ==> self.reusable(#[trigger] self.free[k])
        &&& forall|j: int, k: int|
            0 <= j < k < self.free.len() ==> self.free[j] != self.free[k]
    }

    /// A live identity is one that was handed out.
    pub proof fn lemma_live_is_issued(&self)
        ensures
            self@.dom().subset_of(self.issued()),
    {
    }

    /// The live entities are finitely many.
    pub proof fn lemma_finite(&self)
        ensures
            self@.dom().finite(),
    {
        let slots = self.slots@;
        let indices = set_int_range(0, slots.len() as int);
        let name = |i: int| Identity { index: i as usize, generation: slots[i].generation };
        lemma_int_range(0, slots.len() as int);
        indices.lemma_map_finite(name);
        assert forall|id: Identity| self@.dom().contains(id) implies indices.map(name).contains(
            id,
        ) by {
            assert(indices.contains(id.index as int));
            assert(name(id.index as int) == id);
        }
        lemma_set_subset_finite(indices.map(name), self@.dom());
    }

    /// An empty store.
    pub fn new() -> (store: EntityStore)
        ensures
            store.wf(),
            store@ == Map::<Identity, Entity>::empty(),
            store.issued() == Set::<Identity>::empty(),
    {
        let store = EntityStore { slots: Vec::new(), free: Vec::new() };
        assert(store@ =~= Map::<Identity, Entity>::empty());
        assert(store.issued() =~= Set::<Identity>::empty());
        store
    }

    /// Adds `entity` under an identity that was never handed out before.
    pub fn insert(&mut self, entity: Entity) -> (id: Identity)
        requires
            old(self).wf(),
        ensures
            final(self).wf(),
            !old(self).issued().contains(id),
            final(self).issued() == old(self).issued().insert(id),
            final(self)@ == old(self)@.insert(id, entity),
    {
        let id = match self.free.pop() {
            Some(index) => {
                let generation = self.slots[index].generation + 1;
                self.slots.set(index, Slot { generation, entity: Some(entity) });
                Identity { index, generation }
            },
            None => {
                let index = self.slots.len();
                self.slots.push(Slot { generation: 0, entity: Some(entity) });
                Identity { index, generation: 0 }
            },
        };
        assert(self.issued() =~= old(self).issued().insert(id));
        assert(self@ =~= old(self)@.insert(id, entity));
        id
    }

    /// Removes the entity under `id` and returns it. Where `id` names no live
    /// entity the store stays as it is.
    pub fn remove(&mut self, id: Identity) -> (removed: Option<Entity>)
        requires
            old(self).wf(),
        ensures
            final(self).wf(),
            final(self).issued() == old(self).issued(),
            final(self)@ == old(self)@.remove(id),
            old(self)@.contains_key(id) ==> removed == Some(old(self)@[id]),
            !old(self)@.contains_key(id) ==> removed is None,
    {
        if id.index < self.slots.len() {
            let slot = self.slots[id.index];
            if slot.generation == id.generation && slot.entity.is_some() {
                self.slots.set(id.index, Slot { generation: slot.generation, entity: None });
                if slot.generation < u64::MAX {
                    self.free.push(id.index);
                }
                assert(self.issued() =~= old(self).issued());
                assert(self@ =~= old(self)@.remove(id));
                return slot.entity;
            }
        }
        assert(self@ =~= old(self)@.remove(id));
        None
    }

    /// The entity under `id`, if it is live.
    pub fn get(&self, id: Identity) -> (entity: Option<Entity>)
        ensures
            self@.contains_key(id) ==> entity == Some(self@[id]),
            !self@.contains_key(id) ==> entity is None,
    {
        if id.index < self.slots.len() {
            let slot = self.slots[id.index];
            if slot.generation == id.generation {
                return slot.entity;
            }
        }
        None
    }

    /// Whether `id` names a live entity.
    pub fn contains(&self, id: Identity) -> (live: bool)
        ensures
            live == self@.contains_key(id),
    {
        id.index < self.slots.len() && self.slots[id.index].generation == id.generation
            && self.slots[id.index].entity.is_some()
    }

    /// The identities of the live entities, each once, by rising slot.
    pub fn ids(&self) -> (ids: Vec<Identity>)
        ensures
            forall|id: Identity| ids@.contains(id) <==> self@.contains_key(id),
            forall|j: int, k: int| 0 <= j < k < ids.len() ==> ids[j].index < ids[k].index,
            ids@.no_duplicates(),
    {
        let mut ids: Vec<Identity> = Vec::new();
        let mut index: usize = 0;
        while index < self.slots.len()
            invariant
                index <= self.slots.len(),
                forall|k: int|
                    0 <= k < ids.len() ==> (#[trigger] ids[k]).index < index && self.holds(ids[k]),
                forall|j: int, k: int| 0 <= j < k < ids.len() ==> ids[j].index < ids[k].index,
                forall|id: Identity| self.holds(id) && id.index < index ==> ids@.contains(id),
            decreases self.slots.len() - index,
        {
            let slot = self.slots[index];
            if slot.entity.is_some() {
                let id = Identity { index, generation: slot.generation };
                let ghost before = ids@;
                ids.push(id);
                assert(ids@[before.len() as int] == id);
                assert forall|other: Identity| before.contains(other) implies ids@.contains(
                    other,
                ) by {
                    let k = choose|k: int| 0 <= k < before.len() && before[k] == other;
                    assert(ids@[k] == other);
                }
            }
            index += 1;
        }
        ids
    }

    /// Replaces every live entity by what `f` makes of it. `f` is called once
    /// for each, in no promised order.
    pub fn for_each_mut<F: Fn(Entity) -> Entity>(&mut self, f: F)
        requires
            old(self).wf(),
            forall|id: Identity|
                old(self)@.contains_key(id) ==> call_requires(f, (#[trigger] old(self)@[id],)),
        ensures
            final(self).wf(),
            final(self).issued() == old(self).issued(),
            final(self)@.dom() == old(self)@.dom(),
            forall|id: Identity|
                old(self)@.contains_key(id) ==> call_ensures(
                    f,
                    (old(self)@[id],),
                    #[trigger] final(self)@[id],
                ),
    {
        let ghost before = *self;
        let mut index: usize = 0;
        while index < self.slots.len()
            invariant
                index <= self.slots.len(),
                self.slots.len() == before.slots.len(),
                self.free == before.free,
                before.wf(),
                forall|id: Identity|
                    before@.contains_key(id) ==> call_requires(f, (#[trigger] before@[id],)),
                forall|k: int|
                    0 <= k < self.slots.len() ==> (#[trigger] self.slots[k]).generation
                        == before.slots[k].generation && (self.slots[k].entity is Some
                        <==> before.slots[k].entity is Some),
                forall|k: int| index <= k < self.slots.len() ==> self.slots[k] == before.slots[k],
                forall|k: int|
                    0 <= k < index && before.slots[k].entity is Some ==> call_ensures(
                        f,
                        (before.slots[k].entity->Some_0,),
                        (#[trigger] self.slots[k]).entity->Some_0,
                    ),
            decreases self.slots.len() - index,
        {
            let slot = self.slots[index];
            if let Some(entity) = slot.entity {
                let ghost id = Identity { index, generation: slot.generation };
                assert(before@.contains_key(id) && before@[id] == entity);
                let changed = f(entity);
                self.slots.set(index, Slot { generation: slot.generation, entity: Some(changed) });
            }
            index += 1;
        }
        assert(self.issued() =~= before.issued());
        assert(self@.dom() =~= before@.dom());
    }
}

/// Removal is idempotent: taking out an identity that is not live changes
/// nothing, so taking one out twice is taking it out once.
pub proof fn lemma_remove_is_idempotent(entities: Map<Identity, Entity>, id: Identity)
    ensures
        !entities.contains_key(id) ==> entities.remove(id) == entities,
        entities.remove(id).remove(id) == entities.remove(id),
{
    if !entities.contains_key(id) {
        assert(entities.remove(id) =~= entities);
    }
    assert(entities.remove(id).remove(id) =~= entities.remove(id));
}

} // verus!
