//! The owning context of a running scene: the entity store and the resolved
//! textures, passed through the frame entry point.
//!
//! A world comes into being with its anchor in place, from textures that have
//! been resolved, so the anchor is placed once and only after the catalog is
//! complete.

use crate::catalog::GameTextures;
use crate::entity::{Entity, Position};
use crate::motion::{moveable_system, stepped};
use crate::spawn::{
    drawable, mouse_events, new_projectile, spec_scene_position, PointerInput, Spawned,
    PROJECTILE_DEPTH,
};
use crate::store::{EntityStore, Identity};
use rand::rngs::StdRng;
use vstd::prelude::*;

verus! {

/// A scene with its anchor and its projectiles.
pub struct World {
    store: EntityStore,
    textures: GameTextures,
    player: Identity,
}

/// What one frame did, for the host to show and play.
pub struct Frame {
    /// The projectile that the frame added, if a button went down.
    pub spawned: Option<Spawned>,
    /// The entities that the frame removed, each once, by rising slot.
    pub removed: Vec<Identity>,
}

impl View for World {
    type V = Map<Identity, Entity>;

    /// The live entities by identity.
    open spec fn view(&self) -> Map<Identity, Entity> {
        self.spec_store()@
    }
}

impl World {
    /// Every identity that the world has handed out so far.
    pub open spec fn issued(&self) -> Set<Identity> {
        self.spec_store().issued()
    }

    /// The identity of the anchor.
    pub closed spec fn spec_player(&self) -> Identity {
        self.player
    }

    /// The textures that the world was made with.
    pub closed spec fn spec_textures(&self) -> GameTextures {
        self.textures
    }

    /// The entities.
    pub closed spec fn spec_store(&self) -> EntityStore {
        self.store
    }

    /// The store is sound, the anchor stands at the centre, and it is the only
    /// anchor: every other entity is a projectile on the projectile layer that
    /// is removed once it leaves the scene.
    pub open spec fn wf(&self) -> bool {
        &&& self.spec_store().wf()
        &&& self@.contains_key(self.spec_player())
        &&& self@[self.spec_player()] == Entity::Player { position: Position::spec_origin() }
        &&& forall|id: Identity| #[trigger]
            self@.contains_key(id) && id != self.spec_player() ==> {
                &&& self@[id] matches Entity::Projectile(projectile)
                &&& projectile.auto_despawn
                &&& projectile.depth == PROJECTILE_DEPTH
            }
    }

    /// The identity of the anchor.
    #[verifier::when_used_as_spec(spec_player)]
    pub fn player(&self) -> (id: Identity)
        ensures
            id == self.spec_player(),
    {
        self.player
    }

    /// The textures that the world was made with.
    #[verifier::when_used_as_spec(spec_textures)]
    pub fn textures(&self) -> (textures: GameTextures)
        ensures
            textures == self.spec_textures(),
    {
        self.textures
    }

    /// The entities, to read.
    pub fn store(&self) -> (store: &EntityStore)
        ensures
            *store == self.spec_store(),
    {
        &self.store
    }

    /// Runs one frame: the pointer is handled first, then every projectile
    /// moves and those that have left are removed.
    pub fn frame(&mut self, input: &PointerInput, rng: &mut StdRng) -> (frame: Frame)
        requires
            old(self).wf(),
        ensures
            final(self).wf(),
            final(self).spec_player() == old(self).spec_player(),
            final(self).spec_textures() == old(self).spec_textures(),
            match frame.spawned {
                Some(spawned) => {
                    &&& input.spec_pressed()
                    &&& !old(self).issued().contains(spawned.id)
                    &&& final(self).issued() == old(self).issued().insert(spawned.id)
                    &&& final(self)@ == stepped(
                        old(self)@.insert(spawned.id, Entity::Projectile(spawned.projectile)),
                    )
                    &&& spawned.projectile == new_projectile(
                        spec_scene_position(input.cursor, input.window),
                        spawned.projectile.velocity,
                        spawned.projectile.kind,
                    )
                    &&& drawable(spawned.projectile.velocity)
                    &&& spawned.sprite == old(self).spec_textures().spec_sprite(
                        spawned.projectile.kind,
                    )
                    &&& spawned.sound == old(self).spec_textures().spec_sound(
                        spawned.projectile.kind,
                    )
                },
                None => {
                    &&& !input.spec_pressed()
                    &&& final(self).issued() == old(self).issued()
                    &&& final(self)@ == stepped(old(self)@)
                },
            },
            forall|id: Identity|
                frame.removed@.contains(id) <==> !final(self)@.contains_key(id) && (old(
                    self,
                )@.contains_key(id) || (frame.spawned is Some && frame.spawned->Some_0.id == id)),
            forall|j: int, k: int|
                0 <= j < k < frame.removed.len() ==> frame.removed[j].index
                    < frame.removed[k].index,
            frame.removed@.no_duplicates(),
    {
        let textures = self.textures;
        let spawned = mouse_events(&mut self.store, &textures, input, rng);
        let ghost mid = self.store@;
        let removed = moveable_system(&mut self.store);
        proof {
            old(self).store.lemma_live_is_issued();
            assert(mid.contains_key(self.player));
            assert(mid[self.player] == old(self)@[self.player]);
            assert forall|id: Identity| #[trigger]
                self@.contains_key(id) && id != self.player implies {
                &&& self@[id] matches Entity::Projectile(projectile)
                &&& projectile.auto_despawn
                &&& projectile.depth == PROJECTILE_DEPTH
            } by {
                assert(mid.contains_key(id));
                if !old(self)@.contains_key(id) {
                    assert(spawned is Some && spawned->Some_0.id == id);
                }
            }
        }
        Frame { spawned, removed }
    }
}

/// Places the anchor at the centre of a new scene. The anchor's image is
/// `textures.player`.
pub fn spawn_player_system(textures: GameTextures) -> (world: World)
    ensures
        world.wf(),
        world.spec_textures() == textures,
        world@ == Map::<Identity, Entity>::empty().insert(
            world.spec_player(),
            Entity::Player { position: Position::spec_origin() },
        ),
        world.issued() == Set::<Identity>::empty().insert(world.spec_player()),
{
    let mut store = EntityStore::new();
    let player = store.insert(Entity::Player { position: Position::origin() });
    World { store, textures, player }
}

} // verus!
