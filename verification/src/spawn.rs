//! The input-to-spawn controller: a button press drops one projectile at the
//! pointer.

use crate::catalog::{GameTextures, Handle};
use crate::entity::{Entity, Kind, Position, Projectile, Velocity};
use crate::random::{gen_range, gen_ratio};
use crate::store::{EntityStore, Identity};
use crate::units::{clamp, half, saturate, spec_half, TICKS_PER_UNIT};
use rand::rngs::StdRng;
use vstd::prelude::*;

verus! {

/// Drawing layer of every projectile, in ticks.
pub const PROJECTILE_DEPTH: i64 = 10 * TICKS_PER_UNIT;

/// Least horizontal velocity of a new projectile: minus one.
pub const VEL_X_MIN: i32 = -1_000_000;

/// The horizontal velocity of a new projectile stays below this: one.
pub const VEL_X_END: i32 = 1_000_000;

/// Least vertical velocity of a new projectile: minus one.
pub const VEL_Y_MIN: i32 = -1_000_000;

/// The vertical velocity of a new projectile stays below this: minus a fifth.
pub const VEL_Y_END: i32 = -200_000;

/// A new projectile is chicken-like `CHICKEN_ODDS.0` times in `CHICKEN_ODDS.1`.
pub const CHICKEN_ODDS: (u32, u32) = (1, 3);

/// What the host reports of the pointer for one frame.
#[derive(Clone, Copy, Debug)]
pub struct PointerInput {
    /// Where the pointer is, in ticks from the window's lower left corner, or
    /// `None` while it is outside the window.
    pub cursor: Option<Position>,
    /// Width and height of the window, in ticks.
    pub window: (i64, i64),
    /// The first button went down in this frame.
    pub left_just_pressed: bool,
    /// The second button went down in this frame.
    pub right_just_pressed: bool,
}

/// A projectile that was added to the store, with what the host shows and plays
/// for it.
#[derive(Clone, Copy, Debug, PartialEq, Eq, Structural)]
pub struct Spawned {
    pub id: Identity,
    pub projectile: Projectile,
    /// The image to draw at the projectile's position.
    pub sprite: Handle,
    /// The sound to play once.
    pub sound: Handle,
}

/// The pointer's place relative to the middle of the window; the centre of the
/// scene while the pointer is away.
pub open spec fn spec_scene_position(cursor: Option<Position>, window: (i64, i64)) -> Position {
    match cursor {
        Some(at) => Position {
            x: saturate(at.x - spec_half(window.0)),
            y: saturate(at.y - spec_half(window.1)),
        },
        None => Position::spec_origin(),
    }
}

/// The kind that a draw of `is_chicken` stands for.
pub open spec fn spec_kind_of(is_chicken: bool) -> Kind {
    if is_chicken {
        Kind::ChickenLike
    } else {
        Kind::DogLike
    }
}

/// The projectile that a press makes at `position`.
pub open spec fn new_projectile(position: Position, velocity: Velocity, kind: Kind) -> Projectile {
    Projectile { position, depth: PROJECTILE_DEPTH, velocity, auto_despawn: true, kind }
}

/// Whether `velocity` is one that a press can draw.
pub open spec fn drawable(velocity: Velocity) -> bool {
    &&& VEL_X_MIN <= velocity.x < VEL_X_END
    &&& VEL_Y_MIN <= velocity.y < VEL_Y_END
}

impl PointerInput {
    /// Whether any of the buttons went down in this frame.
    pub open spec fn spec_pressed(&self) -> bool {
        self.left_just_pressed || self.right_just_pressed
    }

    /// Whether any of the buttons went down in this frame.
    #[verifier::when_used_as_spec(spec_pressed)]
    pub fn pressed(&self) -> (pressed: bool)
        ensures
            pressed == self.spec_pressed(),
    {
        self.left_just_pressed || self.right_just_pressed
    }
}

/// Whether `after` is `before` with the one projectile of `spawned` added under
/// a fresh identity, and `spawned` names the image and sound of its kind.
pub open spec fn spawn_of(
    before: EntityStore,
    after: EntityStore,
    textures: GameTextures,
    spawned: Spawned,
) -> bool {
    &&& !before.issued().contains(spawned.id)
    &&& after.issued() == before.issued().insert(spawned.id)
    &&& after@ == before@.insert(spawned.id, Entity::Projectile(spawned.projectile))
    &&& spawned.sprite == textures.spec_sprite(spawned.projectile.kind)
    &&& spawned.sound == textures.spec_sound(spawned.projectile.kind)
}

/// The pointer's place relative to the middle of the window; the centre of the
/// scene while the pointer is away.
#[verifier::when_used_as_spec(spec_scene_position)]
pub fn scene_position(cursor: Option<Position>, window: (i64, i64)) -> (position: Position)
    ensures
        position == spec_scene_position(cursor, window),
{
    match cursor {
        Some(at) => {
            let x = at.x as i128 - half(window.0) as i128;
            let y = at.y as i128 - half(window.1) as i128;
            Position { x: clamp(x), y: clamp(y) }
        },
        None => Position::origin(),
    }
}

/// The kind that a draw of `is_chicken` stands for.
#[verifier::when_used_as_spec(spec_kind_of)]
pub fn kind_of(is_chicken: bool) -> (kind: Kind)
    ensures
        kind == spec_kind_of(is_chicken),
{
    if is_chicken {
        Kind::ChickenLike
    } else {
        Kind::DogLike
    }
}

/// Adds one projectile at the pointer, with the velocity and kind given.
pub fn spawn_projectile(
    store: &mut EntityStore,
    textures: &GameTextures,
    input: &PointerInput,
    velocity: Velocity,
    is_chicken: bool,
) -> (spawned: Spawned)
    requires
        old(store).wf(),
    ensures
        final(store).wf(),
        spawn_of(*old(store), *final(store), *textures, spawned),
        spawned.projectile == new_projectile(
            spec_scene_position(input.cursor, input.window),
            velocity,
            spec_kind_of(is_chicken),
        ),
{
    let kind = kind_of(is_chicken);
    let projectile = Projectile {
        position: scene_position(input.cursor, input.window),
        depth: PROJECTILE_DEPTH,
        velocity,
        auto_despawn: true,
        kind,
    };
    let id = store.insert(Entity::Projectile(projectile));
    Spawned { id, projectile, sprite: textures.sprite(kind), sound: textures.sound(kind) }
}

/// Handles the pointer for one frame. Without a press nothing happens. With a
/// press, of one button or of both, one projectile is added at the pointer, its
/// velocity and kind drawn from `rng`.
pub fn mouse_events(
    store: &mut EntityStore,
    textures: &GameTextures,
    input: &PointerInput,
    rng: &mut StdRng,
) -> (spawned: Option<Spawned>)
    requires
        old(store).wf(),
    ensures
        final(store).wf(),
        match spawned {
            Some(spawned) => {
                &&& input.spec_pressed()
                &&& spawn_of(*old(store), *final(store), *textures, spawned)
                &&& spawned.projectile == new_projectile(
                    spec_scene_position(input.cursor, input.window),
                    spawned.projectile.velocity,
                    spawned.projectile.kind,
                )
                &&& drawable(spawned.projectile.velocity)
            },
            None => {
                &&& !input.spec_pressed()
                &&& final(store)@ == old(store)@
                &&& final(store).issued() == old(store).issued()
            },
        },
{
    if !input.pressed() {
        return None;
    }
    let x = gen_range(rng, VEL_X_MIN, VEL_X_END);
    let y = gen_range(rng, VEL_Y_MIN, VEL_Y_END);
    let is_chicken = gen_ratio(rng, CHICKEN_ODDS.0, CHICKEN_ODDS.1);
    Some(spawn_projectile(store, textures, input, Velocity { x, y }, is_chicken))
}

/// A spawn adds one entity and no more: the live identities afterwards are
/// those before and the new one, which was not among them.
pub proof fn lemma_spawn_adds_one(
    before: EntityStore,
    after: EntityStore,
    textures: GameTextures,
    spawned: Spawned,
)
    requires
        spawn_of(before, after, textures, spawned),
    ensures
        !before@.contains_key(spawned.id),
        after@.dom() == before@.dom().insert(spawned.id),
        after@.dom().len() == before@.dom().len() + 1,
{
    before.lemma_live_is_issued();
    before.lemma_finite();
    assert(after@.dom() =~= before@.dom().insert(spawned.id));
}

} // verus!
