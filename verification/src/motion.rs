//! The motion integrator: one fixed step for every projectile, then removal of
//! those that have left the scene by more than the margin.

use crate::entity::{Entity, Position, Projectile};
use crate::store::{EntityStore, Identity};
use crate::units::{
    offset, saturate, GAME_SIZE, STEPS_PER_SECOND, TICKS_PER_UNIT, VELOCITY_SCALE,
};
use vstd::prelude::*;

verus! {

/// Units travelled along x in one second at a velocity of one.
pub const HORIZONTAL_GAIN: i64 = 50;

/// Units travelled along y in one second at a velocity of one.
pub const VERTICAL_GAIN: i64 = 100;

/// How far beyond the edge of the scene a projectile may go, in ticks.
pub const MARGIN: i64 = 200 * TICKS_PER_UNIT;

/// `projectile` one step later. A coordinate stops at the end of the `i64`
/// range.
pub open spec fn moved(projectile: Projectile) -> Projectile {
    Projectile {
        position: Position {
            x: saturate(projectile.position.x + HORIZONTAL_GAIN * projectile.velocity.x),
            y: saturate(projectile.position.y + VERTICAL_GAIN * projectile.velocity.y),
        },
        ..projectile
    }
}

/// Whether `position` lies beyond the margin around the scene on any axis.
pub open spec fn spec_out_of_bounds(position: Position) -> bool {
    ||| position.y > GAME_SIZE.1 / 2 + MARGIN
    ||| position.y < -(GAME_SIZE.1 / 2) - MARGIN
    ||| position.x > GAME_SIZE.0 / 2 + MARGIN
    ||| position.x < -(GAME_SIZE.0 / 2) - MARGIN
}

/// Whether `projectile` is to be removed where it stands.
pub open spec fn spec_expired(projectile: Projectile) -> bool {
    projectile.auto_despawn && spec_out_of_bounds(projectile.position)
}

/// `entity` one step later: a projectile has moved, the anchor has not.
pub open spec fn advanced(entity: Entity) -> Entity {
    match entity {
        Entity::Player { position } => entity,
        Entity::Projectile(projectile) => Entity::Projectile(moved(projectile)),
    }
}

/// Whether `entity` is a projectile that is to be removed where it stands.
pub open spec fn spec_gone(entity: Entity) -> bool {
    match entity {
        Entity::Player { position } => false,
        Entity::Projectile(projectile) => spec_expired(projectile),
    }
}

/// The entities one frame later: each advanced, and those dropped that are to
/// be removed where they then stand.
pub open spec fn stepped(entities: Map<Identity, Entity>) -> Map<Identity, Entity> {
    Map::new(
        |id: Identity| entities.contains_key(id) && !spec_gone(advanced(entities[id])),
        |id: Identity| advanced(entities[id]),
    )
}

/// Whether `position` lies beyond the margin around the scene on any axis.
#[verifier::when_used_as_spec(spec_out_of_bounds)]
pub fn out_of_bounds(position: Position) -> (out: bool)
    ensures
        out == spec_out_of_bounds(position),
{
    position.y > GAME_SIZE.1 / 2 + MARGIN || position.y < -(GAME_SIZE.1 / 2) - MARGIN || position.x
        > GAME_SIZE.0 / 2 + MARGIN || position.x < -(GAME_SIZE.0 / 2) - MARGIN
}

/// Moves `projectile` by its velocity over one step.
pub fn integrate(projectile: Projectile) -> (after: Projectile)
    ensures
        after == moved(projectile),
{
    let x = offset(projectile.position.x, HORIZONTAL_GAIN * (projectile.velocity.x as i64));
    let y = offset(projectile.position.y, VERTICAL_GAIN * (projectile.velocity.y as i64));
    Projectile {
        position: Position { x, y },
        depth: projectile.depth,
        velocity: projectile.velocity,
        auto_despawn: projectile.auto_despawn,
        kind: projectile.kind,
    }
}

/// Moves `entity` over one step if it is a projectile.
pub fn advance(entity: Entity) -> (after: Entity)
    ensures
        after == advanced(entity),
{
    match entity {
        Entity::Player { position } => Entity::Player { position },
        Entity::Projectile(projectile) => Entity::Projectile(integrate(projectile)),
    }
}

/// Whether `entity` is a projectile that is to be removed where it stands.
#[verifier::when_used_as_spec(spec_gone)]
pub fn gone(entity: Entity) -> (gone: bool)
    ensures
        gone == spec_gone(entity),
{
    match entity {
        Entity::Player { position } => false,
        Entity::Projectile(projectile) => projectile.auto_despawn && out_of_bounds(
            projectile.position,
        ),
    }
}

/// Runs one frame of motion: every projectile moves by one step, and those
/// that then lie beyond the margin and are marked for it are removed. Returns
/// the identities that were removed, each once, by rising slot.
pub fn moveable_system(store: &mut EntityStore) -> (removed: Vec<Identity>)
    requires
        old(store).wf(),
    ensures
        final(store).wf(),
        final(store).issued() == old(store).issued(),
        final(store)@ == stepped(old(store)@),
        forall|id: Identity|
            removed@.contains(id) <==> old(store)@.contains_key(id) && !final(store)@.contains_key(
                id,
            ),
        forall|j: int, k: int| 0 <= j < k < removed.len() ==> removed[j].index < removed[k].index,
        removed@.no_duplicates(),
{
    store.for_each_mut(advance);
    let ghost mid = store@;
    assert forall|id: Identity| mid.contains_key(id) implies mid[id] == advanced(
        old(store)@[id],
    ) by {
        assert(old(store)@.contains_key(id));
    }
    let ids = store.ids();
    assert forall|k: int| 0 <= k < ids.len() implies store@.contains_key(#[trigger] ids[k]) by {
        assert(ids@.contains(ids[k]));
    }
    let mut removed: Vec<Identity> = Vec::new();
    let mut next: usize = 0;
    while next < ids.len()
        invariant
            next <= ids.len(),
            store.wf(),
            store.issued() == old(store).issued(),
            ids@.no_duplicates(),
            forall|j: int, k: int| 0 <= j < k < ids.len() ==> ids[j].index < ids[k].index,
            forall|r: int, k: int|
                0 <= r < removed.len() && next <= k < ids.len() ==> removed[r].index
                    < ids[k].index,
            forall|j: int, k: int|
                0 <= j < k < removed.len() ==> removed[j].index < removed[k].index,
            forall|id: Identity| ids@.contains(id) <==> mid.contains_key(id),
            forall|id: Identity| #[trigger]
                store@.contains_key(id) ==> mid.contains_key(id) && store@[id] == mid[id],
            forall|k: int|
                0 <= k < next ==> (store@.contains_key(#[trigger] ids[k]) <==> !spec_gone(
                    mid[ids[k]],
                )),
            forall|k: int| next <= k < ids.len() ==> store@.contains_key(#[trigger] ids[k]),
            forall|k: int|
                0 <= k < next && spec_gone(mid[#[trigger] ids[k]]) ==> removed@.contains(ids[k]),
            forall|r: int|
                0 <= r < removed.len() ==> mid.contains_key(#[trigger] removed[r])
                    && !store@.contains_key(removed[r]),
            removed@.no_duplicates(),
        decreases ids.len() - next,
    {
        let id = ids[next];
        let ghost before = store@;
        let ghost listed = removed@;
        assert(ids@.contains(id));
        if let Some(entity) = store.get(id) {
            if gone(entity) {
                store.remove(id);
                removed.push(id);
                assert(removed@[listed.len() as int] == id);
                assert forall|k: int| 0 <= k < next && spec_gone(mid[#[trigger] ids[k]])
                    implies removed@.contains(ids[k]) by {
                    let r = choose|r: int| 0 <= r < listed.len() && listed[r] == ids[k];
                    assert(removed@[r] == ids[k]);
                }
            }
        }
        next += 1;
    }
    assert(store@ =~= stepped(old(store)@)) by {
        assert forall|id: Identity| stepped(old(store)@).contains_key(id) implies store@
            .contains_key(id) by {
            assert(ids@.contains(id));
            let k = choose|k: int| 0 <= k < ids.len() && ids[k] == id;
            assert(store@.contains_key(ids[k]));
        }
        assert forall|id: Identity| store@.contains_key(id) implies stepped(old(store)@)
            .contains_key(id) by {
            assert(ids@.contains(id));
            let k = choose|k: int| 0 <= k < ids.len() && ids[k] == id;
            assert(!spec_gone(mid[ids[k]]));
        }
    }
    assert forall|id: Identity|
        old(store)@.contains_key(id) && !store@.contains_key(id) implies removed@.contains(id) by {
        assert(ids@.contains(id));
        let k = choose|k: int| 0 <= k < ids.len() && ids[k] == id;
        assert(spec_gone(mid[ids[k]]));
    }
    removed
}

/// `projectile` after `steps` steps.
pub open spec fn moved_by(projectile: Projectile, steps: nat) -> Projectile
    decreases steps,
{
    if steps == 0 {
        projectile
    } else {
        moved(moved_by(projectile, (steps - 1) as nat))
    }
}

/// The entities after `frames` frames of motion.
pub open spec fn stepped_by(entities: Map<Identity, Entity>, frames: nat) -> Map<Identity, Entity>
    decreases frames,
{
    if frames == 0 {
        entities
    } else {
        stepped(stepped_by(entities, (frames - 1) as nat))
    }
}

/// One step adds fifty times the horizontal and a hundred times the vertical
/// velocity, over sixty: exactly, wherever the sums can be held. In ticks and
/// velocity quanta the sixtieth is part of the unit.
pub proof fn lemma_step_is_exact(projectile: Projectile)
    requires
        i64::MIN <= projectile.position.x + HORIZONTAL_GAIN * projectile.velocity.x <= i64::MAX,
        i64::MIN <= projectile.position.y + VERTICAL_GAIN * projectile.velocity.y <= i64::MAX,
    ensures
        moved(projectile).position.x == projectile.position.x + 50 * projectile.velocity.x,
        moved(projectile).position.y == projectile.position.y + 100 * projectile.velocity.y,
        (moved(projectile).position.x - projectile.position.x) * VELOCITY_SCALE * STEPS_PER_SECOND
            == 50 * projectile.velocity.x * TICKS_PER_UNIT,
        (moved(projectile).position.y - projectile.position.y) * VELOCITY_SCALE * STEPS_PER_SECOND
            == 100 * projectile.velocity.y * TICKS_PER_UNIT,
{
}

/// A projectile within the margin moves by the exact amount: its coordinates
/// are far from the ends of the range.
pub proof fn lemma_step_within_bounds_is_exact(projectile: Projectile)
    requires
        !spec_out_of_bounds(projectile.position),
    ensures
        moved(projectile).position.x == projectile.position.x + 50 * projectile.velocity.x,
        moved(projectile).position.y == projectile.position.y + 100 * projectile.velocity.y,
{
}

/// Motion changes nothing of a projectile but its position.
pub proof fn lemma_motion_keeps_the_rest(projectile: Projectile, steps: nat)
    ensures
        moved_by(projectile, steps).kind == projectile.kind,
        moved_by(projectile, steps).velocity == projectile.velocity,
        moved_by(projectile, steps).depth == projectile.depth,
        moved_by(projectile, steps).auto_despawn == projectile.auto_despawn,
    decreases steps,
{
    if steps > 0 {
        lemma_motion_keeps_the_rest(projectile, (steps - 1) as nat);
    }
}

/// Steps do not drift: after any number of them a projectile stands where it
/// stood plus that many exact steps, wherever that place can be held.
pub proof fn lemma_steps_are_exact(projectile: Projectile, steps: nat)
    requires
        i64::MIN <= projectile.position.x + steps * (50 * projectile.velocity.x) <= i64::MAX,
        i64::MIN <= projectile.position.y + steps * (100 * projectile.velocity.y) <= i64::MAX,
    ensures
        moved_by(projectile, steps).position.x == projectile.position.x + steps * (50
            * projectile.velocity.x),
        moved_by(projectile, steps).position.y == projectile.position.y + steps * (100
            * projectile.velocity.y),
    decreases steps,
{
    let dx = 50 * projectile.velocity.x;
    let dy = 100 * projectile.velocity.y;
    if steps == 0 {
        assert(steps * dx == 0 && steps * dy == 0) by (nonlinear_arith)
            requires
                steps == 0,
        ;
    } else {
        let earlier = (steps - 1) as nat;
        assert(steps * dx == earlier * dx + dx && steps * dy == earlier * dy + dy)
            by (nonlinear_arith)
            requires
                earlier == steps - 1,
        ;
        assert((dx >= 0 ==> earlier * dx >= 0) && (dx <= 0 ==> earlier * dx <= 0))
            by (nonlinear_arith);
        assert((dy >= 0 ==> earlier * dy >= 0) && (dy <= 0 ==> earlier * dy <= 0))
            by (nonlinear_arith);
        lemma_steps_are_exact(projectile, earlier);
        lemma_motion_keeps_the_rest(projectile, earlier);
    }
}

/// The integrator never removes or moves the anchor, wherever it stands and
/// however many frames pass.
pub proof fn lemma_player_is_kept(entities: Map<Identity, Entity>, id: Identity, frames: nat)
    requires
        entities.contains_key(id),
        entities[id] is Player,
    ensures
        stepped_by(entities, frames).contains_key(id),
        stepped_by(entities, frames)[id] == entities[id],
    decreases frames,
{
    if frames > 0 {
        lemma_player_is_kept(entities, id, (frames - 1) as nat);
    }
}

/// A projectile keeps its kind, with its velocity, layer and removal mark, for
/// as long as it lives, and motion turns no entity into one of the other sort.
pub proof fn lemma_kind_is_kept(entities: Map<Identity, Entity>, id: Identity, frames: nat)
    requires
        stepped_by(entities, frames).contains_key(id),
    ensures
        entities.contains_key(id),
        entities[id] is Player ==> stepped_by(entities, frames)[id] == entities[id],
        entities[id] matches Entity::Projectile(before) ==> {
            &&& stepped_by(entities, frames)[id] == Entity::Projectile(moved_by(before, frames))
            &&& moved_by(before, frames).kind == before.kind
            &&& moved_by(before, frames).velocity == before.velocity
            &&& moved_by(before, frames).depth == before.depth
            &&& moved_by(before, frames).auto_despawn == before.auto_despawn
        },
    decreases frames,
{
    if frames > 0 {
        lemma_kind_is_kept(entities, id, (frames - 1) as nat);
    }
    if let Entity::Projectile(before) = entities[id] {
        lemma_motion_keeps_the_rest(before, frames);
    }
}

} // verus!
