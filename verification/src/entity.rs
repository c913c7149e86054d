//! The objects of the scene.

use vstd::prelude::*;

verus! {

/// What a projectile looks and sounds like. Fixed when the projectile is made.
#[derive(Clone, Copy, Debug, PartialEq, Eq, Hash, Structural)]
pub enum Kind {
    ChickenLike,
    DogLike,
}

/// A point of the scene in ticks, relative to the scene's centre.
#[derive(Clone, Copy, Debug, PartialEq, Eq, Hash, Structural)]
pub struct Position {
    pub x: i64,
    pub y: i64,
}

/// A rate of travel along each axis, in quanta of velocity.
#[derive(Clone, Copy, Debug, PartialEq, Eq, Hash, Structural)]
pub struct Velocity {
    pub x: i32,
    pub y: i32,
}

/// A short-lived object that travels at a constant velocity.
#[derive(Clone, Copy, Debug, PartialEq, Eq, Hash, Structural)]
pub struct Projectile {
    pub position: Position,
    /// Drawing layer, in ticks.
    pub depth: i64,
    pub velocity: Velocity,
    /// Whether the projectile is removed once it has left the scene.
    pub auto_despawn: bool,
    pub kind: Kind,
}

/// An object of the scene: the anchor, or a projectile.
#[derive(Clone, Copy, Debug, PartialEq, Eq, Hash, Structural)]
pub enum Entity {
    /// The anchor. It has no velocity and is never removed by the integrator.
    Player { position: Position },
    Projectile(Projectile),
}

impl Position {
    /// The centre of the scene.
    pub open spec fn spec_origin() -> Position {
        Position { x: 0, y: 0 }
    }

    /// The centre of the scene.
    #[verifier::when_used_as_spec(spec_origin)]
    pub fn origin() -> (position: Position)
        ensures
            position == Position::spec_origin(),
    {
        Position { x: 0, y: 0 }
    }
}

impl Entity {
    /// Where the entity is.
    pub open spec fn spec_position(&self) -> Position {
        match *self {
            Entity::Player { position } => position,
            Entity::Projectile(projectile) => projectile.position,
        }
    }

    /// Where the entity is.
    #[verifier::when_used_as_spec(spec_position)]
    pub fn position(&self) -> (position: Position)
        ensures
            position == self.spec_position(),
    {
        match self {
            Entity::Player { position } => *position,
            Entity::Projectile(projectile) => projectile.position,
        }
    }
}

} // verus!
