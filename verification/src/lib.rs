//! Simulation core of a small click-to-spawn scene.
//!
//! A pointer press drops a projectile into a fixed-size scene; every frame each
//! projectile moves by its velocity over one fixed step and is removed once it
//! has left the scene by more than a margin. The host supplies the frame clock,
//! the pointer and button state, and renders and plays what the core reports.

pub mod catalog;
pub mod entity;
pub mod motion;
pub mod random;
pub mod spawn;
pub mod store;
pub mod units;
pub mod world;
