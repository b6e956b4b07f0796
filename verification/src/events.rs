//! Events the resolver emits towards the spawn-consuming collaborators.

use vstd::prelude::*;

verus! {

/// What kind of explosion effect to spawn.
#[derive(Clone, Copy, PartialEq, Eq, Structural, Debug)]
pub enum ExplosionKind {
    /// A laser destroyed an asteroid.
    LaserOnAsteroid,
    /// An asteroid hit the ship without destroying it.
    ShipContact,
    /// The ship was destroyed.
    ShipDead,
}

/// Request to spawn an explosion effect at a world position (milli-units).
#[derive(Clone, Copy, PartialEq, Eq, Structural, Debug)]
pub struct SpawnExplosionEvent {
    pub kind: ExplosionKind,
    pub x: i64,
    pub y: i64,
}

} // verus!
