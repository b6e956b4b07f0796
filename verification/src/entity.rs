//! Entity handles and fixed-point geometry.
//!
//! World coordinates, velocities and facing vectors are integers in
//! milli-units: one thousandth of a world unit. Facing vectors are unit
//! vectors scaled by 1000, so a component always lies in [-1000, 1000].

use vstd::prelude::*;

verus! {

/// Furthest coordinate or velocity component the world model admits, in
/// milli-units; keeps every position and velocity sum well inside `i64`.
pub const COORD_LIMIT: i64 = 1_000_000_000_000;

/// An opaque handle into the entity store. The generation tag distinguishes
/// a stale handle from a handle to a reused slot: two handles are the same
/// entity only if both index and generation agree.
#[derive(Clone, Copy, PartialEq, Eq, Structural, Debug)]
pub struct Entity {
    pub index: u64,
    pub generation: u32,
}

/// A point or vector of the plane in milli-units.
#[derive(Clone, Copy, PartialEq, Eq, Structural, Debug)]
pub struct Vec2i {
    pub x: i64,
    pub y: i64,
}

impl Vec2i {
    /// Both components lie within the world's coordinate limit.
    pub open spec fn wf(self) -> bool {
        &&& -COORD_LIMIT <= self.x <= COORD_LIMIT
        &&& -COORD_LIMIT <= self.y <= COORD_LIMIT
    }

    /// Runtime check of `wf`, for unverified callers.
    pub fn check_wf(&self) -> (b: bool)
        ensures
            b == self.wf(),
    {
        -COORD_LIMIT <= self.x && self.x <= COORD_LIMIT && -COORD_LIMIT <= self.y && self.y
            <= COORD_LIMIT
    }
}

/// A position together with a facing direction: the facing is a unit vector
/// scaled by 1000.
#[derive(Clone, Copy, PartialEq, Eq, Structural, Debug)]
pub struct Pose {
    pub position: Vec2i,
    /// Facing unit vector, x component, scaled by 1000.
    pub facing_x: i64,
    /// Facing unit vector, y component, scaled by 1000.
    pub facing_y: i64,
}

impl Pose {
    pub open spec fn wf(self) -> bool {
        &&& self.position.wf()
        &&& -1000 <= self.facing_x <= 1000
        &&& -1000 <= self.facing_y <= 1000
    }
}

/// A deferred instruction to remove an entity from the store, applied only
/// after the whole resolution pass; `recursive` also removes attached child
/// entities.
#[derive(Clone, Copy, PartialEq, Eq, Structural, Debug)]
pub struct DespawnRequest {
    pub entity: Entity,
    pub recursive: bool,
}

} // verus!
