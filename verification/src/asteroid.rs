//! Asteroid size taxonomy: scoring and the split fan-out rule.

use vstd::prelude::*;

verus! {

/// Arena width in milli-units (1280 world units).
pub const ARENA_WIDTH: i64 = 1_280_000;
/// Arena height in milli-units (800 world units).
pub const ARENA_HEIGHT: i64 = 800_000;

/// The three asteroid sizes, ordered Large > Medium > Small.
#[derive(Clone, Copy, PartialEq, Eq, Structural, Debug)]
pub enum AsteroidSize {
    Large,
    Medium,
    Small,
}

impl AsteroidSize {
    /// Position of the size in the size ordering; splitting strictly
    /// decreases it.
    pub open spec fn rank(self) -> nat {
        match self {
            AsteroidSize::Large => 2,
            AsteroidSize::Medium => 1,
            AsteroidSize::Small => 0,
        }
    }

    /// Score awarded for destroying an asteroid of this size: the smaller
    /// the target, the more it is worth.
    pub open spec fn spec_score(self) -> u64 {
        match self {
            AsteroidSize::Large => 10,
            AsteroidSize::Medium => 20,
            AsteroidSize::Small => 40,
        }
    }

    /// For a splittable size, the fragments' size and the radius of the disc
    /// (milli-units) within which fragments appear around the parent; the
    /// smallest size does not split.
    pub open spec fn spec_split(self) -> Option<(AsteroidSize, i64)> {
        match self {
            AsteroidSize::Large => Some((AsteroidSize::Medium, 10_000)),
            AsteroidSize::Medium => Some((AsteroidSize::Small, 5_000)),
            AsteroidSize::Small => None,
        }
    }

    pub fn score(&self) -> (s: u64)
        ensures
            s == self.spec_score(),
    {
        match self {
            AsteroidSize::Large => 10,
            AsteroidSize::Medium => 20,
            AsteroidSize::Small => 40,
        }
    }

    pub fn split(&self) -> (r: Option<(AsteroidSize, i64)>)
        ensures
            r == self.spec_split(),
    {
        match self {
            AsteroidSize::Large => Some((AsteroidSize::Medium, 10_000)),
            AsteroidSize::Medium => Some((AsteroidSize::Small, 5_000)),
            AsteroidSize::Small => None,
        }
    }
}

/// Splitting any size yields fragments strictly smaller in the size
/// ordering, with a positive split radius, and the smallest size yields no
/// fragments at all.
pub proof fn lemma_split_strictly_smaller(s: AsteroidSize)
    ensures
        match s.spec_split() {
            Some(child_radius) => child_radius.0.rank() < s.rank() && 0 < child_radius.1,
            None => s == AsteroidSize::Small,
        },
{
}

/// An asteroid: its size, and its angular velocity in milli-radians per
/// second (linear velocity lives with the physics body, not here).
#[derive(Clone, Copy, PartialEq, Eq, Structural, Debug)]
pub struct Asteroid {
    pub size: AsteroidSize,
}

/// Request to spawn an asteroid, emitted for each fragment of a split.
/// Positions are milli-units, velocities milli-units per second, angular
/// velocity milli-radians per second.
#[derive(Clone, Copy, PartialEq, Eq, Structural, Debug)]
pub struct AsteroidSpawnEvent {
    pub size: AsteroidSize,
    pub x: i64,
    pub y: i64,
    pub vx: i64,
    pub vy: i64,
    pub angvel: i64,
}

} // verus!
