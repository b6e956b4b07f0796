//! The per-frame view of the entity store: which entities currently carry a
//! ship, asteroid, laser or damage component, keyed by entity handle.

use vstd::prelude::*;

use crate::asteroid::Asteroid;
use crate::entity::{Entity, Vec2i};
use crate::laser::Laser;
use crate::player_ship::Ship;

verus! {

/// A ship entity with its current position.
#[derive(Clone, Copy, PartialEq, Eq, Structural, Debug)]
pub struct ShipEntry {
    pub entity: Entity,
    pub position: Vec2i,
    pub ship: Ship,
}

/// An asteroid entity with its current position and angular velocity
/// (milli-radians per second).
#[derive(Clone, Copy, PartialEq, Eq, Structural, Debug)]
pub struct AsteroidEntry {
    pub entity: Entity,
    pub position: Vec2i,
    pub angular_velocity: i64,
    pub asteroid: Asteroid,
}

/// A laser entity with its current position.
#[derive(Clone, Copy, PartialEq, Eq, Structural, Debug)]
pub struct LaserEntry {
    pub entity: Entity,
    pub position: Vec2i,
    pub laser: Laser,
}

/// A damage-carrying entity.
#[derive(Clone, Copy, PartialEq, Eq, Structural, Debug)]
pub struct DamageEntry {
    pub entity: Entity,
    pub damage: crate::player_ship::Damage,
}

/// The component membership a resolution pass works against.
pub struct World {
    pub ships: Vec<ShipEntry>,
    pub asteroids: Vec<AsteroidEntry>,
    pub lasers: Vec<LaserEntry>,
    pub damages: Vec<DamageEntry>,
}

impl World {
    /// Structural well-formedness: every timer is consistent and every
    /// position within the world's coordinate limits.
    pub open spec fn wf(self) -> bool {
        &&& forall|i: int|
            0 <= i < self.ships@.len() ==> (#[trigger] self.ships@[i]).ship.wf()
                && self.ships@[i].position.wf()
        &&& forall|i: int|
            0 <= i < self.asteroids@.len() ==> (#[trigger] self.asteroids@[i]).position.wf()
        &&& forall|i: int|
            0 <= i < self.lasers@.len() ==> (#[trigger] self.lasers@[i]).position.wf()
                && self.lasers@[i].laser.despawn_timer.wf()
    }

    /// Runtime check of `wf`, for unverified callers.
    pub fn check_wf(&self) -> (b: bool)
        ensures
            b == self.wf(),
    {
        let mut i: usize = 0;
        while i < self.ships.len()
            invariant
                i <= self.ships@.len(),
                forall|j: int|
                    0 <= j < i ==> (#[trigger] self.ships@[j]).ship.wf()
                        && self.ships@[j].position.wf(),
            decreases self.ships@.len() - i,
        {
            let entry = self.ships[i];
            if !(entry.ship.check_wf() && entry.position.check_wf()) {
                return false;
            }
            i = i + 1;
        }
        let mut i: usize = 0;
        while i < self.asteroids.len()
            invariant
                i <= self.asteroids@.len(),
                forall|j: int|
                    0 <= j < self.ships@.len() ==> (#[trigger] self.ships@[j]).ship.wf()
                        && self.ships@[j].position.wf(),
                forall|j: int| 0 <= j < i ==> (#[trigger] self.asteroids@[j]).position.wf(),
            decreases self.asteroids@.len() - i,
        {
            let entry = self.asteroids[i];
            if !entry.position.check_wf() {
                return false;
            }
            i = i + 1;
        }
        let mut i: usize = 0;
        while i < self.lasers.len()
            invariant
                i <= self.lasers@.len(),
                forall|j: int|
                    0 <= j < self.ships@.len() ==> (#[trigger] self.ships@[j]).ship.wf()
                        && self.ships@[j].position.wf(),
                forall|j: int|
                    0 <= j < self.asteroids@.len() ==> (#[trigger] self.asteroids@[j]).position.wf(),
                forall|j: int|
                    0 <= j < i ==> (#[trigger] self.lasers@[j]).position.wf()
                        && self.lasers@[j].laser.despawn_timer.wf(),
            decreases self.lasers@.len() - i,
        {
            let entry = self.lasers[i];
            if !(entry.position.check_wf() && entry.laser.despawn_timer.check_wf()) {
                return false;
            }
            i = i + 1;
        }
        true
    }
}

/// The running score: a monotonically non-decreasing counter, incremented
/// only when a laser destroys an asteroid.
#[derive(Clone, Copy, PartialEq, Eq, Structural, Debug)]
pub struct Arena {
    pub score: u64,
}

/// Index of the first ship entry for `e`, or -1 when none carries a ship
/// component.
pub open spec fn spec_find_ship(ships: Seq<ShipEntry>, e: Entity) -> int
    decreases ships.len(),
{
    if ships.len() == 0 {
        -1
    } else if ships[0].entity == e {
        0
    } else if spec_find_ship(ships.drop_first(), e) < 0 {
        -1
    } else {
        spec_find_ship(ships.drop_first(), e) + 1
    }
}

/// Index of the first asteroid entry for `e`, or -1.
pub open spec fn spec_find_asteroid(asteroids: Seq<AsteroidEntry>, e: Entity) -> int
    decreases asteroids.len(),
{
    if asteroids.len() == 0 {
        -1
    } else if asteroids[0].entity == e {
        0
    } else if spec_find_asteroid(asteroids.drop_first(), e) < 0 {
        -1
    } else {
        spec_find_asteroid(asteroids.drop_first(), e) + 1
    }
}

/// Index of the first laser entry for `e`, or -1.
pub open spec fn spec_find_laser(lasers: Seq<LaserEntry>, e: Entity) -> int
    decreases lasers.len(),
{
    if lasers.len() == 0 {
        -1
    } else if lasers[0].entity == e {
        0
    } else if spec_find_laser(lasers.drop_first(), e) < 0 {
        -1
    } else {
        spec_find_laser(lasers.drop_first(), e) + 1
    }
}

/// Index of the first damage entry for `e`, or -1.
pub open spec fn spec_find_damage(damages: Seq<DamageEntry>, e: Entity) -> int
    decreases damages.len(),
{
    if damages.len() == 0 {
        -1
    } else if damages[0].entity == e {
        0
    } else if spec_find_damage(damages.drop_first(), e) < 0 {
        -1
    } else {
        spec_find_damage(damages.drop_first(), e) + 1
    }
}

/// What the first-match index means: a non-negative result points at the
/// first entry for the entity, a negative result says there is none.
pub proof fn lemma_find_ship(ships: Seq<ShipEntry>, e: Entity)
    ensures
        spec_find_ship(ships, e) >= 0 ==> spec_find_ship(ships, e) < ships.len()
            && ships[spec_find_ship(ships, e)].entity == e && forall|j: int|
            0 <= j < spec_find_ship(ships, e) ==> (#[trigger] ships[j]).entity != e,
        spec_find_ship(ships, e) < 0 ==> forall|j: int|
            0 <= j < ships.len() ==> (#[trigger] ships[j]).entity != e,
    decreases ships.len(),
{
    if ships.len() > 0 && ships[0].entity != e {
        lemma_find_ship(ships.drop_first(), e);
        assert(forall|j: int|
            1 <= j < ships.len() ==> #[trigger] ships[j] == ships.drop_first()[j - 1]);
    }
}

pub proof fn lemma_find_asteroid(asteroids: Seq<AsteroidEntry>, e: Entity)
    ensures
        spec_find_asteroid(asteroids, e) >= 0 ==> spec_find_asteroid(asteroids, e)
            < asteroids.len() && asteroids[spec_find_asteroid(asteroids, e)].entity == e
            && forall|j: int|
            0 <= j < spec_find_asteroid(asteroids, e) ==> (#[trigger] asteroids[j]).entity != e,
        spec_find_asteroid(asteroids, e) < 0 ==> forall|j: int|
            0 <= j < asteroids.len() ==> (#[trigger] asteroids[j]).entity != e,
    decreases asteroids.len(),
{
    if asteroids.len() > 0 && asteroids[0].entity != e {
        lemma_find_asteroid(asteroids.drop_first(), e);
        assert(forall|j: int|
            1 <= j < asteroids.len() ==> #[trigger] asteroids[j] == asteroids.drop_first()[j
                - 1]);
    }
}

pub proof fn lemma_find_laser(lasers: Seq<LaserEntry>, e: Entity)
    ensures
        spec_find_laser(lasers, e) >= 0 ==> spec_find_laser(lasers, e) < lasers.len()
            && lasers[spec_find_laser(lasers, e)].entity == e && forall|j: int|
            0 <= j < spec_find_laser(lasers, e) ==> (#[trigger] lasers[j]).entity != e,
        spec_find_laser(lasers, e) < 0 ==> forall|j: int|
            0 <= j < lasers.len() ==> (#[trigger] lasers[j]).entity != e,
    decreases lasers.len(),
{
    if lasers.len() > 0 && lasers[0].entity != e {
        lemma_find_laser(lasers.drop_first(), e);
        assert(forall|j: int|
            1 <= j < lasers.len() ==> #[trigger] lasers[j] == lasers.drop_first()[j - 1]);
    }
}

pub proof fn lemma_find_damage(damages: Seq<DamageEntry>, e: Entity)
    ensures
        spec_find_damage(damages, e) >= 0 ==> spec_find_damage(damages, e) < damages.len()
            && damages[spec_find_damage(damages, e)].entity == e && forall|j: int|
            0 <= j < spec_find_damage(damages, e) ==> (#[trigger] damages[j]).entity != e,
        spec_find_damage(damages, e) < 0 ==> forall|j: int|
            0 <= j < damages.len() ==> (#[trigger] damages[j]).entity != e,
    decreases damages.len(),
{
    if damages.len() > 0 && damages[0].entity != e {
        lemma_find_damage(damages.drop_first(), e);
        assert(forall|j: int|
            1 <= j < damages.len() ==> #[trigger] damages[j] == damages.drop_first()[j - 1]);
    }
}

/// First ship entry for `e`, if any.
pub fn find_ship(ships: &Vec<ShipEntry>, e: Entity) -> (r: Option<usize>)
    ensures
        match r {
            Some(i) => i == spec_find_ship(ships@, e),
            None => spec_find_ship(ships@, e) < 0,
        },
{
    proof {
        lemma_find_ship(ships@, e);
    }
    let mut i: usize = 0;
    while i < ships.len()
        invariant
            i <= ships@.len(),
            forall|j: int| 0 <= j < i ==> (#[trigger] ships@[j]).entity != e,
            spec_find_ship(ships@, e) >= 0 ==> spec_find_ship(ships@, e) < ships@.len()
                && ships@[spec_find_ship(ships@, e)].entity == e && forall|j: int|
                0 <= j < spec_find_ship(ships@, e) ==> (#[trigger] ships@[j]).entity != e,
            spec_find_ship(ships@, e) < 0 ==> forall|j: int|
                0 <= j < ships@.len() ==> (#[trigger] ships@[j]).entity != e,
        decreases ships@.len() - i,
    {
        if ships[i].entity == e {
            return Some(i);
        }
        i = i + 1;
    }
    None
}

/// First asteroid entry for `e`, if any.
pub fn find_asteroid(asteroids: &Vec<AsteroidEntry>, e: Entity) -> (r: Option<usize>)
    ensures
        match r {
            Some(i) => i == spec_find_asteroid(asteroids@, e),
            None => spec_find_asteroid(asteroids@, e) < 0,
        },
{
    proof {
        lemma_find_asteroid(asteroids@, e);
    }
    let mut i: usize = 0;
    while i < asteroids.len()
        invariant
            i <= asteroids@.len(),
            forall|j: int| 0 <= j < i ==> (#[trigger] asteroids@[j]).entity != e,
            spec_find_asteroid(asteroids@, e) >= 0 ==> spec_find_asteroid(asteroids@, e)
                < asteroids@.len() && asteroids@[spec_find_asteroid(asteroids@, e)].entity == e
                && forall|j: int|
                0 <= j < spec_find_asteroid(asteroids@, e) ==> (#[trigger] asteroids@[j]).entity
                    != e,
            spec_find_asteroid(asteroids@, e) < 0 ==> forall|j: int|
                0 <= j < asteroids@.len() ==> (#[trigger] asteroids@[j]).entity != e,
        decreases asteroids@.len() - i,
    {
        if asteroids[i].entity == e {
            return Some(i);
        }
        i = i + 1;
    }
    None
}

/// First laser entry for `e`, if any.
pub fn find_laser(lasers: &Vec<LaserEntry>, e: Entity) -> (r: Option<usize>)
    ensures
        match r {
            Some(i) => i == spec_find_laser(lasers@, e),
            None => spec_find_laser(lasers@, e) < 0,
        },
{
    proof {
        lemma_find_laser(lasers@, e);
    }
    let mut i: usize = 0;
    while i < lasers.len()
        invariant
            i <= lasers@.len(),
            forall|j: int| 0 <= j < i ==> (#[trigger] lasers@[j]).entity != e,
            spec_find_laser(lasers@, e) >= 0 ==> spec_find_laser(lasers@, e) < lasers@.len()
                && lasers@[spec_find_laser(lasers@, e)].entity == e && forall|j: int|
                0 <= j < spec_find_laser(lasers@, e) ==> (#[trigger] lasers@[j]).entity != e,
            spec_find_laser(lasers@, e) < 0 ==> forall|j: int|
                0 <= j < lasers@.len() ==> (#[trigger] lasers@[j]).entity != e,
        decreases lasers@.len() - i,
    {
        if lasers[i].entity == e {
            return Some(i);
        }
        i = i + 1;
    }
    None
}

/// First damage entry for `e`, if any.
pub fn find_damage(damages: &Vec<DamageEntry>, e: Entity) -> (r: Option<usize>)
    ensures
        match r {
            Some(i) => i == spec_find_damage(damages@, e),
            None => spec_find_damage(damages@, e) < 0,
        },
{
    proof {
        lemma_find_damage(damages@, e);
    }
    let mut i: usize = 0;
    while i < damages.len()
        invariant
            i <= damages@.len(),
            forall|j: int| 0 <= j < i ==> (#[trigger] damages@[j]).entity != e,
            spec_find_damage(damages@, e) >= 0 ==> spec_find_damage(damages@, e)
                < damages@.len() && damages@[spec_find_damage(damages@, e)].entity == e
                && forall|j: int|
                0 <= j < spec_find_damage(damages@, e) ==> (#[trigger] damages@[j]).entity != e,
            spec_find_damage(damages@, e) < 0 ==> forall|j: int|
                0 <= j < damages@.len() ==> (#[trigger] damages@[j]).entity != e,
        decreases damages@.len() - i,
    {
        if damages[i].entity == e {
            return Some(i);
        }
        i = i + 1;
    }
    None
}

} // verus!
