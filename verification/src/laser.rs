//! Laser lifecycle: spawn geometry and the time-to-live countdown.

use vstd::prelude::*;

use crate::entity::{Entity, Pose, Vec2i};
use crate::timer::Timer;
use crate::world::LaserEntry;

verus! {

/// A laser lives for two simulated seconds unless it hits something first.
pub const LASER_TTL_MS: u32 = 2000;
/// Muzzle speed along the firing direction, in milli-units per second
/// (500 world units per second).
pub const LASER_SPEED: i64 = 500_000;

/// Request that an already-removed laser's despawn be carried out; a
/// duplicate request for a removed entity is a no-op downstream.
#[derive(Clone, Copy, PartialEq, Eq, Structural, Debug)]
pub struct LaserDespawnEvent(pub Entity);

/// Request to spawn a laser from a firing entity.
#[derive(Clone, Copy, PartialEq, Eq, Structural, Debug)]
pub struct LaserSpawnEvent {
    /// The full pose (position and facing) of the laser to spawn.
    pub transform: Pose,
    /// The linear velocity of the entity emitting the laser, in milli-units
    /// per second.
    pub velocity: Vec2i,
}

/// The laser component: only its time-to-live countdown.
#[derive(Clone, Copy, PartialEq, Eq, Structural, Debug)]
pub struct Laser {
    pub despawn_timer: Timer,
}

/// Marker for the laser subsystem; the embedding application registers the
/// laser systems of this module when it installs the plugin.
pub struct LaserPlugin;

/// Everything a freshly fired laser needs: its full pose (position and
/// facing, taken from the firing transform), how it moves, its
/// time-to-live, and that its collider is a pure sensor (it reports
/// overlaps without applying forces).
#[derive(Clone, Copy, PartialEq, Eq, Structural, Debug)]
pub struct LaserSpawned {
    pub pose: Pose,
    pub velocity: Vec2i,
    pub laser: Laser,
    pub sensor: bool,
}

/// Integer division truncated toward zero, for a positive divisor.
pub open spec fn div_toward_zero(a: int, b: int) -> int {
    if a >= 0 {
        a / b
    } else {
        -((-a) / b)
    }
}

/// One component of the firer's velocity projected onto its facing axis:
/// the dot product of the velocity (milli-units per second) with the
/// per-mille facing vector, applied along the given facing component, with
/// the two per-mille scales divided back out. The fixed-point quotient is
/// truncated toward zero.
pub open spec fn spec_forward_component(velocity: Vec2i, fx: int, fy: int, axis: int) -> int {
    div_toward_zero((velocity.x * fx + velocity.y * fy) * axis, 1_000_000)
}

/// Build a laser from a fire event: the firer's velocity is projected onto
/// its local forward (facing) axis — the lateral contribution is zeroed —
/// and the muzzle speed is added along the facing direction. The
/// time-to-live timer starts from zero.
pub fn spawn_laser(event: &LaserSpawnEvent) -> (r: LaserSpawned)
    requires
        event.transform.wf(),
        event.velocity.wf(),
    ensures
        r.pose == event.transform,
        r.velocity.x == spec_forward_component(
            event.velocity,
            event.transform.facing_x as int,
            event.transform.facing_y as int,
            event.transform.facing_x as int,
        ) + event.transform.facing_x * (LASER_SPEED as int / 1000),
        r.velocity.y == spec_forward_component(
            event.velocity,
            event.transform.facing_x as int,
            event.transform.facing_y as int,
            event.transform.facing_y as int,
        ) + event.transform.facing_y * (LASER_SPEED as int / 1000),
        r.laser.despawn_timer == (Timer { duration_ms: LASER_TTL_MS, elapsed_ms: 0u32 }),
        r.sensor,
{
    let fx = event.transform.facing_x;
    let fy = event.transform.facing_y;
    proof {
        assert(-1_000_000_000_000_000 <= event.velocity.x * fx <= 1_000_000_000_000_000
            && -1_000_000_000_000_000 <= event.velocity.y * fy <= 1_000_000_000_000_000)
            by (nonlinear_arith)
            requires
                -1_000_000_000_000i64 <= event.velocity.x <= 1_000_000_000_000i64,
                -1_000_000_000_000i64 <= event.velocity.y <= 1_000_000_000_000i64,
                -1000 <= fx <= 1000,
                -1000 <= fy <= 1000,
        ;
    }
    let dot = event.velocity.x * fx + event.velocity.y * fy;
    proof {
        assert(-2_000_000_000_000_000_000 <= dot * fx <= 2_000_000_000_000_000_000
            && -2_000_000_000_000_000_000 <= dot * fy <= 2_000_000_000_000_000_000)
            by (nonlinear_arith)
            requires
                -2_000_000_000_000_000i64 <= dot <= 2_000_000_000_000_000i64,
                -1000 <= fx <= 1000,
                -1000 <= fy <= 1000,
        ;
    }
    let px = div_scaled(dot * fx);
    let py = div_scaled(dot * fy);
    let muzzle: i64 = LASER_SPEED / 1000;
    LaserSpawned {
        pose: event.transform,
        velocity: Vec2i { x: px + fx * muzzle, y: py + fy * muzzle },
        laser: Laser { despawn_timer: Timer::from_ms(LASER_TTL_MS) },
        sensor: true,
    }
}

/// Divide the fixed-point numerator back down by the two per-mille scales,
/// truncating toward zero.
fn div_scaled(a: i64) -> (q: i64)
    requires
        -4_000_000_000_000_000_000 <= a <= 4_000_000_000_000_000_000,
    ensures
        q == div_toward_zero(a as int, 1_000_000),
{
    if a >= 0 {
        a / 1_000_000
    } else {
        -((-a) / 1_000_000)
    }
}

/// A laser entry after its time-to-live ticked by one frame delta.
pub open spec fn spec_tick_laser(entry: LaserEntry, delta_ms: u32) -> LaserEntry {
    LaserEntry {
        laser: Laser { despawn_timer: entry.laser.despawn_timer.spec_advance(delta_ms) },
        ..entry
    }
}

/// The entities of the lasers whose time-to-live runs out during a tick of
/// `delta_ms`, in entry order.
pub open spec fn spec_timed_out(lasers: Seq<LaserEntry>, delta_ms: u32) -> Seq<Entity>
    decreases lasers.len(),
{
    if lasers.len() == 0 {
        Seq::empty()
    } else {
        let rest = spec_timed_out(lasers.drop_last(), delta_ms);
        if lasers.last().laser.despawn_timer.spec_advance(delta_ms).spec_finished() {
            rest.push(lasers.last().entity)
        } else {
            rest
        }
    }
}

/// Advance every laser's time-to-live by the frame's elapsed time and
/// request the despawn of each laser whose time has run out.
pub fn laser_timeout_system(lasers: &mut Vec<LaserEntry>, delta_ms: u32) -> (despawn: Vec<Entity>)
    requires
        forall|i: int|
            0 <= i < old(lasers)@.len() ==> #[trigger] old(lasers)@[i].laser.despawn_timer.wf(),
    ensures
        final(lasers)@.len() == old(lasers)@.len(),
        forall|i: int|
            0 <= i < old(lasers)@.len() ==> #[trigger] final(lasers)@[i] == spec_tick_laser(
                old(lasers)@[i],
                delta_ms,
            ),
        despawn@ == spec_timed_out(old(lasers)@, delta_ms),
{
    let ghost orig = lasers@;
    let mut despawn: Vec<Entity> = Vec::new();
    let mut i: usize = 0;
    while i < lasers.len()
        invariant
            i <= orig.len(),
            lasers@.len() == orig.len(),
            forall|j: int| 0 <= j < orig.len() ==> #[trigger] orig[j].laser.despawn_timer.wf(),
            forall|j: int|
                0 <= j < i ==> #[trigger] lasers@[j] == spec_tick_laser(orig[j], delta_ms),
            forall|j: int| i <= j < orig.len() ==> #[trigger] lasers@[j] == orig[j],
            despawn@ == spec_timed_out(orig.take(i as int), delta_ms),
        decreases orig.len() - i,
    {
        let mut entry = lasers[i];
        entry.laser.despawn_timer.advance(delta_ms);
        lasers[i] = entry;
        if entry.laser.despawn_timer.finished() {
            despawn.push(entry.entity);
        }
        proof {
            assert(orig.take(i + 1).drop_last() =~= orig.take(i as int));
            assert(orig.take(i + 1).last() == orig[i as int]);
        }
        i = i + 1;
    }
    proof {
        assert(orig.take(orig.len() as int) =~= orig);
    }
    despawn
}

/// A laser that nothing touches despawns at or after its two seconds of
/// time-to-live, never before: a fresh laser's timer finishes exactly when
/// the total simulated time that has passed reaches the time-to-live.
pub proof fn lemma_laser_ttl(total_elapsed_ms: u32)
    ensures
        (Timer { duration_ms: LASER_TTL_MS, elapsed_ms: 0u32 }).spec_advance(
            total_elapsed_ms,
        ).spec_finished() <==> total_elapsed_ms >= LASER_TTL_MS,
{
}

/// Every laser whose advanced timer has finished is among the despawn
/// requests that `laser_timeout_system` issues.
pub proof fn lemma_timed_out_membership(lasers: Seq<LaserEntry>, delta_ms: u32, i: int)
    requires
        0 <= i < lasers.len(),
        lasers[i].laser.despawn_timer.spec_advance(delta_ms).spec_finished(),
    ensures
        spec_timed_out(lasers, delta_ms).contains(lasers[i].entity),
    decreases lasers.len(),
{
    let rest = spec_timed_out(lasers.drop_last(), delta_ms);
    if i == lasers.len() - 1 {
        assert(spec_timed_out(lasers, delta_ms)[rest.len() as int] == lasers[i].entity);
    } else {
        assert(lasers.drop_last()[i] == lasers[i]);
        lemma_timed_out_membership(lasers.drop_last(), delta_ms, i);
        let k = choose|k: int|
            0 <= k < rest.len() && rest[k] == lasers.drop_last()[i].entity;
        assert(spec_timed_out(lasers, delta_ms)[k] == lasers[i].entity);
    }
}

} // verus!
