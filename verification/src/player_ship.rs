//! The player ship: life, invincibility, damage application, input handling
//! and per-frame timer ticking.

use vstd::prelude::*;

use crate::entity::{Entity, Pose, Vec2i};
use crate::events::{ExplosionKind, SpawnExplosionEvent};
use crate::laser::LaserSpawnEvent;
use crate::timer::Timer;
use crate::world::ShipEntry;

verus! {

/// Life points a freshly spawned ship starts with.
pub const START_LIFE: u32 = 3;
/// Length of one invincibility window in milliseconds.
pub const INVINCIBLE_TIME_MS: u32 = 2000;
/// Cap on total accumulated invincibility in milliseconds: once reached, a
/// contact no longer refreshes the window.
pub const MAX_INVINCIBLE_TIME_MS: u32 = 5000;
/// Cannon cooldown between two laser shots in milliseconds.
pub const CANNON_COOLDOWN_MS: u32 = 200;
/// Ship rotation speed in milli-radians per second.
pub const SHIP_ROTATION_SPEED: u32 = 3000;
/// Ship thrust in Newtons.
pub const SHIP_THRUST: u32 = 300_000;

/// Inputs that drive the player ship for one frame.
#[derive(Clone, Copy, PartialEq, Eq, Structural, Debug)]
pub enum PlayerAction {
    Forward,
    RotateLeft,
    RotateRight,
    Fire,
}

/// Which of the player actions are pressed this frame.
#[derive(Clone, Copy, PartialEq, Eq, Structural, Debug)]
pub struct ShipInput {
    pub forward: bool,
    pub rotate_left: bool,
    pub rotate_right: bool,
    pub fire: bool,
}

impl ShipInput {
    /// Whether one player action is pressed this frame.
    pub fn pressed(&self, action: PlayerAction) -> (b: bool)
        ensures
            b == match action {
                PlayerAction::Forward => self.forward,
                PlayerAction::RotateLeft => self.rotate_left,
                PlayerAction::RotateRight => self.rotate_right,
                PlayerAction::Fire => self.fire,
            },
    {
        match action {
            PlayerAction::Forward => self.forward,
            PlayerAction::RotateLeft => self.rotate_left,
            PlayerAction::RotateRight => self.rotate_right,
            PlayerAction::Fire => self.fire,
        }
    }
}

/// The player ship's state. Angular speeds are milli-radians per second,
/// thrust is Newtons, times are milliseconds.
#[derive(Clone, Copy, PartialEq, Eq, Structural, Debug)]
pub struct Ship {
    /// Ship rotation speed in milli-rad/s.
    pub rotation_speed: u32,
    /// Ship thrust in N.
    pub thrust: u32,
    /// Ship life points.
    pub life: u32,
    /// Cannon cooldown timer.
    pub cannon_timer: Timer,
    /// Id of the controlling player.
    pub player_id: u32,
    /// Timer started after being hit, providing short-term invincibility.
    pub invincible_timer: Timer,
    /// Total accumulated invincibility time, growing when the window is
    /// refreshed; always below the cap.
    pub invincible_time_ms: u32,
}

impl Ship {
    pub open spec fn wf(self) -> bool {
        &&& self.cannon_timer.wf()
        &&& self.invincible_timer.wf()
        &&& self.invincible_time_ms < MAX_INVINCIBLE_TIME_MS
    }

    /// The ship is currently invincible while its invincibility timer runs.
    pub open spec fn is_invincible(self) -> bool {
        !self.invincible_timer.spec_finished()
    }

    /// Runtime check of `wf`, for unverified callers.
    pub fn check_wf(&self) -> (b: bool)
        ensures
            b == self.wf(),
    {
        self.cannon_timer.check_wf() && self.invincible_timer.check_wf()
            && self.invincible_time_ms < MAX_INVINCIBLE_TIME_MS
    }
}

/// Damage carried by anything able to hurt the ship; read-only at contact
/// time.
#[derive(Clone, Copy, PartialEq, Eq, Structural, Debug)]
pub struct Damage {
    pub value: u32,
}

/// A classified contact between the ship and a damaging entity.
#[derive(Clone, Copy, PartialEq, Eq, Structural, Debug)]
pub struct ShipAsteroidContactEvent {
    pub ship: Entity,
    pub asteroid: Entity,
}

/// Marker for the ship subsystem; the embedding application registers the
/// ship systems of this module when it installs the plugin.
pub struct PlayerShipPlugin;

/// Tag for the ship's exhaust particle effect child entity.
pub struct ExhaustEffect;

/// How one ship–asteroid contact plays out.
#[derive(Clone, Copy, PartialEq, Eq, Structural, Debug)]
pub enum DamageOutcome {
    /// The ship was invincible: no life lost.
    Absorbed,
    /// Life was lost but the ship survives.
    Hit,
    /// Life reached zero: the ship is destroyed.
    Death,
}

/// The outcome of applying one contact's damage to a ship.
pub open spec fn spec_damage_outcome(ship: Ship, value: u32) -> DamageOutcome {
    if ship.is_invincible() {
        DamageOutcome::Absorbed
    } else if ship.life <= value {
        DamageOutcome::Death
    } else {
        DamageOutcome::Hit
    }
}

/// The ship after one contact's damage is applied: outside invincibility the
/// accumulated window resets, life drops (saturating at zero) and a fresh
/// invincibility window starts; during invincibility the window is refreshed
/// only while the accumulated time is below the cap.
pub open spec fn spec_apply_damage(ship: Ship, value: u32) -> Ship {
    if !ship.is_invincible() {
        Ship {
            life: if ship.life > value {
                (ship.life - value) as u32
            } else {
                0u32
            },
            invincible_time_ms: 0,
            invincible_timer: ship.invincible_timer.spec_reset(),
            ..ship
        }
    } else if ship.invincible_time_ms + ship.invincible_timer.elapsed_ms
        < MAX_INVINCIBLE_TIME_MS {
        Ship {
            invincible_time_ms: (ship.invincible_time_ms
                + ship.invincible_timer.elapsed_ms) as u32,
            invincible_timer: ship.invincible_timer.spec_reset(),
            ..ship
        }
    } else {
        ship
    }
}

/// Apply one ship–asteroid contact to the ship: the damage-application
/// contract of the ship state machine. Emits the matching explosion event
/// and reports whether the ship died (the caller requests the despawn and
/// the game-over transition).
pub fn ship_damage(
    ship: &mut Ship,
    position: Vec2i,
    value: u32,
    explosions: &mut Vec<SpawnExplosionEvent>,
) -> (dead: bool)
    requires
        old(ship).wf(),
    ensures
        *final(ship) == spec_apply_damage(*old(ship), value),
        final(ship).wf(),
        dead == (spec_damage_outcome(*old(ship), value) == DamageOutcome::Death),
        final(explosions)@ == match spec_damage_outcome(*old(ship), value) {
            DamageOutcome::Absorbed => old(explosions)@,
            DamageOutcome::Hit => old(explosions)@.push(
                (SpawnExplosionEvent { kind: ExplosionKind::ShipContact, x: position.x, y: position.y }),
            ),
            DamageOutcome::Death => old(explosions)@.push(
                (SpawnExplosionEvent { kind: ExplosionKind::ShipDead, x: position.x, y: position.y }),
            ),
        },
{
    if ship.invincible_timer.finished() {
        ship.invincible_time_ms = 0;
        if ship.life > value {
            ship.life = ship.life - value;
        } else {
            ship.life = 0;
        }
        let dead = ship.life == 0;
        if dead {
            explosions.push(SpawnExplosionEvent {
                kind: ExplosionKind::ShipDead,
                x: position.x,
                y: position.y,
            });
        } else {
            explosions.push(SpawnExplosionEvent {
                kind: ExplosionKind::ShipContact,
                x: position.x,
                y: position.y,
            });
        }
        ship.invincible_timer.reset();
        dead
    } else {
        let accumulated: u64 = ship.invincible_time_ms as u64
            + ship.invincible_timer.elapsed() as u64;
        if accumulated < MAX_INVINCIBLE_TIME_MS as u64 {
            ship.invincible_time_ms = accumulated as u32;
            ship.invincible_timer.reset();
        }
        false
    }
}

/// The ship after a whole sequence of contacts, applied in order.
pub open spec fn spec_apply_damage_seq(ship: Ship, values: Seq<u32>) -> Ship
    decreases values.len(),
{
    if values.len() == 0 {
        ship
    } else {
        spec_apply_damage_seq(spec_apply_damage(ship, values[0]), values.drop_first())
    }
}

/// Ship life is monotonically non-increasing across any sequence of
/// ship–asteroid contacts; as an unsigned counter it can never go negative,
/// since damage saturates at zero.
pub proof fn lemma_life_monotone(ship: Ship, values: Seq<u32>)
    ensures
        spec_apply_damage_seq(ship, values).life <= ship.life,
    decreases values.len(),
{
    if values.len() > 0 {
        lemma_life_monotone(spec_apply_damage(ship, values[0]), values.drop_first());
    }
}

/// While invincible, a contact either extends the invincibility window (when
/// the accumulated and the currently elapsed invincible time are still below
/// the cap) or is fully absorbed with no state change at all; in either case
/// no life is lost. Life loss happens only once the invincibility timer has
/// finished.
pub proof fn lemma_invincible_absorbs(ship: Ship, value: u32)
    requires
        ship.wf(),
    ensures
        ship.is_invincible() ==> spec_apply_damage(ship, value).life == ship.life,
        ship.is_invincible() && ship.invincible_time_ms + ship.invincible_timer.elapsed_ms
            < MAX_INVINCIBLE_TIME_MS ==> spec_apply_damage(ship, value) == (Ship {
            invincible_time_ms: (ship.invincible_time_ms
                + ship.invincible_timer.elapsed_ms) as u32,
            invincible_timer: ship.invincible_timer.spec_reset(),
            ..ship
        }),
        ship.is_invincible() && ship.invincible_time_ms + ship.invincible_timer.elapsed_ms
            >= MAX_INVINCIBLE_TIME_MS ==> spec_apply_damage(ship, value) == ship,
        spec_apply_damage(ship, value).life < ship.life ==> !ship.is_invincible(),
{
}

/// A ship entry after both its timers ticked by one frame delta.
pub open spec fn spec_tick_ship(ship: Ship, delta_ms: u32) -> Ship {
    Ship {
        cannon_timer: ship.cannon_timer.spec_advance(delta_ms),
        invincible_timer: ship.invincible_timer.spec_advance(delta_ms),
        ..ship
    }
}

/// Advance the cannon cooldown and the invincibility timer of every ship by
/// the frame's elapsed time.
pub fn ship_timers_system(ships: &mut Vec<ShipEntry>, delta_ms: u32)
    requires
        forall|i: int| 0 <= i < old(ships)@.len() ==> #[trigger] old(ships)@[i].ship.wf(),
    ensures
        final(ships)@.len() == old(ships)@.len(),
        forall|i: int|
            0 <= i < old(ships)@.len() ==> #[trigger] final(ships)@[i] == (ShipEntry {
                ship: spec_tick_ship(old(ships)@[i].ship, delta_ms),
                ..old(ships)@[i]
            }),
{
    let ghost orig = ships@;
    let mut i: usize = 0;
    while i < ships.len()
        invariant
            i <= orig.len(),
            ships@.len() == orig.len(),
            forall|j: int| 0 <= j < orig.len() ==> #[trigger] orig[j].ship.wf(),
            forall|j: int|
                0 <= j < i ==> #[trigger] ships@[j] == (ShipEntry {
                    ship: spec_tick_ship(orig[j].ship, delta_ms),
                    ..orig[j]
                }),
            forall|j: int| i <= j < orig.len() ==> #[trigger] ships@[j] == orig[j],
        decreases orig.len() - i,
    {
        let mut entry = ships[i];
        proof {
            assert(orig[i as int].ship.wf());
        }
        entry.ship.cannon_timer.advance(delta_ms);
        entry.ship.invincible_timer.advance(delta_ms);
        ships[i] = entry;
        i = i + 1;
    }
}

/// Create the player ship at the arena's origin: full life, cannon cooling
/// down, and the invincibility timer already run out so that the ship starts
/// without invincibility.
pub fn spawn_ship(entity: Entity) -> (entry: ShipEntry)
    ensures
        entry.entity == entity,
        entry.position == (Vec2i { x: 0i64, y: 0i64 }),
        entry.ship == (Ship {
            rotation_speed: SHIP_ROTATION_SPEED,
            thrust: SHIP_THRUST,
            life: START_LIFE,
            cannon_timer: Timer { duration_ms: CANNON_COOLDOWN_MS, elapsed_ms: 0u32 },
            player_id: 1u32,
            invincible_timer: Timer {
                duration_ms: INVINCIBLE_TIME_MS,
                elapsed_ms: INVINCIBLE_TIME_MS,
            },
            invincible_time_ms: 0u32,
        }),
        entry.ship.wf(),
        !entry.ship.is_invincible(),
{
    let mut invincible_timer = Timer::from_ms(INVINCIBLE_TIME_MS);
    // Consume the timer straight away: no invincibility at creation.
    invincible_timer.advance(INVINCIBLE_TIME_MS);
    ShipEntry {
        entity,
        position: Vec2i { x: 0, y: 0 },
        ship: Ship {
            rotation_speed: SHIP_ROTATION_SPEED,
            thrust: SHIP_THRUST,
            life: START_LIFE,
            cannon_timer: Timer::from_ms(CANNON_COOLDOWN_MS),
            player_id: 1,
            invincible_timer,
            invincible_time_ms: 0,
        },
    }
}

/// Drive the ship from one frame's pressed actions: set the angular
/// velocity while a turn input is active, point the thrust force (milli-N)
/// along the facing while the forward input is active, and honour a fire
/// input only when the cannon has cooled down, immediately restarting the
/// cooldown.
pub fn ship_input_system(
    input: ShipInput,
    pose: &Pose,
    linvel: Vec2i,
    angvel: &mut i64,
    force: &mut Vec2i,
    ship: &mut Ship,
    laser_spawn_events: &mut Vec<LaserSpawnEvent>,
)
    requires
        pose.wf(),
        old(ship).wf(),
    ensures
        *final(angvel) == if input.rotate_left {
            old(ship).rotation_speed as int
        } else if input.rotate_right {
            -(old(ship).rotation_speed as int)
        } else {
            *old(angvel) as int
        },
        final(force).x == pose.facing_x * if input.forward {
            old(ship).thrust as int
        } else {
            0
        },
        final(force).y == pose.facing_y * if input.forward {
            old(ship).thrust as int
        } else {
            0
        },
        input.fire && old(ship).cannon_timer.spec_finished() ==> {
            &&& final(laser_spawn_events)@ == old(laser_spawn_events)@.push(
                (LaserSpawnEvent { transform: *pose, velocity: linvel }),
            )
            &&& *final(ship) == (Ship {
                cannon_timer: old(ship).cannon_timer.spec_reset(),
                ..*old(ship)
            })
        },
        !(input.fire && old(ship).cannon_timer.spec_finished()) ==> {
            &&& final(laser_spawn_events)@ == old(laser_spawn_events)@
            &&& *final(ship) == *old(ship)
        },
        final(ship).wf(),
{
    let thrust: i64 = if input.forward {
        ship.thrust as i64
    } else {
        0
    };
    if input.rotate_left {
        *angvel = ship.rotation_speed as i64;
    } else if input.rotate_right {
        *angvel = -(ship.rotation_speed as i64);
    }
    proof {
        assert(-5_000_000_000_000 <= pose.facing_x * thrust <= 5_000_000_000_000)
            by (nonlinear_arith)
            requires
                -1000 <= pose.facing_x <= 1000,
                0 <= thrust <= 4_294_967_295i64,
        ;
        assert(-5_000_000_000_000 <= pose.facing_y * thrust <= 5_000_000_000_000)
            by (nonlinear_arith)
            requires
                -1000 <= pose.facing_y <= 1000,
                0 <= thrust <= 4_294_967_295i64,
        ;
    }
    *force = Vec2i { x: pose.facing_x * thrust, y: pose.facing_y * thrust };
    if input.fire && ship.cannon_timer.finished() {
        laser_spawn_events.push(LaserSpawnEvent { transform: *pose, velocity: linvel });
        ship.cannon_timer.reset();
    }
}

/// Opacity for the rendering collaborator, in thousandths: fully opaque when
/// not invincible, otherwise oscillating as twice the elapsed invincible
/// time, modulo one second, expressed in thousandths of full opacity.
pub fn ship_invincible_color(ship: &Ship) -> (alpha_permille: u32)
    ensures
        !ship.is_invincible() ==> alpha_permille == 1000,
        ship.is_invincible() ==> alpha_permille == (ship.invincible_timer.elapsed_ms * 2) % 1000,
{
    if ship.invincible_timer.finished() {
        1000
    } else {
        ((ship.invincible_timer.elapsed() as u64 * 2) % 1000) as u32
    }
}

} // verus!
