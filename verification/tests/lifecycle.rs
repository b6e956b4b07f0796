use asteroids_core::asteroid::AsteroidSize;
use asteroids_core::entity::{Entity, Pose, Vec2i};
use asteroids_core::laser::{laser_timeout_system, spawn_laser, Laser, LaserSpawnEvent};
use asteroids_core::player_ship::{
    ship_input_system, ship_invincible_color, ship_timers_system, spawn_ship, PlayerAction,
    ShipInput,
};
use asteroids_core::timer::Timer;
use asteroids_core::world::{LaserEntry, World};

fn ent(index: u64) -> Entity {
    Entity {
        index,
        generation: 0,
    }
}

#[test]
fn timer_saturates_and_resets() {
    let mut t = Timer::from_ms(2000);
    assert!(!t.finished());
    t.advance(1999);
    assert!(!t.finished());
    assert_eq!(t.elapsed(), 1999);
    t.advance(1);
    assert!(t.finished());
    t.advance(500);
    assert_eq!(t.elapsed(), 2000);
    t.reset();
    assert!(!t.finished());
    assert_eq!(t.elapsed(), 0);
}

#[test]
fn split_taxonomy() {
    // Fragments are strictly smaller; the smallest size never splits.
    assert_eq!(
        AsteroidSize::Large.split(),
        Some((AsteroidSize::Medium, 10_000))
    );
    assert_eq!(
        AsteroidSize::Medium.split(),
        Some((AsteroidSize::Small, 5_000))
    );
    assert_eq!(AsteroidSize::Small.split(), None);
    assert_eq!(AsteroidSize::Large.score(), 10);
    assert_eq!(AsteroidSize::Medium.score(), 20);
    assert_eq!(AsteroidSize::Small.score(), 40);
}

#[test]
fn fresh_ship_is_not_invincible() {
    let entry = spawn_ship(ent(1));
    assert_eq!(entry.position, Vec2i { x: 0, y: 0 });
    assert_eq!(entry.ship.life, 3);
    assert_eq!(entry.ship.player_id, 1);
    assert_eq!(entry.ship.rotation_speed, 3000);
    assert_eq!(entry.ship.thrust, 300_000);
    // the invincibility timer is consumed at creation
    assert!(entry.ship.invincible_timer.elapsed_ms >= entry.ship.invincible_timer.duration_ms);
    assert_eq!(entry.ship.invincible_time_ms, 0);
    // the cannon starts cooling down
    assert_eq!(entry.ship.cannon_timer.duration_ms, 200);
    assert_eq!(entry.ship.cannon_timer.elapsed_ms, 0);
}

#[test]
fn laser_velocity_keeps_forward_component_only() {
    // The firer's velocity is projected onto its facing axis (the lateral
    // contribution is zeroed) and the muzzle speed is added along the
    // facing: dot = 111*600 + 222*800 = 244_200, projected onto the
    // (0.6, 0.8) facing that gives (146, 195) after fixed-point truncation,
    // plus the (300_000, 400_000) muzzle velocity.
    let event = LaserSpawnEvent {
        transform: Pose {
            position: Vec2i { x: 1000, y: 2000 },
            facing_x: 600,
            facing_y: 800,
        },
        velocity: Vec2i { x: 111, y: 222 },
    };
    let spawned = spawn_laser(&event);
    assert_eq!(spawned.pose, event.transform);
    assert_eq!(spawned.velocity, Vec2i { x: 300_146, y: 400_195 });
    assert_eq!(
        spawned.laser.despawn_timer,
        Timer {
            duration_ms: 2000,
            elapsed_ms: 0,
        }
    );
    assert!(spawned.sensor);
}

#[test]
fn laser_from_rotated_ship_drops_lateral_velocity() {
    // A ship facing +X while drifting straight up: the drift is entirely
    // lateral to the facing, so the laser flies along +X at muzzle speed.
    let event = LaserSpawnEvent {
        transform: Pose {
            position: Vec2i { x: 0, y: 0 },
            facing_x: 1000,
            facing_y: 0,
        },
        velocity: Vec2i { x: 0, y: 700_000 },
    };
    let spawned = spawn_laser(&event);
    assert_eq!(spawned.velocity, Vec2i { x: 500_000, y: 0 });

    // facing +Y, the same drift is purely forward and is kept exactly
    let event = LaserSpawnEvent {
        transform: Pose {
            position: Vec2i { x: 0, y: 0 },
            facing_x: 0,
            facing_y: 1000,
        },
        velocity: Vec2i { x: 123, y: 456 },
    };
    let spawned = spawn_laser(&event);
    assert_eq!(spawned.velocity, Vec2i { x: 0, y: 500_456 });
}

#[test]
fn laser_times_out_at_two_seconds() {
    // An untouched laser despawns once two simulated seconds have passed,
    // never before.
    let fresh = LaserEntry {
        entity: ent(10),
        position: Vec2i { x: 0, y: 0 },
        laser: Laser {
            despawn_timer: Timer {
                duration_ms: 2000,
                elapsed_ms: 0,
            },
        },
    };
    let old = LaserEntry {
        entity: ent(11),
        position: Vec2i { x: 5, y: 5 },
        laser: Laser {
            despawn_timer: Timer {
                duration_ms: 2000,
                elapsed_ms: 1500,
            },
        },
    };
    let mut lasers = vec![fresh, old];
    let despawn = laser_timeout_system(&mut lasers, 1000);
    assert_eq!(despawn, vec![ent(11)]);
    assert_eq!(lasers[0].laser.despawn_timer.elapsed_ms, 1000);
    assert_eq!(lasers[1].laser.despawn_timer.elapsed_ms, 2000);
    let despawn = laser_timeout_system(&mut lasers, 999);
    assert_eq!(despawn, vec![ent(11)]);
    let despawn = laser_timeout_system(&mut lasers, 1);
    assert_eq!(despawn, vec![ent(10), ent(11)]);
}

#[test]
fn ship_timers_tick_every_frame() {
    let mut ships = vec![spawn_ship(ent(20))];
    ships[0].ship.invincible_timer.reset();
    ship_timers_system(&mut ships, 150);
    assert_eq!(ships[0].ship.cannon_timer.elapsed_ms, 150);
    assert_eq!(ships[0].ship.invincible_timer.elapsed_ms, 150);
    ship_timers_system(&mut ships, 100);
    // the cannon timer saturates at its 200 ms duration
    assert_eq!(ships[0].ship.cannon_timer.elapsed_ms, 200);
    assert_eq!(ships[0].ship.invincible_timer.elapsed_ms, 250);
}

#[test]
fn fire_honored_only_when_cannon_cooled() {
    let pose = Pose {
        position: Vec2i { x: 10, y: 20 },
        facing_x: 0,
        facing_y: 1000,
    };
    let linvel = Vec2i { x: 3, y: 4 };
    let mut ship = spawn_ship(ent(30)).ship;
    let mut angvel: i64 = 0;
    let mut force = Vec2i { x: 0, y: 0 };
    let mut events = Vec::new();

    // cooldown still running: fire is ignored
    let input = ShipInput {
        forward: false,
        rotate_left: false,
        rotate_right: false,
        fire: true,
    };
    ship_input_system(input, &pose, linvel, &mut angvel, &mut force, &mut ship, &mut events);
    assert!(events.is_empty());

    // cooled down: one laser spawns and the cooldown restarts
    ship.cannon_timer.advance(200);
    ship_input_system(input, &pose, linvel, &mut angvel, &mut force, &mut ship, &mut events);
    assert_eq!(events.len(), 1);
    assert_eq!(events[0].transform, pose);
    assert_eq!(events[0].velocity, linvel);
    assert_eq!(ship.cannon_timer.elapsed_ms, 0);
}

#[test]
fn turn_and_thrust_follow_inputs() {
    let pose = Pose {
        position: Vec2i { x: 0, y: 0 },
        facing_x: 600,
        facing_y: 800,
    };
    let linvel = Vec2i { x: 0, y: 0 };
    let mut ship = spawn_ship(ent(31)).ship;
    let mut angvel: i64 = 42;
    let mut force = Vec2i { x: 1, y: 1 };
    let mut events = Vec::new();

    let coast = ShipInput {
        forward: false,
        rotate_left: false,
        rotate_right: false,
        fire: false,
    };
    ship_input_system(coast, &pose, linvel, &mut angvel, &mut force, &mut ship, &mut events);
    // no turn input: the angular velocity is left alone; no thrust: no force
    assert_eq!(angvel, 42);
    assert_eq!(force, Vec2i { x: 0, y: 0 });

    let left_thrust = ShipInput {
        forward: true,
        rotate_left: true,
        rotate_right: false,
        fire: false,
    };
    ship_input_system(
        left_thrust,
        &pose,
        linvel,
        &mut angvel,
        &mut force,
        &mut ship,
        &mut events,
    );
    assert_eq!(angvel, 3000);
    // thrust in milli-Newtons along the facing direction
    assert_eq!(
        force,
        Vec2i {
            x: 600 * 300_000,
            y: 800 * 300_000,
        }
    );

    let right = ShipInput {
        forward: false,
        rotate_left: false,
        rotate_right: true,
        fire: false,
    };
    ship_input_system(right, &pose, linvel, &mut angvel, &mut force, &mut ship, &mut events);
    assert_eq!(angvel, -3000);
    assert!(events.is_empty());
}

#[test]
fn input_reports_pressed_actions() {
    let input = ShipInput {
        forward: true,
        rotate_left: false,
        rotate_right: true,
        fire: false,
    };
    assert!(input.pressed(PlayerAction::Forward));
    assert!(!input.pressed(PlayerAction::RotateLeft));
    assert!(input.pressed(PlayerAction::RotateRight));
    assert!(!input.pressed(PlayerAction::Fire));
}

#[test]
fn world_wf_check_spots_bad_timers() {
    let mut world = World {
        ships: vec![spawn_ship(ent(50))],
        asteroids: vec![],
        lasers: vec![],
        damages: vec![],
    };
    assert!(world.check_wf());
    // an invincibility timer past its duration is malformed
    world.ships[0].ship.invincible_timer.elapsed_ms = 9999;
    assert!(!world.check_wf());
}

#[test]
fn invincibility_opacity_oscillates() {
    let mut ship = spawn_ship(ent(40)).ship;
    // not invincible: fully opaque
    assert_eq!(ship_invincible_color(&ship), 1000);
    ship.invincible_timer = Timer {
        duration_ms: 2000,
        elapsed_ms: 300,
    };
    assert_eq!(ship_invincible_color(&ship), 600);
    ship.invincible_timer.elapsed_ms = 700;
    assert_eq!(ship_invincible_color(&ship), 400);
}
