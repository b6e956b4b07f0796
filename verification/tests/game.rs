use asteroids_core::asteroid::{Asteroid, AsteroidSize};
use asteroids_core::contact::{contact_system, CollisionEvent};
use asteroids_core::entity::{DespawnRequest, Entity, Vec2i};
use asteroids_core::events::{ExplosionKind, SpawnExplosionEvent};
use asteroids_core::laser::Laser;
use asteroids_core::player_ship::{ship_damage, spawn_ship, Damage};
use asteroids_core::timer::Timer;
use asteroids_core::world::{
    Arena, AsteroidEntry, DamageEntry, LaserEntry, ShipEntry, World,
};

fn ent(index: u64) -> Entity {
    Entity {
        index,
        generation: 0,
    }
}

fn ship_at(entity: Entity, x: i64, y: i64, life: u32) -> ShipEntry {
    let mut entry = spawn_ship(entity);
    entry.position = Vec2i { x, y };
    entry.ship.life = life;
    entry
}

fn asteroid_at(entity: Entity, size: AsteroidSize, x: i64, y: i64, angvel: i64) -> AsteroidEntry {
    AsteroidEntry {
        entity,
        position: Vec2i { x, y },
        angular_velocity: angvel,
        asteroid: Asteroid { size },
    }
}

fn laser_at(entity: Entity, x: i64, y: i64) -> LaserEntry {
    LaserEntry {
        entity,
        position: Vec2i { x, y },
        laser: Laser {
            despawn_timer: Timer {
                duration_ms: 2000,
                elapsed_ms: 0,
            },
        },
    }
}

fn started(a: Entity, b: Entity) -> CollisionEvent {
    CollisionEvent::Started(a, b, 0)
}

#[test]
fn ship_dies_on_last_life_contact() {
    // A ship with one life, not invincible, takes one contact of damage 1:
    // life reaches zero, a ShipDead explosion fires at the ship's position,
    // a recursive ship despawn is requested, and exactly one game-over.
    let ship_e = ent(1);
    let rock_e = ent(2);
    let mut world = World {
        ships: vec![ship_at(ship_e, 5, 6, 1)],
        asteroids: vec![asteroid_at(rock_e, AsteroidSize::Small, 50, 60, 0)],
        lasers: vec![],
        damages: vec![DamageEntry {
            entity: rock_e,
            damage: Damage { value: 1 },
        }],
    };
    let mut arena = Arena { score: 0 };
    let events = vec![started(ship_e, rock_e)];
    let out = contact_system(&mut world, &mut arena, &events);
    assert_eq!(world.ships[0].ship.life, 0);
    assert_eq!(
        out.explosions,
        vec![SpawnExplosionEvent {
            kind: ExplosionKind::ShipDead,
            x: 5,
            y: 6,
        }]
    );
    assert_eq!(
        out.despawns,
        vec![DespawnRequest {
            entity: ship_e,
            recursive: true,
        }]
    );
    assert_eq!(out.game_over_requests, 1);
    assert_eq!(arena.score, 0);
    assert!(out.asteroid_spawns.is_empty());
    assert!(out.laser_despawns.is_empty());
}

#[test]
fn large_asteroid_split_by_laser() {
    // A Large asteroid at the origin hit by a laser: score rises by Large's
    // score, one to three Medium fragments spawn within the split radius,
    // and both the laser and the asteroid are scheduled for despawn.
    let laser_e = ent(10);
    let rock_e = ent(11);
    let mut world = World {
        ships: vec![],
        asteroids: vec![asteroid_at(rock_e, AsteroidSize::Large, 0, 0, 7)],
        lasers: vec![laser_at(laser_e, 3, 4)],
        damages: vec![],
    };
    let mut arena = Arena { score: 100 };
    let events = vec![started(laser_e, rock_e)];
    let out = contact_system(&mut world, &mut arena, &events);
    assert_eq!(arena.score, 110);
    assert_eq!(
        out.explosions,
        vec![SpawnExplosionEvent {
            kind: ExplosionKind::LaserOnAsteroid,
            x: 3,
            y: 4,
        }]
    );
    assert_eq!(out.laser_despawns.len(), 1);
    assert_eq!(out.laser_despawns[0].0, laser_e);
    assert_eq!(
        out.despawns,
        vec![DespawnRequest {
            entity: rock_e,
            recursive: false,
        }]
    );
    assert_eq!(out.game_over_requests, 0);
    assert!(1 <= out.asteroid_spawns.len() && out.asteroid_spawns.len() <= 3);
    for frag in &out.asteroid_spawns {
        assert_eq!(frag.size, AsteroidSize::Medium);
        // within the disc of Large's split radius around (0, 0)
        assert!(frag.x * frag.x + frag.y * frag.y <= 10_000 * 10_000);
        assert!(-128_000 <= frag.vx && frag.vx < 128_000);
        assert!(-80_000 <= frag.vy && frag.vy < 80_000);
        assert_eq!(frag.angvel, 7);
    }
}

#[test]
fn smallest_size_never_splits() {
    // Destroying a Small asteroid scores but spawns no fragments.
    let laser_e = ent(20);
    let rock_e = ent(21);
    let mut world = World {
        ships: vec![],
        asteroids: vec![asteroid_at(rock_e, AsteroidSize::Small, 100, 200, -3)],
        lasers: vec![laser_at(laser_e, 0, 0)],
        damages: vec![],
    };
    let mut arena = Arena { score: 0 };
    let events = vec![started(rock_e, laser_e)];
    let out = contact_system(&mut world, &mut arena, &events);
    assert_eq!(arena.score, 40);
    assert!(out.asteroid_spawns.is_empty());
    assert_eq!(out.despawns.len(), 1);
}

#[test]
fn simultaneous_hits_on_distinct_asteroids_sum_scores() {
    // Two lasers on two distinct asteroids in one frame: the score rises by
    // the sum of the size scores, each asteroid is despawned once, and only
    // the splittable one fans out fragments.
    let l1 = ent(30);
    let l2 = ent(31);
    let a1 = ent(32);
    let a2 = ent(33);
    let mut world = World {
        ships: vec![],
        asteroids: vec![
            asteroid_at(a1, AsteroidSize::Large, 0, 0, 1),
            asteroid_at(a2, AsteroidSize::Small, 9_000, 9_000, 2),
        ],
        lasers: vec![laser_at(l1, 1, 1), laser_at(l2, 2, 2)],
        damages: vec![],
    };
    let mut arena = Arena { score: 5 };
    let events = vec![started(l1, a1), started(l2, a2)];
    let out = contact_system(&mut world, &mut arena, &events);
    assert_eq!(arena.score, 5 + 10 + 40);
    assert_eq!(out.despawns.len(), 2);
    assert_eq!(out.laser_despawns.len(), 2);
    assert!(1 <= out.asteroid_spawns.len() && out.asteroid_spawns.len() <= 3);
    for frag in &out.asteroid_spawns {
        assert_eq!(frag.size, AsteroidSize::Medium);
    }
}

#[test]
fn double_hit_on_one_asteroid_resolves_once() {
    // The same asteroid named by two contacts in one pass: the second
    // contact references an entity already pending despawn and is skipped,
    // so the asteroid scores and despawns once.
    let l1 = ent(40);
    let l2 = ent(41);
    let rock = ent(42);
    let mut world = World {
        ships: vec![],
        asteroids: vec![asteroid_at(rock, AsteroidSize::Small, 0, 0, 0)],
        lasers: vec![laser_at(l1, 0, 0), laser_at(l2, 1, 1)],
        damages: vec![],
    };
    let mut arena = Arena { score: 0 };
    let events = vec![started(l1, rock), started(l2, rock)];
    let out = contact_system(&mut world, &mut arena, &events);
    assert_eq!(arena.score, 40);
    assert_eq!(out.despawns.len(), 1);
    assert_eq!(out.laser_despawns.len(), 1);
}

#[test]
fn game_over_requested_once_per_frame() {
    // Two damaging contacts in the frame the ship's life reaches zero: the
    // second contact sees the ship pending despawn, so exactly one ShipDead
    // explosion and one game-over request come out.
    let ship_e = ent(50);
    let r1 = ent(51);
    let r2 = ent(52);
    let mut world = World {
        ships: vec![ship_at(ship_e, 0, 0, 1)],
        asteroids: vec![],
        lasers: vec![],
        damages: vec![
            DamageEntry {
                entity: r1,
                damage: Damage { value: 1 },
            },
            DamageEntry {
                entity: r2,
                damage: Damage { value: 1 },
            },
        ],
    };
    let mut arena = Arena { score: 0 };
    let events = vec![started(ship_e, r1), started(r2, ship_e)];
    let out = contact_system(&mut world, &mut arena, &events);
    assert_eq!(world.ships[0].ship.life, 0);
    assert_eq!(out.game_over_requests, 1);
    assert_eq!(out.explosions.len(), 1);
    assert_eq!(out.explosions[0].kind, ExplosionKind::ShipDead);
    assert_eq!(out.despawns.len(), 1);
}

#[test]
fn unmatched_pairs_drop_silently() {
    // Notifications whose pairs match no rule, and Stopped notifications,
    // produce nothing.
    let a = ent(60);
    let b = ent(61);
    let mut world = World {
        ships: vec![],
        asteroids: vec![asteroid_at(a, AsteroidSize::Large, 0, 0, 0)],
        lasers: vec![],
        damages: vec![],
    };
    let mut arena = Arena { score: 3 };
    let events = vec![started(a, b), CollisionEvent::Stopped(a, b, 0)];
    let out = contact_system(&mut world, &mut arena, &events);
    assert_eq!(arena.score, 3);
    assert!(out.explosions.is_empty());
    assert!(out.despawns.is_empty());
    assert!(out.laser_despawns.is_empty());
    assert!(out.asteroid_spawns.is_empty());
    assert_eq!(out.game_over_requests, 0);
}

#[test]
fn contact_hurts_ship_and_grants_invincibility() {
    // A non-invincible ship with spare life loses exactly one life, emits a
    // ShipContact explosion, and starts a fresh invincibility window.
    let mut entry = ship_at(ent(70), 8, 9, 3);
    let mut explosions = Vec::new();
    let dead = ship_damage(&mut entry.ship, entry.position, 1, &mut explosions);
    assert!(!dead);
    assert_eq!(entry.ship.life, 2);
    assert_eq!(
        explosions,
        vec![SpawnExplosionEvent {
            kind: ExplosionKind::ShipContact,
            x: 8,
            y: 9,
        }]
    );
    assert_eq!(entry.ship.invincible_timer.elapsed_ms, 0);
    assert_eq!(entry.ship.invincible_time_ms, 0);
}

#[test]
fn invincible_contact_extends_window_below_cap() {
    // While invincible with accumulated 1000 ms and 500 ms elapsed, a
    // contact is absorbed and refreshes the window: life untouched, the
    // elapsed time moves into the accumulator, the timer restarts.
    let mut ship = spawn_ship(ent(80)).ship;
    ship.invincible_timer = Timer {
        duration_ms: 2000,
        elapsed_ms: 500,
    };
    ship.invincible_time_ms = 1000;
    let mut explosions = Vec::new();
    let dead = ship_damage(&mut ship, Vec2i { x: 0, y: 0 }, 1, &mut explosions);
    assert!(!dead);
    assert!(explosions.is_empty());
    assert_eq!(ship.life, 3);
    assert_eq!(ship.invincible_time_ms, 1500);
    assert_eq!(ship.invincible_timer.elapsed_ms, 0);
}

#[test]
fn invincible_contact_absorbed_at_cap() {
    // Accumulated plus elapsed invincibility at or above the 5000 ms cap:
    // the contact is fully absorbed and nothing changes.
    let mut ship = spawn_ship(ent(81)).ship;
    ship.invincible_timer = Timer {
        duration_ms: 2000,
        elapsed_ms: 500,
    };
    ship.invincible_time_ms = 4500;
    let before = ship;
    let mut explosions = Vec::new();
    let dead = ship_damage(&mut ship, Vec2i { x: 0, y: 0 }, 1, &mut explosions);
    assert!(!dead);
    assert!(explosions.is_empty());
    assert_eq!(ship, before);
}

#[test]
fn life_never_increases_across_contacts() {
    // A run of contacts with the invincibility window expiring in between:
    // life only ever goes down, saturating at zero.
    let mut ship = spawn_ship(ent(90)).ship;
    let mut explosions = Vec::new();
    let mut last_life = ship.life;
    for _ in 0..5 {
        ship_damage(&mut ship, Vec2i { x: 0, y: 0 }, 1, &mut explosions);
        assert!(ship.life <= last_life);
        last_life = ship.life;
        // let the invincibility window run out before the next contact
        ship.invincible_timer.advance(2000);
    }
    assert_eq!(ship.life, 0);
}
