//! Contact classification and resolution: the per-frame pass that turns raw
//! collision notifications into damage, despawns, spawns and score.
//!
//! Despawns are deferred: a resolved contact only marks its entities as
//! pending removal, and every later contact of the same pass that references
//! a pending entity is silently skipped (so one asteroid hit twice in a
//! frame is processed once, and the game-over transition fires once).

use vstd::prelude::*;

use crate::asteroid::{AsteroidSpawnEvent, ARENA_HEIGHT, ARENA_WIDTH};
use crate::entity::{DespawnRequest, Entity};
use crate::events::{ExplosionKind, SpawnExplosionEvent};
use crate::laser::LaserDespawnEvent;
use crate::player_ship::{
    ship_damage, spec_apply_damage, spec_damage_outcome, DamageOutcome,
};
use crate::rng::random_in_range;
use crate::world::{
    find_asteroid, find_damage, find_laser, find_ship, lemma_find_asteroid, lemma_find_damage,
    lemma_find_laser, lemma_find_ship, spec_find_asteroid, spec_find_damage, spec_find_laser,
    spec_find_ship, Arena, AsteroidEntry, ShipEntry, World,
};

verus! {

/// Marker for the contact subsystem; the embedding application registers
/// `contact_system` when it installs the plugin.
pub struct ContactPlugin;

/// A raw notification from the physics backend. Only `Started` pairs are
/// classified; the metadata flag is ignored.
#[derive(Clone, Copy, PartialEq, Eq, Structural, Debug)]
pub enum CollisionEvent {
    Started(Entity, Entity, u32),
    Stopped(Entity, Entity, u32),
}

/// A frame-scoped, semantically classified collision between two entities.
#[derive(Clone, Copy, PartialEq, Eq, Structural, Debug)]
pub enum Contact {
    /// (ship entity, damaging entity)
    ShipAsteroid(Entity, Entity),
    /// (laser entity, asteroid entity)
    LaserAsteroid(Entity, Entity),
}

/// Everything a resolution pass emits towards its collaborators.
pub struct FrameOutput {
    pub explosions: Vec<SpawnExplosionEvent>,
    pub asteroid_spawns: Vec<AsteroidSpawnEvent>,
    pub laser_despawns: Vec<LaserDespawnEvent>,
    pub despawns: Vec<DespawnRequest>,
    /// How many game-over transitions the pass requested; at most one per
    /// frame when the session has a single ship.
    pub game_over_requests: u64,
}

/// The contacts one raw notification classifies into: both orderings of the
/// pair are tested against current component membership, so a single
/// notification yields zero, one or two contacts.
pub open spec fn spec_classify_one(w: World, event: CollisionEvent) -> Seq<Contact> {
    match event {
        CollisionEvent::Started(e1, e2, _flags) => {
            let s1 = if spec_find_ship(w.ships@, e1) >= 0 && spec_find_damage(w.damages@, e2)
                >= 0 {
                seq![Contact::ShipAsteroid(e1, e2)]
            } else {
                Seq::empty()
            };
            let s2 = if spec_find_ship(w.ships@, e2) >= 0 && spec_find_damage(w.damages@, e1)
                >= 0 {
                seq![Contact::ShipAsteroid(e2, e1)]
            } else {
                Seq::empty()
            };
            let s3 = if spec_find_asteroid(w.asteroids@, e2) >= 0 && spec_find_laser(
                w.lasers@,
                e1,
            ) >= 0 {
                seq![Contact::LaserAsteroid(e1, e2)]
            } else {
                Seq::empty()
            };
            let s4 = if spec_find_asteroid(w.asteroids@, e1) >= 0 && spec_find_laser(
                w.lasers@,
                e2,
            ) >= 0 {
                seq![Contact::LaserAsteroid(e2, e1)]
            } else {
                Seq::empty()
            };
            s1 + s2 + s3 + s4
        },
        CollisionEvent::Stopped(_e1, _e2, _flags) => Seq::empty(),
    }
}

/// The classified contacts of a whole frame, in delivery order.
pub open spec fn spec_classify(w: World, events: Seq<CollisionEvent>) -> Seq<Contact>
    decreases events.len(),
{
    if events.len() == 0 {
        Seq::empty()
    } else {
        spec_classify(w, events.drop_last()) + spec_classify_one(w, events.last())
    }
}

/// One notification classifies into at most four contacts.
pub proof fn lemma_classify_len(w: World, events: Seq<CollisionEvent>)
    ensures
        spec_classify(w, events).len() <= 4 * events.len(),
    decreases events.len(),
{
    if events.len() > 0 {
        lemma_classify_len(w, events.drop_last());
    }
}

/// The state a resolution pass threads through its contacts, one step per
/// classified contact.
pub ghost struct ResolveState {
    /// The ships' current state (damage mutates them in place).
    pub ships: Seq<ShipEntry>,
    /// Score gained so far in this pass.
    pub score: int,
    /// Entities already scheduled for despawn in this pass; contacts that
    /// reference them are skipped.
    pub pending: Seq<Entity>,
    pub explosions: Seq<SpawnExplosionEvent>,
    pub laser_despawns: Seq<LaserDespawnEvent>,
    pub despawns: Seq<DespawnRequest>,
    pub game_overs: int,
    /// The asteroid entries of the resolved laser hits that split, in
    /// resolution order; each fans out one to three fragments.
    pub split_parents: Seq<AsteroidEntry>,
}

/// The pass's state before any contact is resolved.
pub open spec fn spec_init_state(w: World) -> ResolveState {
    ResolveState {
        ships: w.ships@,
        score: 0,
        pending: Seq::empty(),
        explosions: Seq::empty(),
        laser_despawns: Seq::empty(),
        despawns: Seq::empty(),
        game_overs: 0,
        split_parents: Seq::empty(),
    }
}

/// Resolve one classified contact: skip it silently when it references an
/// entity already pending despawn or no longer present; otherwise apply the
/// laser-asteroid or ship-asteroid rule.
pub open spec fn spec_resolve_step(s: ResolveState, c: Contact, w: World) -> ResolveState {
    match c {
        Contact::LaserAsteroid(laser_e, asteroid_e) => {
            if s.pending.contains(laser_e) || s.pending.contains(asteroid_e) {
                s
            } else {
                let li = spec_find_laser(w.lasers@, laser_e);
                let ai = spec_find_asteroid(w.asteroids@, asteroid_e);
                if li < 0 || ai < 0 {
                    s
                } else {
                    let laser_pos = w.lasers@[li].position;
                    let ast = w.asteroids@[ai];
                    ResolveState {
                        ships: s.ships,
                        score: s.score + ast.asteroid.size.spec_score(),
                        pending: s.pending.push(laser_e).push(asteroid_e),
                        explosions: s.explosions.push(
                            (SpawnExplosionEvent {
                                kind: ExplosionKind::LaserOnAsteroid,
                                x: laser_pos.x,
                                y: laser_pos.y,
                            }),
                        ),
                        laser_despawns: s.laser_despawns.push(LaserDespawnEvent(laser_e)),
                        despawns: s.despawns.push(
                            (DespawnRequest { entity: asteroid_e, recursive: false }),
                        ),
                        game_overs: s.game_overs,
                        split_parents: if ast.asteroid.size.spec_split() is Some {
                            s.split_parents.push(ast)
                        } else {
                            s.split_parents
                        },
                    }
                }
            }
        },
        Contact::ShipAsteroid(ship_e, damage_e) => {
            if s.pending.contains(ship_e) || s.pending.contains(damage_e) {
                s
            } else {
                let si = spec_find_ship(s.ships, ship_e);
                let di = spec_find_damage(w.damages@, damage_e);
                if si < 0 || di < 0 {
                    s
                } else {
                    let entry = s.ships[si];
                    let value = w.damages@[di].damage.value;
                    let ships1 = s.ships.update(
                        si,
                        ShipEntry { ship: spec_apply_damage(entry.ship, value), ..entry },
                    );
                    match spec_damage_outcome(entry.ship, value) {
                        DamageOutcome::Absorbed => ResolveState { ships: ships1, ..s },
                        DamageOutcome::Hit => ResolveState {
                            ships: ships1,
                            explosions: s.explosions.push(
                                (SpawnExplosionEvent {
                                    kind: ExplosionKind::ShipContact,
                                    x: entry.position.x,
                                    y: entry.position.y,
                                }),
                            ),
                            ..s
                        },
                        DamageOutcome::Death => ResolveState {
                            ships: ships1,
                            explosions: s.explosions.push(
                                (SpawnExplosionEvent {
                                    kind: ExplosionKind::ShipDead,
                                    x: entry.position.x,
                                    y: entry.position.y,
                                }),
                            ),
                            despawns: s.despawns.push(
                                (DespawnRequest { entity: ship_e, recursive: true }),
                            ),
                            pending: s.pending.push(ship_e),
                            game_overs: s.game_overs + 1,
                            ..s
                        },
                    }
                }
            }
        },
    }
}

/// The pass's state after its first `n` contacts.
pub open spec fn spec_resolve_upto(
    s0: ResolveState,
    contacts: Seq<Contact>,
    w: World,
    n: int,
) -> ResolveState
    decreases n,
{
    if n <= 0 {
        s0
    } else {
        spec_resolve_step(spec_resolve_upto(s0, contacts, w, n - 1), contacts[n - 1], w)
    }
}

/// The deterministic outcome of a whole frame's pass over `events`.
pub open spec fn spec_resolve(w: World, events: Seq<CollisionEvent>) -> ResolveState {
    spec_resolve_upto(
        spec_init_state(w),
        spec_classify(w, events),
        w,
        spec_classify(w, events).len() as int,
    )
}

/// A fragment-spawn request fits its parent: the next-smaller size, a
/// position within the disc of the parent size's split radius around the
/// parent's position, a velocity within the arena-proportional range, and
/// the parent's angular velocity carried over unchanged.
pub open spec fn frag_matches(ev: AsteroidSpawnEvent, parent: AsteroidEntry) -> bool {
    match parent.asteroid.size.spec_split() {
        Some(child_radius) => {
            let radius = child_radius.1;
            let dx = ev.x - parent.position.x;
            let dy = ev.y - parent.position.y;
            let vx_bound = ARENA_WIDTH / radius * 1000;
            let vy_bound = ARENA_HEIGHT / radius * 1000;
            &&& ev.size == child_radius.0
            &&& dx * dx + dy * dy <= radius * radius
            &&& -vx_bound <= ev.vx < vx_bound
            &&& -vy_bound <= ev.vy < vy_bound
            &&& ev.angvel == parent.angular_velocity
        },
        None => false,
    }
}

/// A fragment-spawn request fits some asteroid of the frame's world.
pub open spec fn frag_ok(ev: AsteroidSpawnEvent, w: World) -> bool {
    exists|ai: int|
        0 <= ai < w.asteroids@.len() && frag_matches(ev, #[trigger] w.asteroids@[ai])
}

/// The fragment-spawn requests decompose into one contiguous group per
/// split parent, in resolution order: `bounds` gives the group boundaries,
/// each group holds one to three fragments, and every fragment of a group
/// fits that group's own parent asteroid.
pub open spec fn frags_grouped(
    spawns: Seq<AsteroidSpawnEvent>,
    parents: Seq<AsteroidEntry>,
    bounds: Seq<int>,
) -> bool {
    &&& bounds.len() == parents.len() + 1
    &&& bounds[0] == 0
    &&& bounds[parents.len() as int] == spawns.len()
    &&& forall|p: int| 0 <= p < bounds.len() ==> 0 <= #[trigger] bounds[p] <= spawns.len()
    &&& forall|p: int|
        0 <= p < parents.len() ==> #[trigger] bounds[p] + 1 <= bounds[p + 1] <= bounds[p] + 3
    &&& forall|p: int, k: int|
        0 <= p < parents.len() && bounds[p] <= k < bounds[p + 1] ==> frag_matches(
            #[trigger] spawns[k],
            #[trigger] parents[p],
        )
}

/// Every fragment a resolution pass spawns is strictly smaller in the size
/// ordering than the asteroid it fits (its group's split parent), and an
/// asteroid of the smallest size is never such a parent: no fragment can
/// fit it at all.
pub proof fn lemma_fragments_strictly_smaller(ev: AsteroidSpawnEvent, parent: AsteroidEntry)
    requires
        frag_matches(ev, parent),
    ensures
        ev.size.rank() < parent.asteroid.size.rank(),
        parent.asteroid.size != crate::asteroid::AsteroidSize::Small,
{
    crate::asteroid::lemma_split_strictly_smaller(parent.asteroid.size);
}

/// Whether an entity is already scheduled for despawn in this pass.
fn contains_entity(list: &Vec<Entity>, e: Entity) -> (r: bool)
    ensures
        r == list@.contains(e),
{
    let mut i: usize = 0;
    while i < list.len()
        invariant
            i <= list@.len(),
            forall|j: int| 0 <= j < i ==> list@[j] != e,
        decreases list@.len() - i,
    {
        if list[i] == e {
            proof {
                assert(list@[i as int] == e);
            }
            return true;
        }
        i = i + 1;
    }
    false
}

/// Classify every raw notification of the frame against current component
/// membership, testing both orderings of each pair; unmatched pairs are
/// dropped silently.
fn classify_contacts(world: &World, events: &Vec<CollisionEvent>) -> (contacts: Vec<Contact>)
    ensures
        contacts@ == spec_classify(*world, events@),
{
    let mut contacts: Vec<Contact> = Vec::new();
    let mut i: usize = 0;
    while i < events.len()
        invariant
            i <= events@.len(),
            contacts@ == spec_classify(*world, events@.take(i as int)),
        decreases events@.len() - i,
    {
        let ghost prev = contacts@;
        let event = events[i];
        match event {
            CollisionEvent::Started(e1, e2, _flags) => {
                if find_ship(&world.ships, e1).is_some() && find_damage(
                    &world.damages,
                    e2,
                ).is_some() {
                    contacts.push(Contact::ShipAsteroid(e1, e2));
                }
                if find_ship(&world.ships, e2).is_some() && find_damage(
                    &world.damages,
                    e1,
                ).is_some() {
                    contacts.push(Contact::ShipAsteroid(e2, e1));
                }
                if find_asteroid(&world.asteroids, e2).is_some() && find_laser(
                    &world.lasers,
                    e1,
                ).is_some() {
                    contacts.push(Contact::LaserAsteroid(e1, e2));
                }
                if find_asteroid(&world.asteroids, e1).is_some() && find_laser(
                    &world.lasers,
                    e2,
                ).is_some() {
                    contacts.push(Contact::LaserAsteroid(e2, e1));
                }
            },
            CollisionEvent::Stopped(_e1, _e2, _flags) => {},
        }
        proof {
            assert(contacts@ =~= prev + spec_classify_one(*world, events@[i as int]));
            assert(events@.take(i + 1).drop_last() =~= events@.take(i as int));
            assert(events@.take(i + 1).last() == events@[i as int]);
        }
        i = i + 1;
    }
    proof {
        assert(events@.take(events@.len() as int) =~= events@);
    }
    contacts
}

/// Resolve one frame's raw collision notifications: classify them, then
/// apply the laser-asteroid rule (score, explosion, fragment fan-out,
/// deferred despawn of laser and asteroid) and the ship-asteroid rule
/// (damage application, explosion, deferred recursive despawn and a single
/// game-over request on death) to each contact in delivery order, skipping
/// contacts whose entities are already pending despawn or gone.
///
/// Everything but the randomized fragment draws is pinned to the
/// deterministic model `spec_resolve`; the fragment-spawn requests number
/// between one and three per split and each fits its parent asteroid.
///
/// The score ceiling requirement keeps the `u64` score counter from
/// overflowing even if every notification classified into four contacts of
/// the highest size score.
pub fn contact_system(world: &mut World, arena: &mut Arena, events: &Vec<CollisionEvent>) -> (out:
    FrameOutput)
    requires
        old(world).wf(),
        old(arena).score + 160 * events@.len() <= u64::MAX,
    ensures
        ({
            let m = spec_resolve(*old(world), events@);
            &&& final(world).ships@ == m.ships
            &&& final(world).asteroids@ == old(world).asteroids@
            &&& final(world).lasers@ == old(world).lasers@
            &&& final(world).damages@ == old(world).damages@
            &&& final(world).wf()
            &&& final(arena).score == old(arena).score + m.score
            &&& out.explosions@ == m.explosions
            &&& out.laser_despawns@ == m.laser_despawns
            &&& out.despawns@ == m.despawns
            &&& out.game_over_requests == m.game_overs
            &&& m.split_parents.len() <= out.asteroid_spawns@.len() <= 3 * m.split_parents.len()
            &&& exists|bounds: Seq<int>|
                frags_grouped(out.asteroid_spawns@, m.split_parents, bounds)
            &&& forall|k: int|
                0 <= k < out.asteroid_spawns@.len() ==> frag_ok(
                    #[trigger] out.asteroid_spawns@[k],
                    *old(world),
                )
        }),
{
    let ghost w0 = *old(world);
    let contacts = classify_contacts(world, events);
    proof {
        lemma_classify_len(w0, events@);
    }
    let mut explosions: Vec<SpawnExplosionEvent> = Vec::new();
    let mut asteroid_spawns: Vec<AsteroidSpawnEvent> = Vec::new();
    let mut laser_despawns: Vec<LaserDespawnEvent> = Vec::new();
    let mut despawns: Vec<DespawnRequest> = Vec::new();
    let mut game_over_requests: u64 = 0;
    let mut pending: Vec<Entity> = Vec::new();
    let ghost mut bounds: Seq<int> = seq![0int];
    let mut ci: usize = 0;
    while ci < contacts.len()
        invariant
            ci <= contacts@.len(),
            contacts@ == spec_classify(w0, events@),
            contacts@.len() <= 4 * events@.len(),
            old(arena).score + 160 * events@.len() <= u64::MAX,
            world.asteroids@ == w0.asteroids@,
            world.lasers@ == w0.lasers@,
            world.damages@ == w0.damages@,
            w0.wf(),
            forall|j: int|
                0 <= j < world.ships@.len() ==> (#[trigger] world.ships@[j]).ship.wf()
                    && world.ships@[j].position.wf(),
            ({
                let st = spec_resolve_upto(spec_init_state(w0), contacts@, w0, ci as int);
                &&& world.ships@ == st.ships
                &&& pending@ == st.pending
                &&& arena.score == old(arena).score + st.score
                &&& st.score <= 40 * (ci as int)
                &&& explosions@ == st.explosions
                &&& laser_despawns@ == st.laser_despawns
                &&& despawns@ == st.despawns
                &&& game_over_requests == st.game_overs
                &&& st.game_overs <= ci as int
                &&& st.split_parents.len() <= asteroid_spawns@.len() <= 3
                    * st.split_parents.len()
                &&& frags_grouped(asteroid_spawns@, st.split_parents, bounds)
            }),
            forall|k: int|
                0 <= k < asteroid_spawns@.len() ==> frag_ok(#[trigger] asteroid_spawns@[k], w0),
        decreases contacts@.len() - ci,
    {
        let ghost st = spec_resolve_upto(spec_init_state(w0), contacts@, w0, ci as int);
        let c = contacts[ci];
        match c {
            Contact::LaserAsteroid(laser_e, asteroid_e) => {
                if contains_entity(&pending, laser_e) || contains_entity(&pending, asteroid_e) {
                    // already scheduled for despawn in this pass: skip silently
                } else {
                    let li_opt = find_laser(&world.lasers, laser_e);
                    let ai_opt = find_asteroid(&world.asteroids, asteroid_e);
                    proof {
                        lemma_find_laser(world.lasers@, laser_e);
                        lemma_find_asteroid(world.asteroids@, asteroid_e);
                    }
                    match (li_opt, ai_opt) {
                        (Some(li), Some(ai)) => {
                            let laser_position = world.lasers[li].position;
                            let ast = world.asteroids[ai];
                            arena.score = arena.score + ast.asteroid.size.score();
                            explosions.push(SpawnExplosionEvent {
                                kind: ExplosionKind::LaserOnAsteroid,
                                x: laser_position.x,
                                y: laser_position.y,
                            });
                            let ghost spawns_before = asteroid_spawns@;
                            match ast.asteroid.size.split() {
                                Some((size, radius)) => {
                                    let vx_bound = (ARENA_WIDTH / radius) * 1000;
                                    let vy_bound = (ARENA_HEIGHT / radius) * 1000;
                                    proof {
                                        assert(radius == 10_000 || radius == 5_000);
                                    }
                                    let count = random_in_range(1, 4);
                                    let mut k: i64 = 0;
                                    while k < count
                                        invariant
                                            0 <= k <= count,
                                            1 <= count < 4,
                                            radius == 10_000 || radius == 5_000,
                                            vx_bound == ARENA_WIDTH / radius * 1000,
                                            vy_bound == ARENA_HEIGHT / radius * 1000,
                                            Some((size, radius))
                                                == ast.asteroid.size.spec_split(),
                                            0 <= ai < w0.asteroids@.len(),
                                            ast == w0.asteroids@[ai as int],
                                            ast.position.wf(),
                                            asteroid_spawns@.len() == spawns_before.len()
                                                + k,
                                            forall|t: int|
                                                0 <= t < spawns_before.len()
                                                    ==> #[trigger] asteroid_spawns@[t]
                                                    == spawns_before[t],
                                            forall|t: int|
                                                spawns_before.len() <= t
                                                    < asteroid_spawns@.len() ==> frag_matches(
                                                    #[trigger] asteroid_spawns@[t],
                                                    w0.asteroids@[ai as int],
                                                ),
                                            forall|t: int|
                                                0 <= t < asteroid_spawns@.len() ==> frag_ok(
                                                    #[trigger] asteroid_spawns@[t],
                                                    w0,
                                                ),
                                        decreases count - k,
                                    {
                                        // an offset within the disc of the
                                        // split radius around the parent
                                        let dx = random_in_range(-radius, radius);
                                        let slack = radius - if dx < 0 {
                                            -dx
                                        } else {
                                            dx
                                        };
                                        let dy = random_in_range(-slack, slack + 1);
                                        proof {
                                            assert(dx * dx + dy * dy <= radius * radius)
                                                by (nonlinear_arith)
                                                requires
                                                    0 <= slack,
                                                    -radius <= dx <= radius,
                                                    slack == radius - (if dx < 0 {
                                                        -dx
                                                    } else {
                                                        dx as int
                                                    }),
                                                    -slack <= dy <= slack,
                                            ;
                                        }
                                        let vx = random_in_range(-vx_bound, vx_bound);
                                        let vy = random_in_range(-vy_bound, vy_bound);
                                        let ev = AsteroidSpawnEvent {
                                            size,
                                            x: ast.position.x + dx,
                                            y: ast.position.y + dy,
                                            vx,
                                            vy,
                                            angvel: ast.angular_velocity,
                                        };
                                        proof {
                                            assert(frag_matches(ev, w0.asteroids@[ai as int]));
                                        }
                                        asteroid_spawns.push(ev);
                                        k = k + 1;
                                    }
                                    proof {
                                        let parent = w0.asteroids@[ai as int];
                                        let prev_bounds = bounds;
                                        let new_len = asteroid_spawns@.len() as int;
                                        bounds = bounds.push(new_len);
                                        let parents1 = st.split_parents.push(parent);
                                        assert(prev_bounds[st.split_parents.len() as int]
                                            == spawns_before.len());
                                        assert(bounds[parents1.len() as int] == new_len);
                                        assert forall|p: int|
                                            0 <= p < bounds.len() implies 0 <= #[trigger] bounds[p]
                                            <= new_len by {
                                            if p < prev_bounds.len() {
                                                assert(bounds[p] == prev_bounds[p]);
                                                assert(prev_bounds[p] <= spawns_before.len());
                                            }
                                        }
                                        assert forall|p: int|
                                            0 <= p < parents1.len() implies #[trigger] bounds[p]
                                            + 1 <= bounds[p + 1] <= bounds[p] + 3 by {
                                            if p < st.split_parents.len() {
                                                assert(bounds[p] == prev_bounds[p]);
                                                assert(bounds[p + 1] == prev_bounds[p + 1]);
                                            } else {
                                                assert(bounds[p] == spawns_before.len() as int);
                                                assert(bounds[p + 1] == new_len);
                                            }
                                        }
                                        assert forall|p: int, t: int|
                                            0 <= p < parents1.len() && bounds[p] <= t < bounds[p
                                            + 1] implies frag_matches(
                                            #[trigger] asteroid_spawns@[t],
                                            #[trigger] parents1[p],
                                        ) by {
                                            if p < st.split_parents.len() {
                                                assert(bounds[p + 1] == prev_bounds[p + 1]);
                                                assert(prev_bounds[p + 1]
                                                    <= spawns_before.len());
                                                assert(asteroid_spawns@[t] == spawns_before[t]);
                                                assert(frag_matches(
                                                    spawns_before[t],
                                                    st.split_parents[p],
                                                ));
                                                assert(parents1[p] == st.split_parents[p]);
                                            } else {
                                                assert(parents1[p] == parent);
                                                assert(spawns_before.len() <= t < new_len);
                                            }
                                        }
                                        assert(frags_grouped(
                                            asteroid_spawns@,
                                            parents1,
                                            bounds,
                                        ));
                                    }
                                },
                                None => {},
                            }
                            laser_despawns.push(LaserDespawnEvent(laser_e));
                            despawns.push(DespawnRequest { entity: asteroid_e, recursive: false });
                            pending.push(laser_e);
                            pending.push(asteroid_e);
                        },
                        _ => {
                            // the referenced entity is gone: skip silently
                        },
                    }
                }
            },
            Contact::ShipAsteroid(ship_e, damage_e) => {
                if contains_entity(&pending, ship_e) || contains_entity(&pending, damage_e) {
                    // already scheduled for despawn in this pass: skip silently
                } else {
                    let si_opt = find_ship(&world.ships, ship_e);
                    let di_opt = find_damage(&world.damages, damage_e);
                    proof {
                        lemma_find_ship(world.ships@, ship_e);
                        lemma_find_damage(world.damages@, damage_e);
                    }
                    match (si_opt, di_opt) {
                        (Some(si), Some(di)) => {
                            let value = world.damages[di].damage.value;
                            let mut entry = world.ships[si];
                            let dead = ship_damage(
                                &mut entry.ship,
                                entry.position,
                                value,
                                &mut explosions,
                            );
                            world.ships[si] = entry;
                            if dead {
                                despawns.push(DespawnRequest { entity: ship_e, recursive: true });
                                pending.push(ship_e);
                                game_over_requests = game_over_requests + 1;
                            }
                        },
                        _ => {
                            // the referenced entity is gone: skip silently
                        },
                    }
                }
            },
        }
        proof {
            let st1 = spec_resolve_upto(spec_init_state(w0), contacts@, w0, ci + 1);
            assert(st1 == spec_resolve_step(st, contacts@[ci as int], w0));
        }
        ci = ci + 1;
    }
    proof {
        assert(frags_grouped(asteroid_spawns@, spec_resolve(w0, events@).split_parents, bounds));
    }
    FrameOutput {
        explosions,
        asteroid_spawns,
        laser_despawns,
        despawns,
        game_over_requests,
    }
}

/// First entity of a classified contact: the laser of a laser–asteroid
/// contact, the ship of a ship–asteroid contact.
pub open spec fn contact_first(c: Contact) -> Entity {
    match c {
        Contact::LaserAsteroid(laser_e, _asteroid_e) => laser_e,
        Contact::ShipAsteroid(ship_e, _damage_e) => ship_e,
    }
}

/// Second entity of a classified contact: the asteroid hit by a laser, or
/// the entity damaging the ship.
pub open spec fn contact_second(c: Contact) -> Entity {
    match c {
        Contact::LaserAsteroid(_laser_e, asteroid_e) => asteroid_e,
        Contact::ShipAsteroid(_ship_e, damage_e) => damage_e,
    }
}

/// Pushing onto the pending list adds exactly one member.
proof fn lemma_push_contains(s: Seq<Entity>, x: Entity, y: Entity)
    ensures
        s.push(x).contains(y) <==> (s.contains(y) || x == y),
{
    if s.push(x).contains(y) {
        let k = choose|k: int| 0 <= k < s.push(x).len() && s.push(x)[k] == y;
        if k < s.len() {
            assert(s[k] == y);
        }
    }
    if s.contains(y) {
        let k = choose|k: int| 0 <= k < s.len() && s[k] == y;
        assert(s.push(x)[k] == y);
    }
    if x == y {
        assert(s.push(x)[s.len() as int] == y);
    }
}

/// A batch of laser–asteroid contacts on pairwise distinct entities: every
/// contact names a distinct laser and a distinct asteroid, and no entity
/// plays two roles.
pub open spec fn distinct_laser_contacts(contacts: Seq<Contact>) -> bool {
    &&& forall|i: int| 0 <= i < contacts.len() ==> (#[trigger] contacts[i]) is LaserAsteroid
    &&& forall|i: int|
        0 <= i < contacts.len() ==> contact_first(#[trigger] contacts[i]) != contact_second(
            contacts[i],
        )
    &&& forall|i: int, j: int|
        0 <= i < contacts.len() && 0 <= j < contacts.len() && i != j ==> contact_first(
            #[trigger] contacts[i],
        ) != contact_first(#[trigger] contacts[j]) && contact_second(contacts[i])
            != contact_second(contacts[j]) && contact_first(contacts[i]) != contact_second(
            contacts[j],
        )
}

/// Score of the asteroid a contact's laser hit, by its size.
pub open spec fn target_score(c: Contact, w: World) -> int {
    let ai = spec_find_asteroid(w.asteroids@, contact_second(c));
    if 0 <= ai < w.asteroids@.len() {
        w.asteroids@[ai].asteroid.size.spec_score() as int
    } else {
        0
    }
}

/// Sum of the size scores of the asteroids hit by the first `n` contacts.
pub open spec fn spec_laser_score_sum(contacts: Seq<Contact>, w: World, n: int) -> int
    decreases n,
{
    if n <= 0 {
        0
    } else {
        spec_laser_score_sum(contacts, w, n - 1) + target_score(contacts[n - 1], w)
    }
}

/// For any batch of simultaneous laser–asteroid contacts on pairwise
/// distinct lasers and asteroids, all present in the world and none yet
/// scheduled for despawn: the pass's score increase is exactly the sum of
/// the asteroids' size scores, each contact produces exactly one asteroid
/// despawn request, one laser despawn request and one explosion, ships and
/// the game-over count are untouched, and each contact counts at most one
/// split fan-out — so the fragment-spawn requests of the pass number
/// between zero and three per contact.
pub proof fn lemma_simultaneous_laser_hits(
    s0: ResolveState,
    contacts: Seq<Contact>,
    w: World,
    n: int,
)
    requires
        0 <= n <= contacts.len(),
        distinct_laser_contacts(contacts),
        forall|i: int|
            0 <= i < contacts.len() ==> spec_find_laser(
                w.lasers@,
                contact_first(#[trigger] contacts[i]),
            ) >= 0,
        forall|i: int|
            0 <= i < contacts.len() ==> spec_find_asteroid(
                w.asteroids@,
                contact_second(#[trigger] contacts[i]),
            ) >= 0,
        forall|i: int|
            0 <= i < contacts.len() ==> !s0.pending.contains(
                contact_first(#[trigger] contacts[i]),
            ) && !s0.pending.contains(contact_second(contacts[i])),
    ensures
        ({
            let s = spec_resolve_upto(s0, contacts, w, n);
            &&& s.score == s0.score + spec_laser_score_sum(contacts, w, n)
            &&& s.despawns.len() == s0.despawns.len() + n
            &&& s.laser_despawns.len() == s0.laser_despawns.len() + n
            &&& s.explosions.len() == s0.explosions.len() + n
            &&& forall|j: int|
                0 <= j < n ==> s.despawns[s0.despawns.len() + j] == (DespawnRequest {
                    entity: contact_second(#[trigger] contacts[j]),
                    recursive: false,
                })
            &&& forall|j: int|
                0 <= j < n ==> s.laser_despawns[s0.laser_despawns.len() + j]
                    == LaserDespawnEvent(contact_first(#[trigger] contacts[j]))
            &&& s.ships == s0.ships
            &&& s.game_overs == s0.game_overs
            &&& s0.split_parents.len() <= s.split_parents.len() <= s0.split_parents.len() + n
            &&& forall|e: Entity|
                #[trigger] s.pending.contains(e) <==> s0.pending.contains(e) || exists|j: int|
                    0 <= j < n && (e == contact_first(#[trigger] contacts[j]) || e
                        == contact_second(contacts[j]))
        }),
    decreases n,
{
    if n > 0 {
        lemma_simultaneous_laser_hits(s0, contacts, w, n - 1);
        let s_prev = spec_resolve_upto(s0, contacts, w, n - 1);
        let c = contacts[n - 1];
        let le = contact_first(c);
        let ae = contact_second(c);
        assert(c is LaserAsteroid);
        assert(c == Contact::LaserAsteroid(le, ae));
        // the contact's entities were not marked by any earlier contact
        assert(!s_prev.pending.contains(le));
        assert(!s_prev.pending.contains(ae));
        lemma_find_asteroid(w.asteroids@, ae);
        let s = spec_resolve_upto(s0, contacts, w, n);
        assert(s == spec_resolve_step(s_prev, c, w));
        assert(s.pending == s_prev.pending.push(le).push(ae));
        assert forall|e: Entity| #[trigger] s.pending.contains(e) <==> s0.pending.contains(e)
            || exists|j: int|
            0 <= j < n && (e == contact_first(#[trigger] contacts[j]) || e == contact_second(
                contacts[j],
            )) by {
            lemma_push_contains(s_prev.pending.push(le), ae, e);
            lemma_push_contains(s_prev.pending, le, e);
            if e == le || e == ae {
                assert(0 <= n - 1 < n && (e == contact_first(contacts[n - 1]) || e
                    == contact_second(contacts[n - 1])));
            }
        }
    }
}

/// Exactly one game-over transition is requested across any frame in which
/// the (single) ship's life reaches zero, and none otherwise, no matter how
/// many qualifying contacts the frame contains: the pass requests game-over
/// if and only if the ship's life has reached zero by the end of the pass,
/// and at most once.
pub proof fn lemma_game_over_once(s0: ResolveState, contacts: Seq<Contact>, w: World, n: int)
    requires
        0 <= n <= contacts.len(),
        s0.game_overs == 0,
        s0.ships.len() <= 1,
        s0.ships.len() == 1 ==> s0.ships[0].ship.life >= 1,
    ensures
        ({
            let s = spec_resolve_upto(s0, contacts, w, n);
            &&& s.ships.len() == s0.ships.len()
            &&& 0 <= s.game_overs <= 1
            &&& s0.ships.len() == 1 ==> s.ships[0].entity == s0.ships[0].entity
            &&& s0.ships.len() == 0 ==> s.game_overs == 0
            &&& s0.ships.len() == 1 ==> ((s.game_overs == 1 && s.ships[0].ship.life == 0
                && s.pending.contains(s.ships[0].entity)) || (s.game_overs == 0
                && s.ships[0].ship.life >= 1))
            &&& (s.game_overs == 1 <==> s0.ships.len() == 1 && s.ships[0].ship.life == 0)
        }),
    decreases n,
{
    if n > 0 {
        lemma_game_over_once(s0, contacts, w, n - 1);
        let s_prev = spec_resolve_upto(s0, contacts, w, n - 1);
        let s = spec_resolve_upto(s0, contacts, w, n);
        let c = contacts[n - 1];
        assert(s == spec_resolve_step(s_prev, c, w));
        match c {
            Contact::LaserAsteroid(laser_e, asteroid_e) => {
                if !(s_prev.pending.contains(laser_e) || s_prev.pending.contains(asteroid_e))
                    && spec_find_laser(w.lasers@, laser_e) >= 0 && spec_find_asteroid(
                    w.asteroids@,
                    asteroid_e,
                ) >= 0 {
                    // ships and the game-over count are untouched; pending only grows
                    if s0.ships.len() == 1 && s_prev.game_overs == 1 {
                        lemma_push_contains(
                            s_prev.pending.push(laser_e),
                            asteroid_e,
                            s_prev.ships[0].entity,
                        );
                        lemma_push_contains(s_prev.pending, laser_e, s_prev.ships[0].entity);
                    }
                }
            },
            Contact::ShipAsteroid(ship_e, damage_e) => {
                if !(s_prev.pending.contains(ship_e) || s_prev.pending.contains(damage_e)) {
                    let si = spec_find_ship(s_prev.ships, ship_e);
                    let di = spec_find_damage(w.damages@, damage_e);
                    if si >= 0 && di >= 0 {
                        lemma_find_ship(s_prev.ships, ship_e);
                        // a found ship means there is exactly one, at index 0
                        assert(s_prev.ships.len() == 1 && si == 0);
                        let entry = s_prev.ships[0];
                        let value = w.damages@[di].damage.value;
                        match spec_damage_outcome(entry.ship, value) {
                            DamageOutcome::Absorbed => {
                                assert(spec_apply_damage(entry.ship, value).life
                                    == entry.ship.life);
                            },
                            DamageOutcome::Hit => {
                                assert(spec_apply_damage(entry.ship, value).life >= 1);
                            },
                            DamageOutcome::Death => {
                                // the ship was alive, so no game-over had fired yet
                                assert(s_prev.game_overs == 0);
                                assert(spec_apply_damage(entry.ship, value).life == 0);
                                assert(s.pending[s_prev.pending.len() as int] == ship_e);
                                assert(s.pending.contains(ship_e));
                            },
                        }
                    }
                }
            },
        }
    }
}

} // verus!
