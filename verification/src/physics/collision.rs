//! Overlap detection and the resolution of terrain contact.

use crate::combat::DeathEvent;
use crate::math::{fits_i64, Aabb2d, UVec2, Vec2};
use crate::physics::listing::{
    is_listing, is_listing_before, lemma_listing_done, lemma_listing_next_row, lemma_listing_note,
    lemma_listing_pass, pair_before,
};
use crate::physics::movement::{GravityAffected, Velocity};
use crate::world::{lookup, Components, Entity, Transform, World};
use vstd::prelude::*;

verus! {

/// Marks a moving actor that takes part in overlap checks.
#[derive(Clone, Copy, Debug, PartialEq, Eq, Structural)]
pub struct Collider;

/// The box of a body that never moves. It is derived once, when the body is
/// made, and not again.
#[derive(Clone, Copy, Debug, PartialEq, Eq, Structural)]
pub struct StaticCollider(pub Aabb2d);

/// Two actors overlap. The first was spawned before the second.
#[derive(Clone, Copy, Debug, PartialEq, Eq, Structural)]
pub struct DynamicCollision(pub Entity, pub Entity);

/// An actor overlaps a static body that is not terrain.
#[derive(Clone, Copy, Debug, PartialEq, Eq, Structural)]
pub struct StaticCollision {
    pub static_entity: Entity,
    pub other: Entity,
}

/// An actor overlaps terrain.
#[derive(Clone, Copy, Debug, PartialEq, Eq, Structural)]
pub struct TerrainCollision {
    pub terrain: Entity,
    pub other: Entity,
}

/// What terrain does to an actor that touches it.
#[derive(Clone, Copy, Debug, PartialEq, Eq, Structural)]
pub enum TerrainHandler {
    Die,
    Stop,
}

/// Marks the static bodies that are ground or platforms.
#[derive(Clone, Copy, Debug, PartialEq, Eq, Structural)]
pub struct Terrain;

/// The box of a transform: centered at its position, with half of its scale
/// on each side. Rotation plays no part.
pub open spec fn box_of(transform: Transform) -> Aabb2d {
    Aabb2d { center: transform.translation, half_size: transform.scale.half() }
}

pub fn make_aabb(transform: &Transform) -> (hitbox: Aabb2d)
    ensures
        hitbox == box_of(*transform),
{
    Aabb2d::new(
        transform.translation,
        UVec2::new(transform.scale.x / 2, transform.scale.y / 2),
    )
}

/// An actor is an entity that is marked as a collider and has a transform,
/// from which its box is derived anew whenever it is tested.
pub open spec fn is_actor(e: Components) -> bool {
    e.collider is Some && e.transform is Some
}

impl DynamicCollision {
    /// The two actors, as places in the store.
    pub open spec fn pair(self) -> (int, int) {
        ((self.0).0 as int, (self.1).0 as int)
    }
}

impl StaticCollision {
    /// The static body and the actor, as places in the store.
    pub open spec fn pair(self) -> (int, int) {
        (self.static_entity.0 as int, self.other.0 as int)
    }
}

impl TerrainCollision {
    /// The terrain and the actor, as places in the store.
    pub open spec fn pair(self) -> (int, int) {
        (self.terrain.0 as int, self.other.0 as int)
    }
}

/// Whether `p` is a pair of two different actors, the one spawned earlier
/// first, whose boxes overlap.
pub open spec fn actors_overlap(s: Seq<Components>, p: (int, int)) -> bool {
    &&& 0 <= p.0 < p.1 < s.len()
    &&& is_actor(s[p.0])
    &&& is_actor(s[p.1])
    &&& box_of(s[p.0].transform->0).overlaps(box_of(s[p.1].transform->0))
}

/// Whether `p` is a static body and an actor whose boxes overlap.
pub open spec fn touches_static(s: Seq<Components>, p: (int, int)) -> bool {
    &&& 0 <= p.0 < s.len()
    &&& 0 <= p.1 < s.len()
    &&& s[p.0].static_collider is Some
    &&& is_actor(s[p.1])
    &&& box_of(s[p.1].transform->0).overlaps((s[p.0].static_collider->0).0)
}

/// The unordered pairs of actors that overlap, each as one ordered pair.
pub open spec fn overlapping_actors(s: Seq<Components>) -> Set<(int, int)> {
    Set::new(|p: (int, int)| actors_overlap(s, p))
}

/// The pairs of a terrain body and an actor that overlap.
pub open spec fn terrain_contacts(s: Seq<Components>) -> Set<(int, int)> {
    Set::new(|p: (int, int)| touches_static(s, p) && s[p.0].terrain is Some)
}

/// The pairs of a static body that is not terrain and an actor that overlap.
pub open spec fn static_contacts(s: Seq<Components>) -> Set<(int, int)> {
    Set::new(|p: (int, int)| touches_static(s, p) && s[p.0].terrain is None)
}

pub open spec fn dynamic_pairs(events: Seq<DynamicCollision>) -> Seq<(int, int)> {
    events.map_values(|e: DynamicCollision| e.pair())
}

pub open spec fn static_pairs(events: Seq<StaticCollision>) -> Seq<(int, int)> {
    events.map_values(|e: StaticCollision| e.pair())
}

pub open spec fn terrain_pairs(events: Seq<TerrainCollision>) -> Seq<(int, int)> {
    events.map_values(|e: TerrainCollision| e.pair())
}

/// Reports every pair of actors whose boxes overlap: each unordered pair
/// once, the actor spawned earlier first, in dictionary order. Nothing is
/// moved; the overlap is only made known.
pub fn check_dynamic_collisions(world: &World) -> (events: Vec<DynamicCollision>)
    ensures
        is_listing(dynamic_pairs(events@), overlapping_actors(world@)),
{
    let n: usize = world.entities.len();
    let ghost wanted = overlapping_actors(world@);
    let mut events: Vec<DynamicCollision> = Vec::new();
    let mut a: usize = 0;
    assert(dynamic_pairs(events@) =~= Seq::empty());
    while a < n
        invariant
            a <= n,
            n == world@.len(),
            wanted == overlapping_actors(world@),
            is_listing_before(dynamic_pairs(events@), wanted, (a as int, a + 1)),
        decreases n - a,
    {
        let first = world.entities[a];
        if first.collider.is_some() && first.transform.is_some() {
            let hitbox = make_aabb(&first.transform.unwrap());
            let mut b: usize = a + 1;
            while b < n
                invariant
                    a < b <= n,
                    n == world@.len(),
                    first == world@[a as int],
                    is_actor(first),
                    hitbox == box_of(first.transform->0),
                    wanted == overlapping_actors(world@),
                    is_listing_before(dynamic_pairs(events@), wanted, (a as int, b as int)),
                decreases n - b,
            {
                let second = world.entities[b];
                let ghost pairs = dynamic_pairs(events@);
                if second.collider.is_some() && second.transform.is_some() && hitbox.intersects(
                    &make_aabb(&second.transform.unwrap()),
                ) {
                    events.push(DynamicCollision(Entity(a), Entity(b)));
                    proof {
                        assert(wanted.contains((a as int, b as int)));
                        lemma_listing_note(pairs, wanted, (a as int, b as int));
                        assert(dynamic_pairs(events@) =~= pairs.push((a as int, b as int)));
                    }
                } else {
                    proof {
                        lemma_listing_pass(pairs, wanted, (a as int, b as int));
                    }
                }
                b += 1;
            }
            proof {
                lemma_listing_next_row(dynamic_pairs(events@), wanted, (a as int, n as int), a + 2);
            }
        } else {
            proof {
                lemma_listing_next_row(dynamic_pairs(events@), wanted, (a as int, a + 1), a + 2);
            }
        }
        a += 1;
    }
    proof {
        lemma_listing_done(dynamic_pairs(events@), wanted, (n as int, n + 1));
    }
    events
}

/// What the report of the scan of actors says of two actors: their overlap is
/// reported if and only if their boxes overlap, under the pair with the actor
/// spawned earlier first. No pair is reported twice, and none in both orders.
pub proof fn overlap_is_reported_once(
    s: Seq<Components>,
    events: Seq<DynamicCollision>,
    a: usize,
    b: usize,
)
    requires
        is_listing(dynamic_pairs(events), overlapping_actors(s)),
        a < b < s.len(),
        is_actor(s[a as int]),
        is_actor(s[b as int]),
    ensures
        events.contains(DynamicCollision(Entity(a), Entity(b))) <==> box_of(
            s[a as int].transform->0,
        ).overlaps(box_of(s[b as int].transform->0)),
        !events.contains(DynamicCollision(Entity(b), Entity(a))),
        forall|j: int, k: int|
            0 <= j < events.len() && 0 <= k < events.len() && j != k ==> events[j] != events[k],
{
    let pairs = dynamic_pairs(events);
    let wanted = overlapping_actors(s);
    let forth = DynamicCollision(Entity(a), Entity(b));
    let back = DynamicCollision(Entity(b), Entity(a));
    if events.contains(forth) {
        let k = choose|k: int| 0 <= k < events.len() && events[k] == forth;
        assert(pairs[k] == forth.pair());
        assert(wanted.contains(pairs[k]));
    }
    if wanted.contains((a as int, b as int)) {
        assert(pairs.contains((a as int, b as int)));
        let k = choose|k: int| 0 <= k < pairs.len() && pairs[k] == (a as int, b as int);
        assert(pairs[k] == events[k].pair());
        assert(events[k] == forth);
    }
    if events.contains(back) {
        let k = choose|k: int| 0 <= k < events.len() && events[k] == back;
        assert(pairs[k] == back.pair());
        assert(wanted.contains(pairs[k]));
    }
    assert forall|j: int, k: int|
        0 <= j < events.len() && 0 <= k < events.len() && j != k implies events[j] != events[k] by {
        assert(pairs[j] == events[j].pair() && pairs[k] == events[k].pair());
        if j < k {
            assert(pair_before(pairs[j], pairs[k]));
        } else {
            assert(pair_before(pairs[k], pairs[j]));
        }
    }
}

/// Reports every pair of a static body and an actor whose boxes overlap, in
/// dictionary order: as a terrain contact if the static body is terrain, as a
/// static contact if it is not. A contact is reported in every tick in which
/// it holds.
pub fn check_static_collisions(world: &World) -> (events: (
    Vec<StaticCollision>,
    Vec<TerrainCollision>,
))
    ensures
        is_listing(static_pairs(events.0@), static_contacts(world@)),
        is_listing(terrain_pairs(events.1@), terrain_contacts(world@)),
{
    let n: usize = world.entities.len();
    let ghost on_static = static_contacts(world@);
    let ghost on_terrain = terrain_contacts(world@);
    let mut static_events: Vec<StaticCollision> = Vec::new();
    let mut terrain_events: Vec<TerrainCollision> = Vec::new();
    let mut e1: usize = 0;
    assert(static_pairs(static_events@) =~= Seq::empty());
    assert(terrain_pairs(terrain_events@) =~= Seq::empty());
    while e1 < n
        invariant
            e1 <= n,
            n == world@.len(),
            on_static == static_contacts(world@),
            on_terrain == terrain_contacts(world@),
            is_listing_before(static_pairs(static_events@), on_static, (e1 as int, 0)),
            is_listing_before(terrain_pairs(terrain_events@), on_terrain, (e1 as int, 0)),
        decreases n - e1,
    {
        let body = world.entities[e1];
        if let Some(StaticCollider(static_box)) = body.static_collider {
            let mut e2: usize = 0;
            while e2 < n
                invariant
                    e1 < n,
                    e2 <= n,
                    n == world@.len(),
                    body == world@[e1 as int],
                    body.static_collider == Some(StaticCollider(static_box)),
                    on_static == static_contacts(world@),
                    on_terrain == terrain_contacts(world@),
                    is_listing_before(
                        static_pairs(static_events@),
                        on_static,
                        (e1 as int, e2 as int),
                    ),
                    is_listing_before(
                        terrain_pairs(terrain_events@),
                        on_terrain,
                        (e1 as int, e2 as int),
                    ),
                decreases n - e2,
            {
                let actor = world.entities[e2];
                let ghost at = (e1 as int, e2 as int);
                let ghost statics = static_pairs(static_events@);
                let ghost terrains = terrain_pairs(terrain_events@);
                if actor.collider.is_some() && actor.transform.is_some() && make_aabb(
                    &actor.transform.unwrap(),
                ).intersects(&static_box) {
                    assert(touches_static(world@, at));
                    match body.terrain {
                        Some(_) => {
                            terrain_events.push(
                                TerrainCollision { terrain: Entity(e1), other: Entity(e2) },
                            );
                            proof {
                                lemma_listing_note(terrains, on_terrain, at);
                                lemma_listing_pass(statics, on_static, at);
                                assert(terrain_pairs(terrain_events@) =~= terrains.push(at));
                            }
                        },
                        None => {
                            static_events.push(
                                StaticCollision { static_entity: Entity(e1), other: Entity(e2) },
                            );
                            proof {
                                lemma_listing_note(statics, on_static, at);
                                lemma_listing_pass(terrains, on_terrain, at);
                                assert(static_pairs(static_events@) =~= statics.push(at));
                            }
                        },
                    }
                } else {
                    proof {
                        assert(!touches_static(world@, at));
                        lemma_listing_pass(statics, on_static, at);
                        lemma_listing_pass(terrains, on_terrain, at);
                    }
                }
                e2 += 1;
            }
            proof {
                lemma_listing_next_row(static_pairs(static_events@), on_static, (e1 as int, n as int), 0);
                lemma_listing_next_row(
                    terrain_pairs(terrain_events@),
                    on_terrain,
                    (e1 as int, n as int),
                    0,
                );
            }
        } else {
            proof {
                lemma_listing_next_row(static_pairs(static_events@), on_static, (e1 as int, 0), 0);
                lemma_listing_next_row(terrain_pairs(terrain_events@), on_terrain, (e1 as int, 0), 0);
            }
        }
        e1 += 1;
    }
    proof {
        lemma_listing_done(static_pairs(static_events@), on_static, (n as int, 0));
        lemma_listing_done(terrain_pairs(terrain_events@), on_terrain, (n as int, 0));
    }
    (static_events, terrain_events)
}

/// Whether an entity carries what the resolution of a terrain contact reads
/// and writes: a transform, a velocity and a handler.
pub open spec fn resolvable(e: Components) -> bool {
    e.transform is Some && e.velocity is Some && e.handler is Some
}

/// A contact is vertical (from above or below) when the point of the terrain
/// box nearest to the actor's center lies strictly between the left and the
/// right edge of that box. Every other contact is horizontal.
pub open spec fn is_vertical_contact(terrain: Aabb2d, closest: Vec2) -> bool {
    terrain.min_x() < closest.x < terrain.max_x()
}

/// The corner guard, on the axis across the contact: the actor is moved only
/// if it does not lie beyond the nearest point on the side on which that point
/// lies of the center. It keeps an actor that grazes a corner from being
/// thrown to the far side of the box.
pub open spec fn guard_passes(closest: int, center: int, actor: int) -> bool {
    !((closest > center && actor > closest) || (closest < center && actor < closest))
}

/// Where the actor's center is put on the axis of the contact: half of the
/// actor's size away from the nearest point, on the side of the box on which
/// that point lies.
pub open spec fn snapped(closest: int, center: int, half: int) -> int {
    if closest > center {
        closest + half
    } else {
        closest - half
    }
}

/// Whether stopping `actor` at `terrain` stays within the range of positions.
pub open spec fn stop_fits(actor: Components, terrain: Aabb2d) -> bool
    recommends
        resolvable(actor),
{
    let xform = actor.transform->0;
    let closest = terrain.nearest(xform.translation);
    let center = terrain.center;
    let half = xform.scale.half();
    if is_vertical_contact(terrain, closest) {
        guard_passes(closest.x as int, center.x as int, xform.translation.x as int) ==> fits_i64(
            snapped(closest.y as int, center.y as int, half.y as int),
        )
    } else {
        guard_passes(closest.y as int, center.y as int, xform.translation.y as int) ==> fits_i64(
            snapped(closest.x as int, center.x as int, half.x as int),
        )
    }
}

/// The actor after terrain stopped it. The velocity along the axis of the
/// contact is always set to zero. The position along that axis is snapped only
/// if the corner guard passes; an actor snapped onto the top of the box has
/// landed.
pub open spec fn stop_at(actor: Components, terrain: Aabb2d) -> Components
    recommends
        resolvable(actor),
{
    let xform = actor.transform->0;
    let vel = (actor.velocity->0).0;
    let closest = terrain.nearest(xform.translation);
    let center = terrain.center;
    let half = xform.scale.half();
    if is_vertical_contact(terrain, closest) {
        let snaps = guard_passes(closest.x as int, center.x as int, xform.translation.x as int);
        let lands = snaps && closest.y > center.y;
        let y = if snaps {
            snapped(closest.y as int, center.y as int, half.y as int) as i64
        } else {
            xform.translation.y
        };
        Components {
            transform: Some(
                Transform { translation: Vec2 { x: xform.translation.x, y }, scale: xform.scale },
            ),
            velocity: Some(Velocity(Vec2 { x: vel.x, y: 0 })),
            gravity: if lands && actor.gravity is Some {
                Some(GravityAffected { is_airborne: false })
            } else {
                actor.gravity
            },
            ..actor
        }
    } else {
        let snaps = guard_passes(closest.y as int, center.y as int, xform.translation.y as int);
        let x = if snaps {
            snapped(closest.x as int, center.x as int, half.x as int) as i64
        } else {
            xform.translation.x
        };
        Components {
            transform: Some(
                Transform { translation: Vec2 { x, y: xform.translation.y }, scale: xform.scale },
            ),
            velocity: Some(Velocity(Vec2 { x: 0, y: vel.y })),
            ..actor
        }
    }
}

/// Stops an actor at a terrain box, one axis at a time.
pub fn resolve_stop(actor: Components, terrain: &Aabb2d) -> (after: Components)
    requires
        resolvable(actor),
        stop_fits(actor, *terrain),
    ensures
        after == stop_at(actor, *terrain),
{
    let xform = actor.transform.unwrap();
    let vel = actor.velocity.unwrap();
    let closest = terrain.closest_point(xform.translation);
    let center = terrain.center();
    let half_x = terrain.half_size().x;
    let mut position = xform.translation;
    let mut velocity = vel.0;
    let mut gravity = actor.gravity;

    if (center.x as i128 - half_x as i128) < closest.x as i128 && (closest.x as i128)
        < center.x as i128 + half_x as i128 {
        if !((closest.x > center.x && xform.translation.x > closest.x) || (closest.x < center.x
            && xform.translation.x < closest.x)) {
            let half_height = (xform.scale.y / 2) as i64;
            if closest.y > center.y {
                if gravity.is_some() {
                    gravity = Some(GravityAffected { is_airborne: false });
                }
                position.y = closest.y + half_height;
            } else {
                position.y = closest.y - half_height;
            }
        }
        velocity.y = 0;
    } else {
        if !((closest.y > center.y && xform.translation.y > closest.y) || (closest.y < center.y
            && xform.translation.y < closest.y)) {
            let half_width = (xform.scale.x / 2) as i64;
            if closest.x > center.x {
                position.x = closest.x + half_width;
            } else {
                position.x = closest.x - half_width;
            }
        }
        velocity.x = 0;
    }
    let mut after = actor;
    after.transform = Some(Transform { translation: position, scale: xform.scale });
    after.velocity = Some(Velocity(velocity));
    after.gravity = gravity;
    after
}

/// What one terrain contact does to the world, and the death it reports.
///
/// The contact is dropped when the actor is unknown or lacks a transform, a
/// velocity or a handler. An actor that dies on contact is reported and left
/// as it is. An actor that stops is moved out of the terrain box; if the
/// terrain is unknown or has no box, the contact is dropped.
pub open spec fn resolve_one(s: Seq<Components>, hit: TerrainCollision) -> (
    Seq<Components>,
    Option<DeathEvent>,
) {
    match lookup(s, hit.other) {
        None => (s, None),
        Some(actor) => if !resolvable(actor) {
            (s, None)
        } else if actor.handler == Some(TerrainHandler::Die) {
            (s, Some(DeathEvent(hit.other)))
        } else {
            match lookup(s, hit.terrain) {
                Some(Components { static_collider: Some(StaticCollider(terrain)), .. }) => (
                    s.update(hit.other.0 as int, stop_at(actor, terrain)),
                    None,
                ),
                _ => (s, None),
            }
        },
    }
}

/// Whether resolving one contact stays within the range of positions.
pub open spec fn resolve_one_fits(s: Seq<Components>, hit: TerrainCollision) -> bool {
    match (lookup(s, hit.other), lookup(s, hit.terrain)) {
        (Some(actor), Some(Components { static_collider: Some(StaticCollider(terrain)), .. })) => {
            resolvable(actor) && actor.handler == Some(TerrainHandler::Stop) ==> stop_fits(
                actor,
                terrain,
            )
        },
        _ => true,
    }
}

/// The world after the contacts were resolved one after the other, in the
/// order of the list, and the deaths reported on the way, in that order.
pub open spec fn resolve_all(s: Seq<Components>, hits: Seq<TerrainCollision>) -> (
    Seq<Components>,
    Seq<DeathEvent>,
)
    decreases hits.len(),
{
    if hits.len() == 0 {
        (s, Seq::empty())
    } else {
        let (before, deaths) = resolve_all(s, hits.drop_last());
        let (after, death) = resolve_one(before, hits.last());
        (
            after,
            match death {
                Some(d) => deaths.push(d),
                None => deaths,
            },
        )
    }
}

/// Whether resolving the contacts in order stays within the range of
/// positions at every step.
pub open spec fn resolve_all_fits(s: Seq<Components>, hits: Seq<TerrainCollision>) -> bool
    decreases hits.len(),
{
    hits.len() == 0 || (resolve_all_fits(s, hits.drop_last()) && resolve_one_fits(
        resolve_all(s, hits.drop_last()).0,
        hits.last(),
    ))
}

/// Resolves the terrain contacts of a tick, in the order of the list, and
/// returns the deaths to report.
pub fn terrain_collision_handler(world: &mut World, terrain_events: &Vec<TerrainCollision>) -> (deaths:
    Vec<DeathEvent>)
    requires
        resolve_all_fits(old(world)@, terrain_events@),
    ensures
        final(world)@ == resolve_all(old(world)@, terrain_events@).0,
        deaths@ == resolve_all(old(world)@, terrain_events@).1,
{
    let mut deaths: Vec<DeathEvent> = Vec::new();
    let mut i: usize = 0;
    while i < terrain_events.len()
        invariant
            i <= terrain_events@.len(),
            resolve_all_fits(old(world)@, terrain_events@),
            resolve_all_fits(old(world)@, terrain_events@.take(i as int)),
            world@ == resolve_all(old(world)@, terrain_events@.take(i as int)).0,
            deaths@ == resolve_all(old(world)@, terrain_events@.take(i as int)).1,
        decreases terrain_events@.len() - i,
    {
        let hit = terrain_events[i];
        proof {
            let next = terrain_events@.take(i + 1);
            assert(next.drop_last() == terrain_events@.take(i as int));
            assert(next.last() == hit);
            lemma_fits_prefix(old(world)@, terrain_events@, i + 1);
        }
        if hit.other.0 < world.entities.len() {
            let actor = world.entities[hit.other.0];
            if actor.transform.is_some() && actor.velocity.is_some() && actor.handler.is_some() {
                match actor.handler {
                    Some(TerrainHandler::Die) => {
                        deaths.push(DeathEvent(hit.other));
                    },
                    _ => {
                        if hit.terrain.0 < world.entities.len() {
                            match world.entities[hit.terrain.0].static_collider {
                                Some(StaticCollider(terrain)) => {
                                    let after = resolve_stop(actor, &terrain);
                                    world.entities.set(hit.other.0, after);
                                },
                                None => {},
                            }
                        }
                    },
                }
            }
        }
        i += 1;
    }
    proof {
        assert(terrain_events@.take(i as int) == terrain_events@);
    }
    deaths
}

/// A contact of an actor that dies on touching terrain reports that actor
/// exactly once and changes neither its position nor its velocity, nor anything
/// else in the world.
pub proof fn die_reports_once_and_changes_nothing(s: Seq<Components>, hit: TerrainCollision)
    requires
        lookup(s, hit.other) is Some,
        resolvable(lookup(s, hit.other)->0),
        (lookup(s, hit.other)->0).handler == Some(TerrainHandler::Die),
    ensures
        resolve_one(s, hit) == (s, Some(DeathEvent(hit.other))),
        resolve_all(s, seq![hit]) == (s, seq![DeathEvent(hit.other)]),
        resolve_all_fits(s, seq![hit]),
{
    let hits = seq![hit];
    assert(hits.drop_last() == Seq::<TerrainCollision>::empty());
    assert(hits.last() == hit);
    assert(resolve_all(s, hits.drop_last()) == (s, Seq::<DeathEvent>::empty()));
    assert(resolve_all_fits(s, hits.drop_last()));
    assert(Seq::<DeathEvent>::empty().push(DeathEvent(hit.other)) == seq![DeathEvent(hit.other)]);
}

/// When the contact is vertical the nearest point has the actor's own
/// x-coordinate, so the corner guard passes: a vertical contact always snaps.
pub proof fn vertical_contact_always_snaps(actor: Components, terrain: Aabb2d)
    requires
        resolvable(actor),
        is_vertical_contact(terrain, terrain.nearest((actor.transform->0).translation)),
    ensures
        terrain.nearest((actor.transform->0).translation).x == (actor.transform->0).translation.x,
        guard_passes(
            terrain.nearest((actor.transform->0).translation).x as int,
            terrain.center.x as int,
            (actor.transform->0).translation.x as int,
        ),
{
}

/// An actor that comes down on the top of a terrain box, with the corner guard
/// passed, is put with its lower edge on the nearest point, loses its vertical
/// velocity and is no longer airborne. Nothing moves along the other axis.
pub proof fn landing_on_top_snaps_and_grounds(actor: Components, terrain: Aabb2d)
    requires
        resolvable(actor),
        stop_fits(actor, terrain),
        is_vertical_contact(terrain, terrain.nearest((actor.transform->0).translation)),
        guard_passes(
            terrain.nearest((actor.transform->0).translation).x as int,
            terrain.center.x as int,
            (actor.transform->0).translation.x as int,
        ),
        terrain.nearest((actor.transform->0).translation).y > terrain.center.y,
    ensures
        ({
            let before = actor.transform->0;
            let after = stop_at(actor, terrain);
            &&& (after.transform->0).translation.y == terrain.nearest(before.translation).y
                + before.scale.y / 2
            &&& (after.transform->0).translation.x == before.translation.x
            &&& (after.velocity->0).0.y == 0
            &&& (after.velocity->0).0.x == (actor.velocity->0).0.x
            &&& actor.gravity is Some ==> after.gravity == Some(
                GravityAffected { is_airborne: false },
            )
            &&& actor.gravity is None ==> after.gravity is None
        }),
{
}

/// An actor that runs into the side of a terrain box, with the corner guard
/// passed, is put with its edge on the nearest point, on the side of the box
/// on which that point lies, and loses its horizontal velocity. Its vertical
/// velocity, its height and its airborne state stay as they are.
pub proof fn side_contact_snaps_and_stops(actor: Components, terrain: Aabb2d)
    requires
        resolvable(actor),
        stop_fits(actor, terrain),
        !is_vertical_contact(terrain, terrain.nearest((actor.transform->0).translation)),
        guard_passes(
            terrain.nearest((actor.transform->0).translation).y as int,
            terrain.center.y as int,
            (actor.transform->0).translation.y as int,
        ),
    ensures
        ({
            let before = actor.transform->0;
            let closest = terrain.nearest(before.translation);
            let after = stop_at(actor, terrain);
            &&& closest.x > terrain.center.x ==> (after.transform->0).translation.x == closest.x
                + before.scale.x / 2
            &&& closest.x <= terrain.center.x ==> (after.transform->0).translation.x == closest.x
                - before.scale.x / 2
            &&& (after.transform->0).translation.y == before.translation.y
            &&& (after.velocity->0).0.x == 0
            &&& (after.velocity->0).0.y == (actor.velocity->0).0.y
            &&& after.gravity == actor.gravity
        }),
{
}

/// When the corner guard fails the actor stays where it is, and still loses
/// its velocity along the axis of the contact, and only that.
pub proof fn failed_guard_stops_without_moving(actor: Components, terrain: Aabb2d)
    requires
        resolvable(actor),
        ({
            let at = (actor.transform->0).translation;
            let closest = terrain.nearest(at);
            if is_vertical_contact(terrain, closest) {
                !guard_passes(closest.x as int, terrain.center.x as int, at.x as int)
            } else {
                !guard_passes(closest.y as int, terrain.center.y as int, at.y as int)
            }
        }),
    ensures
        ({
            let at = (actor.transform->0).translation;
            let after = stop_at(actor, terrain);
            &&& after.transform == actor.transform
            &&& after.gravity == actor.gravity
            &&& !is_vertical_contact(terrain, terrain.nearest(at))
            &&& (after.velocity->0).0.x == 0
            &&& (after.velocity->0).0.y == (actor.velocity->0).0.y
        }),
{
}

/// Stopping changes nothing but the position, the velocity and the airborne
/// state of the actor.
pub proof fn stop_keeps_other_attributes(actor: Components, terrain: Aabb2d)
    requires
        resolvable(actor),
    ensures
        ({
            let after = stop_at(actor, terrain);
            &&& resolvable(after)
            &&& (after.transform->0).scale == (actor.transform->0).scale
            &&& after.gravity is Some <==> actor.gravity is Some
            &&& after == (Components {
                transform: after.transform,
                velocity: after.velocity,
                gravity: after.gravity,
                ..actor
            })
        }),
{
}

/// A contact that persists can be resolved again and again: stopping an actor
/// that was just stopped at the same terrain changes nothing. This holds of
/// every side contact, and of a vertical contact unless the center of the
/// actor lies between the lower and the upper edge of the box, where each
/// resolution moves it by half its height.
pub proof fn stopping_again_changes_nothing(actor: Components, terrain: Aabb2d)
    requires
        resolvable(actor),
        stop_fits(actor, terrain),
        ({
            let at = (actor.transform->0).translation;
            is_vertical_contact(terrain, terrain.nearest(at)) ==> at.y <= terrain.min_y() || at.y
                >= terrain.max_y()
        }),
    ensures
        stop_fits(stop_at(actor, terrain), terrain),
        stop_at(stop_at(actor, terrain), terrain) == stop_at(actor, terrain),
{
}

/// Stopping grounds an actor only when it lands on top of the terrain: in
/// every other case the airborne state stays as it was.
pub proof fn only_landing_grounds(actor: Components, terrain: Aabb2d)
    requires
        resolvable(actor),
        stop_at(actor, terrain).gravity != actor.gravity,
    ensures
        ({
            let closest = terrain.nearest((actor.transform->0).translation);
            &&& is_vertical_contact(terrain, closest)
            &&& closest.y > terrain.center.y
            &&& (actor.gravity->0).is_airborne
            &&& !(stop_at(actor, terrain).gravity->0).is_airborne
        }),
{
}

/// If a list of contacts can be resolved within range, so can each of its
/// prefixes.
proof fn lemma_fits_prefix(s: Seq<Components>, hits: Seq<TerrainCollision>, n: int)
    requires
        resolve_all_fits(s, hits),
        0 <= n <= hits.len(),
    ensures
        resolve_all_fits(s, hits.take(n)),
    decreases hits.len(),
{
    if n == hits.len() {
        assert(hits.take(n) == hits);
    } else {
        lemma_fits_prefix(s, hits.drop_last(), n);
        assert(hits.drop_last().take(n) == hits.take(n));
    }
}

} // verus!
