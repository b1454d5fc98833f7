//! The stages of a simulated tick, and the tick itself.

use crate::combat::DeathEvent;
use crate::input::MovementInput;
use crate::math::{Aabb2d, Vec2};
use crate::physics::collision::{
    box_of, check_dynamic_collisions, check_static_collisions, dynamic_pairs, is_actor, make_aabb,
    overlapping_actors, resolvable, resolve_all, resolve_all_fits, static_contacts, static_pairs,
    stop_at, stop_fits, terrain_collision_handler, terrain_contacts, terrain_pairs,
    DynamicCollision, StaticCollider, StaticCollision, Terrain, TerrainCollision,
};
use crate::physics::limits::{in_safe_range, safe_range_admits_tick, LONGEST_STEP};
use crate::physics::listing::{is_listing, listing_is_unique};
use crate::physics::movement::{
    after_gravity, after_movement, after_velocity, apply_gravity, apply_movement, apply_velocity,
    gravity_fits, gravity_fits_entity, gravity_step, movement_fits, movement_fits_entity,
    movement_step, velocity_fits, velocity_fits_entity, velocity_step, GravityAffected, Velocity,
    GRAVITY_MULTIPLIER,
};
use crate::world::{Components, Role, Transform, World};
use vstd::prelude::*;

pub mod collision;
pub mod limits;
pub mod listing;
pub mod movement;

verus! {

/// What a piece of terrain is made of: where it is, its box and the mark of
/// terrain. The box is derived from the transform here, once.
#[derive(Clone, Copy, Debug, PartialEq, Eq, Structural)]
pub struct TerrainBundle {
    pub transform: Transform,
    pub collider: StaticCollider,
    pub terrain: Terrain,
}

impl TerrainBundle {
    pub fn new(transform: Transform) -> (bundle: TerrainBundle)
        ensures
            bundle == (TerrainBundle {
                transform,
                collider: StaticCollider(box_of(transform)),
                terrain: Terrain,
            }),
    {
        TerrainBundle { transform, collider: StaticCollider(make_aabb(&transform)), terrain: Terrain }
    }

    /// The attributes of the entity that the bundle describes.
    pub open spec fn as_components(self) -> Components {
        Components {
            transform: Some(self.transform),
            static_collider: Some(self.collider),
            terrain: Some(self.terrain),
            ..Components::bare()
        }
    }

    pub fn components(&self) -> (c: Components)
        ensures
            c == self.as_components(),
    {
        let mut c = Components::new();
        c.transform = Some(self.transform);
        c.static_collider = Some(self.collider);
        c.terrain = Some(self.terrain);
        c
    }
}

/// The colors in which boxes are drawn for inspection.
#[derive(Clone, Copy, Debug, PartialEq, Eq, Structural)]
pub enum WireColor {
    /// The player.
    Green,
    /// Any other actor.
    Red,
    /// Terrain.
    Blue,
    /// A static body that is not terrain.
    Yellow,
}

/// A box to draw, and its color.
#[derive(Clone, Copy, Debug, PartialEq, Eq, Structural)]
pub struct Wireframe {
    pub hitbox: Aabb2d,
    pub color: WireColor,
}

/// The wireframe of an actor: its box as it is derived for collision.
pub open spec fn actor_frame(e: Components) -> Option<Wireframe> {
    if is_actor(e) {
        Some(
            Wireframe {
                hitbox: box_of(e.transform->0),
                color: if e.player is Some {
                    WireColor::Green
                } else {
                    WireColor::Red
                },
            },
        )
    } else {
        None
    }
}

/// The wireframe of a static body: its stored box.
pub open spec fn static_frame(e: Components) -> Option<Wireframe> {
    match e.static_collider {
        Some(StaticCollider(hitbox)) => Some(
            Wireframe {
                hitbox,
                color: if e.terrain is Some {
                    WireColor::Blue
                } else {
                    WireColor::Yellow
                },
            },
        ),
        None => None,
    }
}

/// The boxes to draw for inspection: those of all actors, then those of all
/// static bodies, each group in the order of the store. Nothing is changed.
pub fn show_phys_things(world: &World) -> (frames: Vec<Wireframe>)
    ensures
        frames@ == world@.filter_map(|e: Components| actor_frame(e)) + world@.filter_map(
            |e: Components| static_frame(e),
        ),
{
    let n: usize = world.entities.len();
    let ghost of_actor = |e: Components| actor_frame(e);
    let ghost of_static = |e: Components| static_frame(e);
    let mut frames: Vec<Wireframe> = Vec::new();
    let mut i: usize = 0;
    while i < n
        invariant
            i <= n,
            n == world@.len(),
            of_actor == |e: Components| actor_frame(e),
            frames@ == world@.take(i as int).filter_map(of_actor),
        decreases n - i,
    {
        let e = world.entities[i];
        proof {
            world@.lemma_filter_map_take_succ(of_actor, i as int);
        }
        if e.collider.is_some() && e.transform.is_some() {
            let color = if e.player.is_some() {
                WireColor::Green
            } else {
                WireColor::Red
            };
            frames.push(Wireframe { hitbox: make_aabb(&e.transform.unwrap()), color });
        }
        i += 1;
    }
    assert(world@.take(n as int) == world@);
    let ghost actors = frames@;
    let mut k: usize = 0;
    while k < n
        invariant
            k <= n,
            n == world@.len(),
            of_static == |e: Components| static_frame(e),
            frames@ == actors + world@.take(k as int).filter_map(of_static),
        decreases n - k,
    {
        let e = world.entities[k];
        proof {
            world@.lemma_filter_map_take_succ(of_static, k as int);
        }
        if let Some(StaticCollider(hitbox)) = e.static_collider {
            let color = if e.terrain.is_some() {
                WireColor::Blue
            } else {
                WireColor::Yellow
            };
            frames.push(Wireframe { hitbox, color });
        }
        k += 1;
    }
    assert(world@.take(n as int) == world@);
    frames
}

/// The terrain contacts of a world, as the scan of static bodies reports
/// them.
pub open spec fn terrain_report(s: Seq<Components>) -> Seq<TerrainCollision> {
    choose|events: Seq<TerrainCollision>| is_listing(terrain_pairs(events), terrain_contacts(s))
}

/// Whatever lists the terrain contacts of a world in dictionary order is the
/// report of the scan.
pub proof fn terrain_report_is_unique(s: Seq<Components>, events: Seq<TerrainCollision>)
    requires
        is_listing(terrain_pairs(events), terrain_contacts(s)),
    ensures
        events == terrain_report(s),
{
    let other = terrain_report(s);
    listing_is_unique(terrain_pairs(events), terrain_pairs(other), terrain_contacts(s));
    assert(events.len() == terrain_pairs(events).len());
    assert(other.len() == terrain_pairs(other).len());
    assert forall|k: int| 0 <= k < events.len() implies events[k] == other[k] by {
        assert(terrain_pairs(events)[k] == events[k].pair());
        assert(terrain_pairs(other)[k] == other[k].pair());
    }
    assert(events =~= other);
}

/// The world after gravity, the movement controller and the integration of
/// velocity, in this order: what the overlap scans of the tick look at.
pub open spec fn moved(s: Seq<Components>, input: MovementInput, dt: u32) -> Seq<Components> {
    velocity_step(movement_step(gravity_step(s, dt), input), dt)
}

/// Whether every stage of a tick stays within the range of positions and
/// velocities.
pub open spec fn tick_fits(s: Seq<Components>, input: MovementInput, dt: u32) -> bool {
    &&& gravity_fits(s, dt)
    &&& movement_fits(gravity_step(s, dt), input)
    &&& velocity_fits(movement_step(gravity_step(s, dt), input), dt)
    &&& resolve_all_fits(moved(s, input, dt), terrain_report(moved(s, input, dt)))
}

/// A player at rest on top of a terrain box is at rest there again after
/// every tick in which it does not jump and does not run: gravity and the
/// step sink it into the box, by no more than half its height if the step is
/// short enough, and the resolution of the contact, which holds in every such
/// tick, puts it back as it was.
pub proof fn rest_on_top_is_kept(player: Components, terrain: Aabb2d, input: MovementInput, dt: u32)
    requires
        player.has_role(Role::Mover),
        resolvable(player),
        player.collider is Some,
        player.velocity == Some(Velocity(Vec2 { x: 0, y: 0 })),
        player.gravity == Some(GravityAffected { is_airborne: false }),
        terrain.min_x() < (player.transform->0).translation.x < terrain.max_x(),
        (player.transform->0).translation.y == terrain.max_y() + (player.transform->0).scale.y / 2,
        terrain.half_size.y > 0,
        !input.jump,
        input.right == input.left,
        GRAVITY_MULTIPLIER * dt * dt <= (player.transform->0).scale.y / 2,
    ensures
        ({
            let pulled = after_gravity(player, dt);
            let steered = after_movement(pulled, input);
            let sunk = after_velocity(steered, dt);
            &&& gravity_fits_entity(player, dt)
            &&& movement_fits_entity(pulled, input)
            &&& velocity_fits_entity(steered, dt)
            &&& is_actor(sunk)
            &&& box_of(sunk.transform->0).overlaps(terrain)
            &&& stop_fits(sunk, terrain)
            &&& stop_at(sunk, terrain) == player
        }),
{
    let fall = GRAVITY_MULTIPLIER * dt * dt;
    let vy = 0 - GRAVITY_MULTIPLIER * dt;
    assert(vy == -(784 * dt));
    assert(vy * dt == -fall) by (nonlinear_arith)
        requires
            vy == -(784 * dt),
            fall == 784 * dt * dt,
    ;
    assert(0 <= fall) by (nonlinear_arith)
        requires
            fall == 784 * dt * dt,
            0 <= dt,
    ;
    let at = player.transform->0;
    let pulled = after_gravity(player, dt);
    assert(pulled.velocity == Some(Velocity(Vec2 { x: 0, y: vy as i64 })));
    let steered = after_movement(pulled, input);
    assert(steered.velocity == pulled.velocity);
    assert(steered.transform == player.transform);
    assert(steered.facing == player.facing);
    let sunk = after_velocity(steered, dt);
    assert((sunk.transform->0).translation == Vec2 {
        x: at.translation.x,
        y: (at.translation.y - fall) as i64,
    });
    assert(terrain.nearest((sunk.transform->0).translation).y == terrain.max_y());
    assert(terrain.nearest((sunk.transform->0).translation).x == at.translation.x);
    assert(resolvable(sunk));
}

/// What a tick makes known. Nothing of it outlives the tick.
pub struct TickEvents {
    pub dynamic: Vec<DynamicCollision>,
    pub statics: Vec<StaticCollision>,
    pub terrain: Vec<TerrainCollision>,
    pub deaths: Vec<DeathEvent>,
}

/// Whether `after` and `events` are what one tick of `dt` milliseconds makes
/// of the world `before`.
///
/// The overlap scans look at the world as gravity, the movement controller
/// and the integration of velocity left it, in this order. Each scan lists
/// what it looks for in dictionary order. The terrain contacts of this tick,
/// and no others, are then resolved in the order of their list, which gives
/// the world after the tick and the deaths.
pub open spec fn ticked(
    before: Seq<Components>,
    input: MovementInput,
    dt: u32,
    after: Seq<Components>,
    events: TickEvents,
) -> bool {
    let scanned = moved(before, input, dt);
    &&& is_listing(dynamic_pairs(events.dynamic@), overlapping_actors(scanned))
    &&& is_listing(static_pairs(events.statics@), static_contacts(scanned))
    &&& is_listing(terrain_pairs(events.terrain@), terrain_contacts(scanned))
    &&& events.terrain@ == terrain_report(scanned)
    &&& after == resolve_all(scanned, events.terrain@).0
    &&& events.deaths@ == resolve_all(scanned, events.terrain@).1
}

/// The stages of the simulation in their fixed order.
#[derive(Clone, Copy, Debug, PartialEq, Eq, Structural)]
pub struct PhysicsPlugin;

impl PhysicsPlugin {
    /// Simulates one tick of `dt` milliseconds: gravity, then the movement
    /// controller, then the integration of velocity, then the two overlap
    /// scans, then the resolution of the terrain contacts. Each stage sees
    /// what the stage before it left.
    pub fn tick(&self, world: &mut World, input: &MovementInput, dt: u32) -> (events: TickEvents)
        requires
            tick_fits(old(world)@, *input, dt),
        ensures
            ticked(old(world)@, *input, dt, final(world)@, events),
    {
        apply_gravity(world, dt);
        apply_movement(world, input);
        apply_velocity(world, dt);
        let (statics, terrain) = check_static_collisions(world);
        let dynamic = check_dynamic_collisions(world);
        proof {
            terrain_report_is_unique(world@, terrain@);
        }
        let deaths = terrain_collision_handler(world, &terrain);
        TickEvents { dynamic, statics, terrain, deaths }
    }

    /// Simulates one tick if the world is in the safe range and the step is
    /// not longer than the longest step; else it leaves the world as it is
    /// and returns nothing.
    pub fn try_tick(&self, world: &mut World, input: &MovementInput, dt: u32) -> (events: Option<
        TickEvents,
    >)
        ensures
            events is Some <==> in_safe_range(old(world)@) && dt <= LONGEST_STEP,
            events matches Some(made) ==> ticked(old(world)@, *input, dt, final(world)@, made),
            events is None ==> final(world)@ == old(world)@,
    {
        if dt <= LONGEST_STEP && world.is_in_safe_range() {
            proof {
                safe_range_admits_tick(world@, *input, dt);
            }
            Some(self.tick(world, input, dt))
        } else {
            None
        }
    }
}

} // verus!
