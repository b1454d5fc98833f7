//! A range of worlds in which a tick is sure to stay within the numbers that
//! positions and velocities are stored in, and a test for it.

use crate::input::MovementInput;
use crate::math::Vec2;
use crate::physics::collision::{
    resolvable, resolve_all, resolve_all_fits, resolve_one, resolve_one_fits, stop_at, stop_fits,
    TerrainCollision,
};
use crate::physics::movement::{
    after_gravity, after_movement, after_velocity, gravity_fits, gravity_fits_entity, gravity_step,
    movement_fits, movement_step, velocity_fits, velocity_fits_entity, velocity_step,
};
use crate::physics::{moved, terrain_report, tick_fits};
use crate::world::{is_single, single, Components, Role, World};
use vstd::prelude::*;

verus! {

/// The farthest that a coordinate of a position, a scale or a half extent of
/// a static box may lie from zero in the safe range: two to the power of 60
/// steps, which is more than a million million units.
pub const REACH: i64 = 0x1000_0000_0000_0000;

/// The largest velocity on an axis in the safe range: two to the power of 40
/// steps, which is more than a thousand million units per second.
pub const TOP_SPEED: i64 = 0x100_0000_0000;

/// The longest time step in the safe range: two to the power of 16
/// milliseconds, which is more than a minute.
pub const LONGEST_STEP: u32 = 0x1_0000;

/// Whether a vector lies within `limit` of zero on both axes.
pub open spec fn vec_within(v: Vec2, limit: int) -> bool {
    -limit <= v.x <= limit && -limit <= v.y <= limit
}

/// Whether the numbers of an entity lie within the given limits: its position
/// within `reach`, its velocity within `speed`, its scale and its static box
/// within the reach of the safe range.
pub open spec fn entity_within(e: Components, reach: int, speed: int) -> bool {
    &&& e.transform matches Some(t) ==> vec_within(t.translation, reach) && t.scale.x <= REACH
        && t.scale.y <= REACH
    &&& e.velocity matches Some(v) ==> vec_within(v.0, speed)
    &&& e.static_collider matches Some(c) ==> vec_within(c.0.center, REACH as int)
        && c.0.half_size.x <= REACH && c.0.half_size.y <= REACH
}

pub open spec fn world_within(s: Seq<Components>, reach: int, speed: int) -> bool {
    forall|i: int| 0 <= i < s.len() ==> entity_within(#[trigger] s[i], reach, speed)
}

/// The safe range: every position, scale and static box within [`REACH`],
/// every velocity within [`TOP_SPEED`].
pub open spec fn in_safe_range(s: Seq<Components>) -> bool {
    world_within(s, REACH as int, TOP_SPEED as int)
}

fn small(v: Vec2, limit: i64) -> (yes: bool)
    requires
        0 <= limit,
    ensures
        yes == vec_within(v, limit as int),
{
    -limit <= v.x && v.x <= limit && -limit <= v.y && v.y <= limit
}

fn entity_is_safe(e: &Components) -> (yes: bool)
    ensures
        yes == entity_within(*e, REACH as int, TOP_SPEED as int),
{
    let place = match e.transform {
        Some(t) => small(t.translation, REACH) && t.scale.x <= REACH as u64 && t.scale.y
            <= REACH as u64,
        None => true,
    };
    let speed = match e.velocity {
        Some(v) => small(v.0, TOP_SPEED),
        None => true,
    };
    let fixed = match e.static_collider {
        Some(c) => small(c.0.center, REACH) && c.0.half_size.x <= REACH as u64 && c.0.half_size.y
            <= REACH as u64,
        None => true,
    };
    place && speed && fixed
}

impl World {
    /// Tells whether the world is in the safe range, in which a tick of at
    /// most [`LONGEST_STEP`] milliseconds cannot leave the range of the
    /// numbers, whatever the player wishes.
    pub fn is_in_safe_range(&self) -> (yes: bool)
        ensures
            yes == in_safe_range(self@),
    {
        let mut i: usize = 0;
        while i < self.entities.len()
            invariant
                i <= self@.len(),
                forall|j: int|
                    0 <= j < i ==> entity_within(#[trigger] self@[j], REACH as int, TOP_SPEED as int),
            decreases self@.len() - i,
        {
            if !entity_is_safe(&self.entities[i]) {
                return false;
            }
            i += 1;
        }
        true
    }
}

/// In the safe range a tick of at most the longest step stays within the
/// range of the numbers, whatever the player wishes.
pub proof fn safe_range_admits_tick(s: Seq<Components>, input: MovementInput, dt: u32)
    requires
        in_safe_range(s),
        dt <= LONGEST_STEP,
    ensures
        tick_fits(s, input, dt),
{
    let fast = TOP_SPEED + 784 * LONGEST_STEP;
    let far = REACH + 3_000_000;
    let pulled = gravity_step(s, dt);
    assert(gravity_fits(s, dt)) by {
        assert forall|i: int| 0 <= i < s.len() implies gravity_fits_entity(#[trigger] s[i], dt) by {
            assert(entity_within(s[i], REACH as int, TOP_SPEED as int));
        }
    }
    assert(world_within(pulled, REACH as int, fast)) by {
        assert forall|i: int| 0 <= i < pulled.len() implies entity_within(
            #[trigger] pulled[i],
            REACH as int,
            fast,
        ) by {
            assert(entity_within(s[i], REACH as int, TOP_SPEED as int));
            assert(pulled[i] == after_gravity(s[i], dt));
        }
    }
    let steered = movement_step(pulled, input);
    assert(movement_fits(pulled, input) && world_within(steered, far, fast)) by {
        match single(pulled, Role::Mover) {
            Some(i) => {
                assert(is_single(pulled, Role::Mover, i));
                assert(entity_within(pulled[i], REACH as int, fast));
                assert(entity_within(after_movement(pulled[i], input), far, fast));
                assert forall|j: int| 0 <= j < steered.len() implies entity_within(
                    #[trigger] steered[j],
                    far,
                    fast,
                ) by {
                    assert(entity_within(pulled[j], REACH as int, fast));
                }
            },
            None => {
                assert forall|j: int| 0 <= j < steered.len() implies entity_within(
                    #[trigger] steered[j],
                    far,
                    fast,
                ) by {
                    assert(entity_within(pulled[j], REACH as int, fast));
                }
            },
        }
    }
    let stepped = velocity_step(steered, dt);
    assert(velocity_fits(steered, dt) && world_within(stepped, i64::MAX as int, fast)) by {
        assert forall|i: int| 0 <= i < steered.len() implies velocity_fits_entity(
            #[trigger] steered[i],
            dt,
        ) && entity_within(after_velocity(steered[i], dt), i64::MAX as int, fast) by {
            let e = steered[i];
            assert(entity_within(e, far, fast));
            if e.transform is Some && e.velocity is Some {
                let v = (e.velocity->0).0;
                lemma_step_is_short(v.x as int, dt as int, fast);
                lemma_step_is_short(v.y as int, dt as int, fast);
            }
        }
        assert forall|i: int| 0 <= i < stepped.len() implies entity_within(
            #[trigger] stepped[i],
            i64::MAX as int,
            fast,
        ) by {
            assert(velocity_fits_entity(steered[i], dt) && entity_within(
                after_velocity(steered[i], dt),
                i64::MAX as int,
                fast,
            ));
        }
    }
    assert(stepped == moved(s, input, dt));
    lemma_sizes_admit_resolution(stepped, terrain_report(stepped), fast);
}

/// A velocity of at most `fast` covers at most `fast` times the longest step
/// within a step.
proof fn lemma_step_is_short(v: int, dt: int, fast: int)
    by (nonlinear_arith)
    requires
        -fast <= v <= fast,
        0 <= dt <= 0x1_0000,
    ensures
        -fast * 0x1_0000 <= v * dt <= fast * 0x1_0000,
{
}

/// Where scales and static boxes are within reach, every terrain contact can
/// be resolved within the range of positions, wherever the actors are: an
/// actor is put next to a point of the terrain box, no farther from it than
/// its own half size.
proof fn lemma_sizes_admit_resolution(s: Seq<Components>, hits: Seq<TerrainCollision>, speed: int)
    requires
        world_within(s, i64::MAX as int, speed),
        0 <= speed,
    ensures
        resolve_all_fits(s, hits),
        world_within(resolve_all(s, hits).0, i64::MAX as int, speed),
        resolve_all(s, hits).0.len() == s.len(),
    decreases hits.len(),
{
    if hits.len() > 0 {
        lemma_sizes_admit_resolution(s, hits.drop_last(), speed);
        let before = resolve_all(s, hits.drop_last()).0;
        let hit = hits.last();
        let after = resolve_one(before, hit).0;
        assert(resolve_one_fits(before, hit) && world_within(after, i64::MAX as int, speed)
            && after.len() == before.len()) by {
            if hit.other.0 < before.len() && hit.terrain.0 < before.len() {
                let actor = before[hit.other.0 as int];
                let body = before[hit.terrain.0 as int];
                assert(entity_within(actor, i64::MAX as int, speed));
                assert(entity_within(body, i64::MAX as int, speed));
                if resolvable(actor) && body.static_collider is Some {
                    let terrain = (body.static_collider->0).0;
                    assert(stop_fits(actor, terrain));
                    assert(entity_within(stop_at(actor, terrain), i64::MAX as int, speed));
                }
            }
            assert forall|i: int| 0 <= i < after.len() implies entity_within(
                #[trigger] after[i],
                i64::MAX as int,
                speed,
            ) by {
                assert(entity_within(before[i], i64::MAX as int, speed));
            }
        }
    }
}

} // verus!
