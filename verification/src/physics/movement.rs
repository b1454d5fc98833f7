//! Gravity, player movement and the integration of velocity.

use crate::input::{fresh_keys, held_keys, MovementInput};
use crate::math::{fits_i64, Vec2};
use crate::world::{single, Components, Role, Transform, World};
use bevy::input::keyboard::KeyCode;
use bevy::input::ButtonInput;
use vstd::prelude::*;

verus! {

/// Velocity, in thousandths of a world unit per second.
#[derive(Clone, Copy, Debug, PartialEq, Eq, Structural)]
pub struct Velocity(pub Vec2);

/// Marks an entity that gravity pulls on, and tells whether it currently
/// rests on a supporting surface.
#[derive(Clone, Copy, Debug, PartialEq, Eq, Structural)]
pub struct GravityAffected {
    pub is_airborne: bool,
}

/// The side an entity looks to.
#[derive(Clone, Copy, Debug, PartialEq, Eq, Structural)]
pub enum Facing {
    Left,
    Right,
}

/// Marks an entity that trails the player.
#[derive(Clone, Copy, Debug, PartialEq, Eq, Structural)]
pub struct FollowsPlayer;

/// The pull of gravity, in world units per second squared: 9.8 times 80. It
/// is also the loss of vertical velocity, in velocity steps, per millisecond.
pub const GRAVITY_MULTIPLIER: i64 = 784;

/// The player's running speed: 150 units per second.
pub const PLAYER_MS: i64 = 150_000;

/// The vertical velocity that a jump gives: 375 units per second.
pub const PLAYER_JUMPSPEED: i64 = 375_000;

/// How far a jump lifts the player at once, to free it from the ground it
/// rests on: 3 units.
pub const JUMP_NUDGE: i64 = 3_000_000;

/// An entity that sinks faster than this, 10 units per second, is falling.
pub const FALL_SPEED: i64 = 10_000;

impl Facing {
    /// Turns to `value` and tells whether that was a change, so that a caller
    /// can leave an unchanged attribute unwritten.
    pub fn set_if_neq(&mut self, value: Facing) -> (changed: bool)
        ensures
            *final(self) == value,
            changed == (*old(self) != value),
    {
        if *self == value {
            false
        } else {
            *self = value;
            true
        }
    }
}

/// An entity after gravity pulled on it for `dt` milliseconds. Gravity pulls
/// on every entity that has a velocity and is marked as affected, whether it
/// is airborne or not.
pub open spec fn after_gravity(e: Components, dt: u32) -> Components {
    if e.velocity is Some && e.gravity is Some {
        let v = (e.velocity->0).0;
        Components {
            velocity: Some(Velocity(Vec2 { x: v.x, y: (v.y - GRAVITY_MULTIPLIER * dt) as i64 })),
            ..e
        }
    } else {
        e
    }
}

/// Whether the velocity after gravity is within the range of velocities.
pub open spec fn gravity_fits_entity(e: Components, dt: u32) -> bool {
    e.velocity is Some && e.gravity is Some ==> fits_i64(
        (e.velocity->0).0.y - GRAVITY_MULTIPLIER * dt,
    )
}

pub open spec fn gravity_step(s: Seq<Components>, dt: u32) -> Seq<Components> {
    Seq::new(s.len(), |i: int| after_gravity(s[i], dt))
}

pub open spec fn gravity_fits(s: Seq<Components>, dt: u32) -> bool {
    forall|i: int| 0 <= i < s.len() ==> gravity_fits_entity(#[trigger] s[i], dt)
}

/// Lets gravity pull on every entity for `dt` milliseconds.
pub fn apply_gravity(world: &mut World, dt: u32)
    requires
        gravity_fits(old(world)@, dt),
    ensures
        final(world)@ == gravity_step(old(world)@, dt),
{
    let n: usize = world.entities.len();
    let mut i: usize = 0;
    while i < n
        invariant
            i <= n,
            n == world@.len(),
            n == old(world)@.len(),
            gravity_fits(old(world)@, dt),
            forall|j: int| 0 <= j < i ==> world@[j] == after_gravity(old(world)@[j], dt),
            forall|j: int| i <= j < n ==> world@[j] == old(world)@[j],
        decreases n - i,
    {
        let mut e = world.entities[i];
        assert(gravity_fits_entity(old(world)@[i as int], dt));
        if e.gravity.is_some() {
            if let Some(Velocity(v)) = e.velocity {
                let pull: i64 = GRAVITY_MULTIPLIER * (dt as i64);
                e.velocity = Some(Velocity(Vec2 { x: v.x, y: v.y - pull }));
                world.entities.set(i, e);
            }
        }
        i += 1;
    }
    assert(world@ =~= gravity_step(old(world)@, dt));
}

/// Gravity takes exactly 784 velocity steps per millisecond from the vertical
/// velocity of an entity it pulls on, which is 78.4 units per second in a
/// tenth of a second, whether the entity is airborne or not. Nothing else
/// of the entity changes.
pub proof fn gravity_takes_the_same_from_all(e: Components, dt: u32)
    requires
        e.velocity is Some,
        e.gravity is Some,
        gravity_fits_entity(e, dt),
    ensures
        ({
            let before = (e.velocity->0).0;
            let after = (after_gravity(e, dt).velocity->0).0;
            let flipped = Components {
                gravity: Some(GravityAffected { is_airborne: !(e.gravity->0).is_airborne }),
                ..e
            };
            &&& after.y == before.y - 784 * dt
            &&& dt == 100 ==> after.y == before.y - 78_400
            &&& after.x == before.x
            &&& after_gravity(e, dt) == (Components {
                velocity: after_gravity(e, dt).velocity,
                ..e
            })
            &&& after_gravity(flipped, dt).velocity == after_gravity(e, dt).velocity
        }),
{
}

/// An entity after it moved with its velocity for `dt` milliseconds: one
/// explicit Euler step. Only an entity with a transform and a velocity moves.
pub open spec fn after_velocity(e: Components, dt: u32) -> Components {
    if e.transform is Some && e.velocity is Some {
        let at = e.transform->0;
        let v = (e.velocity->0).0;
        Components {
            transform: Some(
                Transform {
                    translation: Vec2 {
                        x: (at.translation.x + v.x * dt) as i64,
                        y: (at.translation.y + v.y * dt) as i64,
                    },
                    scale: at.scale,
                },
            ),
            ..e
        }
    } else {
        e
    }
}

/// Whether the position after the step is within the range of positions.
pub open spec fn velocity_fits_entity(e: Components, dt: u32) -> bool {
    e.transform is Some && e.velocity is Some ==> {
        let at = (e.transform->0).translation;
        let v = (e.velocity->0).0;
        fits_i64(at.x + v.x * dt) && fits_i64(at.y + v.y * dt)
    }
}

pub open spec fn velocity_step(s: Seq<Components>, dt: u32) -> Seq<Components> {
    Seq::new(s.len(), |i: int| after_velocity(s[i], dt))
}

pub open spec fn velocity_fits(s: Seq<Components>, dt: u32) -> bool {
    forall|i: int| 0 <= i < s.len() ==> velocity_fits_entity(#[trigger] s[i], dt)
}

/// One coordinate after an Euler step.
fn advance(at: i64, v: i64, dt: u32) -> (next: i64)
    requires
        fits_i64(at + v * dt),
    ensures
        next == at + v * dt,
{
    assert(-0x8000_0000_0000_0000 * 0x1_0000_0000 <= v * dt <= 0x8000_0000_0000_0000
        * 0x1_0000_0000) by (nonlinear_arith)
        requires
            -0x8000_0000_0000_0000 <= v < 0x8000_0000_0000_0000,
            0 <= dt < 0x1_0000_0000,
    ;
    let step: i128 = (v as i128) * (dt as i128);
    (at as i128 + step) as i64
}

/// Moves every entity with its velocity for `dt` milliseconds.
pub fn apply_velocity(world: &mut World, dt: u32)
    requires
        velocity_fits(old(world)@, dt),
    ensures
        final(world)@ == velocity_step(old(world)@, dt),
{
    let n: usize = world.entities.len();
    let mut i: usize = 0;
    while i < n
        invariant
            i <= n,
            n == world@.len(),
            n == old(world)@.len(),
            velocity_fits(old(world)@, dt),
            forall|j: int| 0 <= j < i ==> world@[j] == after_velocity(old(world)@[j], dt),
            forall|j: int| i <= j < n ==> world@[j] == old(world)@[j],
        decreases n - i,
    {
        let mut e = world.entities[i];
        assert(velocity_fits_entity(old(world)@[i as int], dt));
        if let Some(at) = e.transform {
            if let Some(Velocity(v)) = e.velocity {
                let x: i64 = advance(at.translation.x, v.x, dt);
                let y: i64 = advance(at.translation.y, v.y, dt);
                e.transform = Some(Transform { translation: Vec2 { x, y }, scale: at.scale });
                world.entities.set(i, e);
            }
        }
        i += 1;
    }
    assert(world@ =~= velocity_step(old(world)@, dt));
}

/// The step of an entity is exact: its new position is its old position plus
/// its velocity times the time step, on each axis, and nothing else of it
/// changes.
pub proof fn velocity_step_is_exact(e: Components, dt: u32)
    requires
        e.transform is Some,
        e.velocity is Some,
        velocity_fits_entity(e, dt),
    ensures
        ({
            let before = (e.transform->0).translation;
            let v = (e.velocity->0).0;
            let after = (after_velocity(e, dt).transform->0).translation;
            &&& after.x == before.x + v.x * dt
            &&& after.y == before.y + v.y * dt
            &&& (after_velocity(e, dt).transform->0).scale == (e.transform->0).scale
            &&& after_velocity(e, dt) == (Components {
                transform: after_velocity(e, dt).transform,
                ..e
            })
        }),
{
}

/// Every entity steps on its own: what becomes of it depends on nothing but
/// itself and the time step, so neither the other entities nor the order of
/// the store play a part.
pub proof fn velocity_step_is_entity_by_entity(
    s: Seq<Components>,
    other: Seq<Components>,
    i: int,
    k: int,
    dt: u32,
)
    requires
        0 <= i < s.len(),
        0 <= k < other.len(),
        s[i] == other[k],
    ensures
        velocity_step(s, dt).len() == s.len(),
        velocity_step(s, dt)[i] == after_velocity(s[i], dt),
        velocity_step(s, dt)[i] == velocity_step(other, dt)[k],
{
}

/// The horizontal velocity that the player's wishes call for: the running
/// speed to the right or to the left if exactly one of the two is wanted, and
/// none if neither or both are.
pub open spec fn wanted_speed(input: MovementInput) -> int {
    if input.right && !input.left {
        PLAYER_MS as int
    } else if input.left && !input.right {
        -PLAYER_MS
    } else {
        0
    }
}

/// The side the player looks to after its wishes were read: the side it
/// wants to go to, if it wants to go to exactly one and has a side at all.
pub open spec fn turned(facing: Option<Facing>, input: MovementInput) -> Option<Facing> {
    if facing is Some && input.right != input.left {
        Some(
            if input.right {
                Facing::Right
            } else {
                Facing::Left
            },
        )
    } else {
        facing
    }
}

/// A jump takes effect only if it is wanted and the player is not airborne.
pub open spec fn jumps(e: Components, input: MovementInput) -> bool
    recommends
        e.has_role(Role::Mover),
{
    input.jump && !(e.gravity->0).is_airborne
}

/// The player after the movement controller read its wishes.
///
/// The horizontal velocity is set as the wishes call for. A jump sets the
/// vertical velocity, lifts the player a little and makes it airborne. A
/// player that sinks faster than the fall speed is airborne in any case.
pub open spec fn after_movement(e: Components, input: MovementInput) -> Components
    recommends
        e.has_role(Role::Mover),
{
    let at = e.transform->0;
    let v = (e.velocity->0).0;
    let jump = jumps(e, input);
    let vy = if jump {
        PLAYER_JUMPSPEED
    } else {
        v.y
    };
    Components {
        transform: Some(
            Transform {
                translation: Vec2 {
                    x: at.translation.x,
                    y: if jump {
                        (at.translation.y + JUMP_NUDGE) as i64
                    } else {
                        at.translation.y
                    },
                },
                scale: at.scale,
            },
        ),
        velocity: Some(Velocity(Vec2 { x: wanted_speed(input) as i64, y: vy })),
        gravity: Some(
            GravityAffected {
                is_airborne: (e.gravity->0).is_airborne || jump || vy < -FALL_SPEED,
            },
        ),
        facing: turned(e.facing, input),
        ..e
    }
}

/// Whether the lift of a jump, if there is one, stays within the range of
/// positions.
pub open spec fn movement_fits_entity(e: Components, input: MovementInput) -> bool
    recommends
        e.has_role(Role::Mover),
{
    jumps(e, input) ==> fits_i64((e.transform->0).translation.y + JUMP_NUDGE)
}

/// The world after the movement controller ran. It steers the player only if
/// exactly one entity is a player with a transform, a velocity and gravity;
/// else it does nothing.
pub open spec fn movement_step(s: Seq<Components>, input: MovementInput) -> Seq<Components> {
    match single(s, Role::Mover) {
        Some(i) => s.update(i, after_movement(s[i], input)),
        None => s,
    }
}

pub open spec fn movement_fits(s: Seq<Components>, input: MovementInput) -> bool {
    match single(s, Role::Mover) {
        Some(i) => movement_fits_entity(s[i], input),
        None => true,
    }
}

/// The player runs at 150 units per second to the side it wants to go to, if
/// it wants to go to one side only, and stands still if it wants to go to
/// both or to neither.
pub proof fn movement_sets_horizontal_velocity(e: Components, input: MovementInput)
    requires
        e.has_role(Role::Mover),
    ensures
        ({
            let vx = (after_movement(e, input).velocity->0).0.x;
            &&& input.right && !input.left ==> vx == 150_000
            &&& input.left && !input.right ==> vx == -150_000
            &&& input.left == input.right ==> vx == 0
        }),
{
}

/// A jump of a grounded player gives it a vertical velocity of 375 units per
/// second, lifts it by 3 units and makes it airborne. An airborne player does
/// not jump: its height and its vertical velocity stay.
pub proof fn jump_only_from_the_ground(e: Components, input: MovementInput)
    requires
        e.has_role(Role::Mover),
        movement_fits_entity(e, input),
    ensures
        ({
            let before = (e.transform->0).translation;
            let after = after_movement(e, input);
            let airborne = (e.gravity->0).is_airborne;
            &&& input.jump && !airborne ==> {
                &&& (after.velocity->0).0.y == 375_000
                &&& (after.transform->0).translation.y == before.y + 3_000_000
                &&& (after.gravity->0).is_airborne
            }
            &&& !input.jump || airborne ==> {
                &&& (after.velocity->0).0.y == (e.velocity->0).0.y
                &&& (after.transform->0).translation.y == before.y
            }
            &&& (after.transform->0).translation.x == before.x
        }),
{
}

/// The movement controller never grounds the player: an airborne player
/// stays airborne, and a grounded one becomes airborne exactly if it jumps or
/// sinks faster than 10 units per second.
pub proof fn movement_never_grounds(e: Components, input: MovementInput)
    requires
        e.has_role(Role::Mover),
    ensures
        ({
            let after = (after_movement(e, input).gravity->0).is_airborne;
            let before = (e.gravity->0).is_airborne;
            &&& before ==> after
            &&& !before ==> (after <==> (input.jump || (e.velocity->0).0.y < -10_000))
        }),
{
}

/// Steers one player.
pub fn steer(e: Components, input: &MovementInput) -> (after: Components)
    requires
        e.has_role(Role::Mover),
        movement_fits_entity(e, *input),
    ensures
        after == after_movement(e, *input),
{
    let at = e.transform.unwrap();
    let mut position = at.translation;
    let mut velocity = e.velocity.unwrap().0;
    let mut grav = e.gravity.unwrap();
    let mut facing = e.facing;

    velocity.x = if input.right != input.left {
        let side = if input.right {
            Facing::Right
        } else {
            Facing::Left
        };
        if let Some(mut orientation) = facing {
            orientation.set_if_neq(side);
            facing = Some(orientation);
        }
        if input.right {
            PLAYER_MS
        } else {
            -PLAYER_MS
        }
    } else {
        0
    };

    if !grav.is_airborne && input.jump {
        position.y = position.y + JUMP_NUDGE;
        velocity.y = PLAYER_JUMPSPEED;
        grav.is_airborne = true;
    }
    if velocity.y < -FALL_SPEED {
        grav.is_airborne = true;
    }
    let mut after = e;
    after.transform = Some(Transform { translation: position, scale: at.scale });
    after.velocity = Some(Velocity(velocity));
    after.gravity = Some(grav);
    after.facing = facing;
    after
}

/// Runs the movement controller on wishes that were read already.
pub fn apply_movement(world: &mut World, input: &MovementInput)
    requires
        movement_fits(old(world)@, *input),
    ensures
        final(world)@ == movement_step(old(world)@, *input),
{
    if let Some(i) = world.single(Role::Mover) {
        let after = steer(world.entities[i], input);
        world.entities.set(i, after);
    }
}

/// Whether the movement controller can run on these wishes without leaving
/// the range of positions.
pub fn movement_in_range(world: &World, input: &MovementInput) -> (fits: bool)
    ensures
        fits == movement_fits(world@, *input),
{
    match world.single(Role::Mover) {
        Some(i) => {
            let e = world.entities[i];
            let grounded = !e.gravity.unwrap().is_airborne;
            !(input.jump && grounded) || e.transform.unwrap().translation.y <= i64::MAX
                - JUMP_NUDGE
        },
        None => true,
    }
}

/// Runs the movement controller on the state of the keyboard, and tells
/// whether it did. It does not, and leaves the world as it is, only if a
/// jump would lift the player out of the range of positions.
pub fn do_player_movement(world: &mut World, keys: &ButtonInput<KeyCode>) -> (moved: bool)
    ensures
        moved == movement_fits(
            old(world)@,
            MovementInput::of_keys(held_keys(*keys), fresh_keys(*keys)),
        ),
        moved ==> final(world)@ == movement_step(
            old(world)@,
            MovementInput::of_keys(held_keys(*keys), fresh_keys(*keys)),
        ),
        !moved ==> final(world)@ == old(world)@,
{
    let input = MovementInput::from_keys(keys);
    if movement_in_range(world, &input) {
        apply_movement(world, &input);
        true
    } else {
        false
    }
}

/// Takes the horizontal velocity from the player, if exactly one entity is a
/// player with a velocity.
pub open spec fn reset_step(s: Seq<Components>) -> Seq<Components> {
    match single(s, Role::Runner) {
        Some(i) => s.update(
            i,
            Components {
                velocity: Some(Velocity(Vec2 { x: 0, y: (s[i].velocity->0).0.y })),
                ..s[i]
            },
        ),
        None => s,
    }
}

pub fn reset_player_velocity(world: &mut World)
    ensures
        final(world)@ == reset_step(old(world)@),
{
    if let Some(i) = world.single(Role::Runner) {
        let mut e = world.entities[i];
        let v = e.velocity.unwrap().0;
        e.velocity = Some(Velocity(Vec2 { x: 0, y: v.y }));
        world.entities.set(i, e);
    }
}

} // verus!
