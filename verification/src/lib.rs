//! Deterministic fixed-timestep physics and collision core of a 2D
//! side-scrolling platformer.
//!
//! All quantities are whole numbers, so that a tick is exact and repeatable:
//! lengths and positions are counted in millionths of a world unit
//! ([`math::UNIT`] steps per unit), velocities in thousandths of a unit per
//! second ([`math::SPEED_UNIT`] steps), and a time step in milliseconds.
//! With these scales `velocity * dt` is a length and `gravity * dt` is a
//! velocity without any rounding.

use crate::math::{UVec2, Vec2, UNIT};
use crate::physics::collision::{box_of, Collider, StaticCollider, Terrain, TerrainHandler};
use crate::physics::movement::{Facing, GravityAffected, Velocity};
use crate::physics::TerrainBundle;
use crate::view::Camera2d;
use crate::world::{Components, Transform, World};
use vstd::prelude::*;

pub mod combat;
pub mod input;
pub mod math;
pub mod physics;
pub mod view;
pub mod world;

verus! {

/// Marks the entity that the player steers.
#[derive(Clone, Copy, Debug, PartialEq, Eq, Structural)]
pub struct Player;

/// What the player is made of when it enters the world.
#[derive(Clone, Copy, Debug, PartialEq, Eq, Structural)]
pub struct PlayerBundle(
    pub Transform,
    pub Velocity,
    pub TerrainHandler,
    pub GravityAffected,
    pub Collider,
    pub Player,
    pub Facing,
);

impl PlayerBundle {
    /// The player as it starts out at a place: at rest, airborne, looking to
    /// the right, and stopped by terrain.
    pub open spec fn starting_at(transform: Transform) -> PlayerBundle {
        PlayerBundle(
            transform,
            Velocity(Vec2 { x: 0, y: 0 }),
            TerrainHandler::Stop,
            GravityAffected { is_airborne: true },
            Collider,
            Player,
            Facing::Right,
        )
    }

    pub fn new(transform: Transform) -> (bundle: PlayerBundle)
        ensures
            bundle == PlayerBundle::starting_at(transform),
    {
        PlayerBundle(
            transform,
            Velocity(Vec2::new(0, 0)),
            TerrainHandler::Stop,
            GravityAffected { is_airborne: true },
            Collider,
            Player,
            Facing::Right,
        )
    }

    /// The attributes of the entity that the bundle describes.
    pub open spec fn as_components(self) -> Components {
        Components {
            transform: Some(self.0),
            velocity: Some(self.1),
            handler: Some(self.2),
            gravity: Some(self.3),
            collider: Some(self.4),
            player: Some(self.5),
            facing: Some(self.6),
            ..Components::bare()
        }
    }

    pub fn components(&self) -> (c: Components)
        ensures
            c == self.as_components(),
    {
        let mut c = Components::new();
        c.transform = Some(self.0);
        c.velocity = Some(self.1);
        c.handler = Some(self.2);
        c.gravity = Some(self.3);
        c.collider = Some(self.4);
        c.player = Some(self.5);
        c.facing = Some(self.6);
        c
    }
}

/// The camera of the opening scene: at the origin, unscaled.
pub open spec fn opening_camera() -> Components {
    Components {
        camera: Some(Camera2d),
        transform: Some(
            Transform { translation: Vec2 { x: 0, y: 0 }, scale: UVec2 { x: 1_000_000, y: 1_000_000 } },
        ),
        ..Components::bare()
    }
}

/// The ground of the opening scene: 300 by 30 units, centered 100 units below
/// the origin.
pub open spec fn opening_ground() -> Transform {
    Transform {
        translation: Vec2 { x: 0, y: -100_000_000i64 },
        scale: UVec2 { x: 300_000_000, y: 30_000_000 },
    }
}

/// The pillar of the opening scene: 50 by 100 units, centered at (125, -70).
pub open spec fn opening_pillar() -> Transform {
    Transform {
        translation: Vec2 { x: 125_000_000, y: -70_000_000i64 },
        scale: UVec2 { x: 50_000_000, y: 100_000_000 },
    }
}

/// Where the player starts: a box of 20 by 20 units, 100 units above the
/// origin.
pub open spec fn opening_player() -> Transform {
    Transform {
        translation: Vec2 { x: 0, y: 100_000_000 },
        scale: UVec2 { x: 20_000_000, y: 20_000_000 },
    }
}

/// The opening scene: a camera, the ground, a pillar and the player, spawned
/// in this order.
pub open spec fn opening_scene() -> Seq<Components> {
    seq![
        opening_camera(),
        TerrainBundle {
            transform: opening_ground(),
            collider: StaticCollider(box_of(opening_ground())),
            terrain: Terrain,
        }.as_components(),
        TerrainBundle {
            transform: opening_pillar(),
            collider: StaticCollider(box_of(opening_pillar())),
            terrain: Terrain,
        }.as_components(),
        PlayerBundle::starting_at(opening_player()).as_components(),
    ]
}

/// Builds the opening scene.
pub fn setup() -> (world: World)
    ensures
        world@ == opening_scene(),
{
    let mut world = World::new();

    let mut camera = Components::new();
    camera.camera = Some(Camera2d);
    camera.transform = Some(Transform::new(Vec2::new(0, 0), UVec2::new(1_000_000, 1_000_000)));
    world.spawn(camera);

    world.spawn(
        TerrainBundle::new(
            Transform::new(Vec2::new(0, -100 * UNIT), UVec2::new(300_000_000, 30_000_000)),
        ).components(),
    );

    world.spawn(
        TerrainBundle::new(
            Transform::new(
                Vec2::new(125 * UNIT, -70 * UNIT),
                UVec2::new(50_000_000, 100_000_000),
            ),
        ).components(),
    );

    world.spawn(
        PlayerBundle::new(
            Transform::new(Vec2::new(0, 100 * UNIT), UVec2::new(20_000_000, 20_000_000)),
        ).components(),
    );
    assert(world@ =~= opening_scene());
    world
}

} // verus!
