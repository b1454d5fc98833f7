//! Keeping the camera on the player.

use crate::world::{single, Components, Role, Transform, World};
use vstd::prelude::*;

verus! {

/// Marks the entity through which the scene is looked at.
#[derive(Clone, Copy, Debug, PartialEq, Eq, Structural)]
pub struct Camera2d;

/// The world after the camera followed the player: if there is exactly one
/// player with a transform and exactly one camera with a transform, the
/// camera is where the player is; its scale stays. In every other case
/// nothing happens.
pub open spec fn camera_step(s: Seq<Components>) -> Seq<Components> {
    match (single(s, Role::Camera), single(s, Role::Lead)) {
        (Some(camera), Some(player)) => s.update(
            camera,
            Components {
                transform: Some(
                    Transform {
                        translation: (s[player].transform->0).translation,
                        scale: (s[camera].transform->0).scale,
                    },
                ),
                ..s[camera]
            },
        ),
        _ => s,
    }
}

/// Puts the camera where the player is.
pub fn sync_player_camera(world: &mut World)
    ensures
        final(world)@ == camera_step(old(world)@),
{
    if let Some(camera) = world.single(Role::Camera) {
        if let Some(player) = world.single(Role::Lead) {
            let player_xform = world.entities[player].transform.unwrap();
            let mut cam = world.entities[camera];
            let cam_xform = cam.transform.unwrap();
            cam.transform = Some(
                Transform { translation: player_xform.translation, scale: cam_xform.scale },
            );
            world.entities.set(camera, cam);
        }
    }
}

} // verus!
