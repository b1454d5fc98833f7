use bevy::input::keyboard::KeyCode;
use bevy::input::ButtonInput;
use platformer_physics::input::{MovementInput, PlayerAction, Unimplemented};
use platformer_physics::math::{UVec2, Vec2, UNIT};
use platformer_physics::physics::collision::{Collider, TerrainHandler};
use platformer_physics::physics::movement::{
    apply_gravity, apply_movement, apply_velocity, do_player_movement, movement_in_range,
    reset_player_velocity, steer, Facing, GravityAffected, Velocity, FALL_SPEED,
    GRAVITY_MULTIPLIER, JUMP_NUDGE, PLAYER_JUMPSPEED, PLAYER_MS,
};
use platformer_physics::world::{Components, Entity, Role, Transform, World};
use platformer_physics::{Player, PlayerBundle};

fn player_at(x: i64, y: i64, airborne: bool) -> Components {
    let mut c = PlayerBundle::new(Transform::new(
        Vec2::new(x, y),
        UVec2::new(20 * UNIT as u64, 20 * UNIT as u64),
    ))
    .components();
    c.gravity = Some(GravityAffected { is_airborne: airborne });
    c
}

fn body(x: i64, y: i64, vx: i64, vy: i64) -> Components {
    let mut c = Components::new();
    c.transform = Some(Transform::new(Vec2::new(x, y), UVec2::new(UNIT as u64, UNIT as u64)));
    c.velocity = Some(Velocity(Vec2::new(vx, vy)));
    c
}

fn wish(right: bool, left: bool, jump: bool) -> MovementInput {
    MovementInput { right, left, jump }
}

fn velocity_of(world: &World, i: usize) -> Vec2 {
    world.entities[i].velocity.unwrap().0
}

fn position_of(world: &World, i: usize) -> Vec2 {
    world.entities[i].transform.unwrap().translation
}

fn airborne(world: &World, i: usize) -> bool {
    world.entities[i].gravity.unwrap().is_airborne
}

#[test]
fn constants_of_movement() {
    assert_eq!(GRAVITY_MULTIPLIER, 784);
    assert_eq!(PLAYER_MS, 150_000);
    assert_eq!(PLAYER_JUMPSPEED, 375_000);
    assert_eq!(JUMP_NUDGE, 3_000_000);
    assert_eq!(FALL_SPEED, 10_000);
}

#[test]
fn gravity_takes_78_4_in_a_tenth_of_a_second() {
    let mut world = World::new();
    world.spawn(player_at(0, 0, true));
    world.spawn(player_at(0, 0, false));
    let mut fast = player_at(0, 0, true);
    fast.velocity = Some(Velocity(Vec2::new(7_000, -250_000)));
    world.spawn(fast);
    apply_gravity(&mut world, 100);
    assert_eq!(velocity_of(&world, 0), Vec2::new(0, -78_400));
    assert_eq!(velocity_of(&world, 1), Vec2::new(0, -78_400));
    assert_eq!(velocity_of(&world, 2), Vec2::new(7_000, -328_400));
    assert!(airborne(&world, 0));
    assert!(!airborne(&world, 1));
    assert_eq!(position_of(&world, 0), Vec2::new(0, 0));
}

#[test]
fn gravity_adds_up_over_ticks() {
    let mut world = World::new();
    world.spawn(player_at(0, 0, false));
    apply_gravity(&mut world, 16);
    apply_gravity(&mut world, 16);
    assert_eq!(velocity_of(&world, 0), Vec2::new(0, -2 * 784 * 16));
}

#[test]
fn gravity_passes_over_entities_it_does_not_pull_on() {
    let mut world = World::new();
    world.spawn(body(0, 0, 5, 5));
    let mut still = Components::new();
    still.gravity = Some(GravityAffected { is_airborne: true });
    world.spawn(still);
    apply_gravity(&mut world, 100);
    assert_eq!(world.entities[0], body(0, 0, 5, 5));
    assert_eq!(world.entities[1], still);
}

#[test]
fn gravity_of_no_time_changes_nothing() {
    let mut world = World::new();
    world.spawn(player_at(3, 4, true));
    apply_gravity(&mut world, 0);
    assert_eq!(world.entities[0], player_at(3, 4, true));
}

#[test]
fn integration_adds_velocity_times_time() {
    let mut world = World::new();
    world.spawn(body(1_000_000, -2_000_000, 150_000, -78_400));
    world.spawn(body(0, 0, -1, 1));
    world.spawn(body(5, 5, 0, 0));
    apply_velocity(&mut world, 100);
    assert_eq!(position_of(&world, 0), Vec2::new(16_000_000, -9_840_000));
    assert_eq!(position_of(&world, 1), Vec2::new(-100, 100));
    assert_eq!(position_of(&world, 2), Vec2::new(5, 5));
    assert_eq!(velocity_of(&world, 0), Vec2::new(150_000, -78_400));
}

#[test]
fn integration_does_not_depend_on_the_order_of_entities() {
    let a = body(10, 20, 3, -4);
    let b = body(-7, 0, 100, 100);
    let mut forth = World::new();
    forth.spawn(a);
    forth.spawn(b);
    let mut back = World::new();
    back.spawn(b);
    back.spawn(a);
    apply_velocity(&mut forth, 16);
    apply_velocity(&mut back, 16);
    assert_eq!(forth.entities[0], back.entities[1]);
    assert_eq!(forth.entities[1], back.entities[0]);
    assert_eq!(position_of(&forth, 0), Vec2::new(10 + 48, 20 - 64));
}

#[test]
fn integration_passes_over_entities_without_velocity_or_transform() {
    let mut world = World::new();
    let mut only_transform = Components::new();
    only_transform.transform = Some(Transform::new(Vec2::new(1, 1), UVec2::new(2, 2)));
    let mut only_velocity = Components::new();
    only_velocity.velocity = Some(Velocity(Vec2::new(9, 9)));
    world.spawn(only_transform);
    world.spawn(only_velocity);
    apply_velocity(&mut world, 1000);
    assert_eq!(world.entities[0], only_transform);
    assert_eq!(world.entities[1], only_velocity);
}

#[test]
fn integration_reaches_the_ends_of_the_range() {
    let mut world = World::new();
    world.spawn(body(i64::MAX - 10, i64::MIN + 10, 1, -1));
    world.spawn(body(i64::MIN, -1, i64::MAX, 1));
    apply_velocity(&mut world, 10);
    assert_eq!(position_of(&world, 0), Vec2::new(i64::MAX, i64::MIN));
    apply_velocity(&mut world, 0);
    assert_eq!(position_of(&world, 0), Vec2::new(i64::MAX, i64::MIN));
    let mut wide = World::new();
    wide.spawn(body(i64::MIN, 0, i64::MAX, 0));
    apply_velocity(&mut wide, 2);
    assert_eq!(position_of(&wide, 0), Vec2::new(i64::MAX - 1, 0));
}

#[test]
fn right_only_runs_right() {
    let mut world = World::new();
    world.spawn(player_at(0, 0, true));
    apply_movement(&mut world, &wish(true, false, false));
    assert_eq!(velocity_of(&world, 0).x, 150_000);
    assert_eq!(world.entities[0].facing, Some(Facing::Right));
}

#[test]
fn left_only_runs_left_and_turns() {
    let mut world = World::new();
    world.spawn(player_at(0, 0, true));
    apply_movement(&mut world, &wish(false, true, false));
    assert_eq!(velocity_of(&world, 0).x, -150_000);
    assert_eq!(world.entities[0].facing, Some(Facing::Left));
}

#[test]
fn left_and_right_together_cancel() {
    let mut world = World::new();
    let mut running = player_at(0, 0, true);
    running.velocity = Some(Velocity(Vec2::new(150_000, 0)));
    running.facing = Some(Facing::Left);
    world.spawn(running);
    apply_movement(&mut world, &wish(true, true, false));
    assert_eq!(velocity_of(&world, 0).x, 0);
    assert_eq!(world.entities[0].facing, Some(Facing::Left));
}

#[test]
fn no_wish_stands_still() {
    let mut world = World::new();
    let mut running = player_at(0, 0, true);
    running.velocity = Some(Velocity(Vec2::new(-150_000, 40)));
    world.spawn(running);
    apply_movement(&mut world, &wish(false, false, false));
    assert_eq!(velocity_of(&world, 0), Vec2::new(0, 40));
}

#[test]
fn a_player_without_a_side_is_steered_all_the_same() {
    let mut world = World::new();
    let mut plain = player_at(0, 0, true);
    plain.facing = None;
    world.spawn(plain);
    apply_movement(&mut world, &wish(false, true, false));
    assert_eq!(velocity_of(&world, 0).x, -150_000);
    assert_eq!(world.entities[0].facing, None);
}

#[test]
fn jump_from_the_ground() {
    let mut world = World::new();
    world.spawn(player_at(0, -75 * UNIT, false));
    apply_movement(&mut world, &wish(false, false, true));
    assert_eq!(velocity_of(&world, 0), Vec2::new(0, 375_000));
    assert_eq!(position_of(&world, 0), Vec2::new(0, -72 * UNIT));
    assert!(airborne(&world, 0));
}

#[test]
fn no_jump_in_the_air() {
    let mut world = World::new();
    world.spawn(player_at(0, 0, true));
    apply_movement(&mut world, &wish(true, false, true));
    assert_eq!(velocity_of(&world, 0), Vec2::new(150_000, 0));
    assert_eq!(position_of(&world, 0), Vec2::new(0, 0));
    assert!(airborne(&world, 0));
}

#[test]
fn sinking_fast_makes_airborne() {
    let mut world = World::new();
    let mut edge = player_at(0, 0, false);
    edge.velocity = Some(Velocity(Vec2::new(0, -10_001)));
    world.spawn(edge);
    apply_movement(&mut world, &wish(false, false, false));
    assert!(airborne(&world, 0));
    assert_eq!(velocity_of(&world, 0).y, -10_001);
}

#[test]
fn sinking_at_the_threshold_stays_grounded() {
    let mut world = World::new();
    let mut edge = player_at(0, 0, false);
    edge.velocity = Some(Velocity(Vec2::new(0, -10_000)));
    world.spawn(edge);
    apply_movement(&mut world, &wish(false, false, false));
    assert!(!airborne(&world, 0));
}

#[test]
fn a_jump_outweighs_sinking() {
    let mut world = World::new();
    let mut edge = player_at(0, 0, false);
    edge.velocity = Some(Velocity(Vec2::new(0, -50_000)));
    world.spawn(edge);
    apply_movement(&mut world, &wish(false, false, true));
    assert_eq!(velocity_of(&world, 0).y, 375_000);
    assert!(airborne(&world, 0));
}

#[test]
fn steer_changes_one_player_only() {
    let before = player_at(5, 6, false);
    let after = steer(before, &wish(true, false, true));
    assert_eq!(after.transform.unwrap().translation, Vec2::new(5, 6 + 3_000_000));
    assert_eq!(after.velocity, Some(Velocity(Vec2::new(150_000, 375_000))));
    assert_eq!(after.gravity, Some(GravityAffected { is_airborne: true }));
    assert_eq!(after.handler, Some(TerrainHandler::Stop));
    assert_eq!(after.collider, Some(Collider));
    assert_eq!(after.player, Some(Player));
}

#[test]
fn movement_without_a_player_does_nothing() {
    let mut world = World::new();
    world.spawn(body(0, 0, 1, 1));
    apply_movement(&mut world, &wish(true, false, true));
    assert_eq!(world.entities[0], body(0, 0, 1, 1));
}

#[test]
fn movement_with_two_players_does_nothing() {
    let mut world = World::new();
    world.spawn(player_at(0, 0, false));
    world.spawn(player_at(9, 9, false));
    apply_movement(&mut world, &wish(true, false, true));
    assert_eq!(world.entities[0], player_at(0, 0, false));
    assert_eq!(world.entities[1], player_at(9, 9, false));
}

#[test]
fn movement_passes_over_a_player_without_gravity() {
    let mut world = World::new();
    let mut floating = player_at(0, 0, false);
    floating.gravity = None;
    world.spawn(floating);
    world.spawn(player_at(1, 1, true));
    apply_movement(&mut world, &wish(true, false, false));
    assert_eq!(world.entities[0], floating);
    assert_eq!(velocity_of(&world, 1).x, 150_000);
}

#[test]
fn single_finds_the_one_that_plays_a_role() {
    let mut world = World::new();
    assert_eq!(world.single(Role::Mover), None);
    world.spawn(body(0, 0, 0, 0));
    world.spawn(player_at(0, 0, true));
    assert_eq!(world.single(Role::Mover), Some(1));
    assert_eq!(world.single(Role::Runner), Some(1));
    assert_eq!(world.single(Role::Lead), Some(1));
    assert_eq!(world.single(Role::Camera), None);
    world.spawn(player_at(0, 0, true));
    assert_eq!(world.single(Role::Mover), None);
    assert!(world.entities[1].plays(Role::Mover));
    assert!(!world.entities[0].plays(Role::Runner));
}

#[test]
fn world_hands_out_entities_in_order() {
    let mut world = World::new();
    assert_eq!(world.len(), 0);
    assert_eq!(world.spawn(body(0, 0, 0, 0)), Entity(0));
    assert_eq!(world.spawn(body(1, 1, 1, 1)), Entity(1));
    assert_eq!(world.len(), 2);
    assert_eq!(world.get(Entity(1)), Some(body(1, 1, 1, 1)));
    assert_eq!(world.get(Entity(2)), None);
}

#[test]
fn keys_right_only() {
    let mut keys = ButtonInput::<KeyCode>::default();
    keys.press(KeyCode::KeyD);
    assert_eq!(MovementInput::from_keys(&keys), wish(true, false, false));
    let mut arrows = ButtonInput::<KeyCode>::default();
    arrows.press(KeyCode::ArrowRight);
    assert_eq!(MovementInput::from_keys(&arrows), wish(true, false, false));
    let mut world = World::new();
    world.spawn(player_at(0, 0, true));
    assert!(do_player_movement(&mut world, &keys));
    assert_eq!(velocity_of(&world, 0).x, 150_000);
}

#[test]
fn keys_left_only() {
    let mut keys = ButtonInput::<KeyCode>::default();
    keys.press(KeyCode::KeyA);
    assert_eq!(MovementInput::from_keys(&keys), wish(false, true, false));
    let mut arrows = ButtonInput::<KeyCode>::default();
    arrows.press(KeyCode::ArrowLeft);
    assert_eq!(MovementInput::from_keys(&arrows), wish(false, true, false));
    let mut world = World::new();
    world.spawn(player_at(0, 0, true));
    assert!(do_player_movement(&mut world, &arrows));
    assert_eq!(velocity_of(&world, 0).x, -150_000);
    assert_eq!(world.entities[0].facing, Some(Facing::Left));
}

#[test]
fn keys_left_and_right_cancel() {
    let mut keys = ButtonInput::<KeyCode>::default();
    keys.press(KeyCode::KeyA);
    keys.press(KeyCode::ArrowRight);
    let mut world = World::new();
    world.spawn(player_at(0, 0, true));
    assert!(do_player_movement(&mut world, &keys));
    assert_eq!(velocity_of(&world, 0).x, 0);
}

#[test]
fn keys_none_pressed() {
    let keys = ButtonInput::<KeyCode>::default();
    assert_eq!(MovementInput::from_keys(&keys), wish(false, false, false));
}

#[test]
fn keys_other_keys_are_not_read() {
    let mut keys = ButtonInput::<KeyCode>::default();
    keys.press(KeyCode::KeyS);
    keys.press(KeyCode::ShiftLeft);
    keys.press(KeyCode::ArrowDown);
    keys.press(KeyCode::Enter);
    assert_eq!(MovementInput::from_keys(&keys), wish(false, false, false));
}

#[test]
fn keys_jump_needs_a_fresh_press() {
    for code in [KeyCode::Space, KeyCode::KeyW, KeyCode::ArrowUp] {
        let mut keys = ButtonInput::<KeyCode>::default();
        keys.press(code);
        assert_eq!(MovementInput::from_keys(&keys), wish(false, false, true));
        keys.clear();
        assert_eq!(MovementInput::from_keys(&keys), wish(false, false, false));
    }
}

#[test]
fn keys_a_fresh_direction_counts_as_held() {
    let mut keys = ButtonInput::<KeyCode>::default();
    keys.press(KeyCode::KeyD);
    keys.clear();
    assert_eq!(MovementInput::from_keys(&keys), wish(true, false, false));
    keys.release(KeyCode::KeyD);
    assert_eq!(MovementInput::from_keys(&keys), wish(false, false, false));
}

#[test]
fn keys_jump_from_the_ground() {
    let mut keys = ButtonInput::<KeyCode>::default();
    keys.press(KeyCode::Space);
    let mut world = World::new();
    world.spawn(player_at(0, 0, false));
    assert!(do_player_movement(&mut world, &keys));
    assert_eq!(velocity_of(&world, 0), Vec2::new(0, 375_000));
    assert_eq!(position_of(&world, 0), Vec2::new(0, 3_000_000));
    assert!(airborne(&world, 0));
}

#[test]
fn a_jump_that_leaves_the_range_is_not_made() {
    let mut keys = ButtonInput::<KeyCode>::default();
    keys.press(KeyCode::Space);
    keys.press(KeyCode::KeyD);
    let mut world = World::new();
    world.spawn(player_at(0, i64::MAX - 2_999_999, false));
    assert!(!movement_in_range(&world, &wish(true, false, true)));
    assert!(movement_in_range(&world, &wish(true, false, false)));
    assert!(!do_player_movement(&mut world, &keys));
    assert_eq!(world.entities[0], player_at(0, i64::MAX - 2_999_999, false));

    let mut fitting = World::new();
    fitting.spawn(player_at(0, i64::MAX - 3_000_000, false));
    assert!(movement_in_range(&fitting, &wish(false, false, true)));
    assert!(do_player_movement(&mut fitting, &keys));
    assert_eq!(position_of(&fitting, 0), Vec2::new(0, i64::MAX));

    let mut flying = World::new();
    flying.spawn(player_at(0, i64::MAX, true));
    assert!(movement_in_range(&flying, &wish(false, false, true)));
}

#[test]
fn actions_are_read_in_any_order() {
    let read = MovementInput::from_actions(&vec![
        PlayerAction::Jump,
        PlayerAction::MoveRight,
        PlayerAction::MoveRight,
    ]);
    assert_eq!(read, Ok(wish(true, false, true)));
    let both = MovementInput::from_actions(&vec![PlayerAction::MoveLeft, PlayerAction::MoveRight]);
    assert_eq!(both, Ok(wish(true, true, false)));
    assert_eq!(MovementInput::from_actions(&vec![]), Ok(wish(false, false, false)));
}

#[test]
fn actions_left_and_right_cancel() {
    let input =
        MovementInput::from_actions(&vec![PlayerAction::MoveRight, PlayerAction::MoveLeft]).unwrap();
    let mut world = World::new();
    world.spawn(player_at(0, 0, true));
    apply_movement(&mut world, &input);
    assert_eq!(velocity_of(&world, 0).x, 0);
}

#[test]
fn unimplemented_actions_are_refused() {
    assert_eq!(
        MovementInput::from_actions(&vec![PlayerAction::Crouch]),
        Err(Unimplemented(PlayerAction::Crouch))
    );
    assert_eq!(
        MovementInput::from_actions(&vec![PlayerAction::MoveLeft, PlayerAction::Attack]),
        Err(Unimplemented(PlayerAction::Attack))
    );
    assert_eq!(
        MovementInput::from_actions(&vec![
            PlayerAction::Jump,
            PlayerAction::Interact,
            PlayerAction::Crouch
        ]),
        Err(Unimplemented(PlayerAction::Interact))
    );
}

#[test]
fn implemented_actions() {
    assert!(PlayerAction::MoveRight.implemented());
    assert!(PlayerAction::MoveLeft.implemented());
    assert!(PlayerAction::Jump.implemented());
    assert!(!PlayerAction::Crouch.implemented());
    assert!(!PlayerAction::Attack.implemented());
    assert!(!PlayerAction::Interact.implemented());
}

#[test]
fn facing_is_written_only_on_change() {
    let mut facing = Facing::Right;
    assert!(!facing.set_if_neq(Facing::Right));
    assert_eq!(facing, Facing::Right);
    assert!(facing.set_if_neq(Facing::Left));
    assert_eq!(facing, Facing::Left);
}

#[test]
fn reset_takes_the_horizontal_velocity_of_the_player() {
    let mut world = World::new();
    world.spawn(body(0, 0, 7, 7));
    let mut running = player_at(0, 0, true);
    running.velocity = Some(Velocity(Vec2::new(150_000, -3)));
    world.spawn(running);
    reset_player_velocity(&mut world);
    assert_eq!(velocity_of(&world, 0), Vec2::new(7, 7));
    assert_eq!(velocity_of(&world, 1), Vec2::new(0, -3));
}

#[test]
fn reset_with_two_players_does_nothing() {
    let mut world = World::new();
    let mut running = player_at(0, 0, true);
    running.velocity = Some(Velocity(Vec2::new(150_000, -3)));
    world.spawn(running);
    world.spawn(running);
    reset_player_velocity(&mut world);
    assert_eq!(world.entities[0], running);
    assert_eq!(world.entities[1], running);
}
