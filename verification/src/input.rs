//! What the player asks for during a tick, as a list of discrete actions or as
//! the raw state of the keyboard.

use bevy::input::keyboard::KeyCode;
use bevy::input::ButtonInput;
use vstd::prelude::*;

verus! {

/// The engine's code of a key on the keyboard, `KeyCode`. It is carried
/// through and never looked into.
#[verifier::external_type_specification]
#[verifier::external_body]
pub struct ExKeyCode(bevy::input::keyboard::KeyCode);

/// The engine's record of which buttons are pressed, `ButtonInput`. What it
/// holds is known only through [`held_keys`] and [`fresh_keys`].
#[verifier::external_type_specification]
#[verifier::external_body]
#[verifier::reject_recursive_types(T)]
pub struct ExButtonInput<T: Copy + Eq + std::hash::Hash + Send + Sync + 'static>(
    bevy::input::ButtonInput<T>,
);

/// A discrete intent of the player.
#[derive(Clone, Copy, Debug, PartialEq, Eq, Structural)]
pub enum PlayerAction {
    MoveRight,
    MoveLeft,
    Crouch,
    Jump,
    Attack,
    Interact,
}

impl PlayerAction {
    /// Moving and jumping are implemented. Crouching, attacking and
    /// interacting are known intents that the movement controller does not
    /// handle yet: it refuses them rather than pass them over in silence.
    pub open spec fn is_implemented(self) -> bool {
        self is MoveRight || self is MoveLeft || self is Jump
    }

    pub fn implemented(&self) -> (yes: bool)
        ensures
            yes == self.is_implemented(),
    {
        match self {
            PlayerAction::MoveRight | PlayerAction::MoveLeft | PlayerAction::Jump => true,
            PlayerAction::Crouch | PlayerAction::Attack | PlayerAction::Interact => false,
        }
    }
}

/// The refusal of an action that is known but not implemented.
#[derive(Clone, Copy, Debug, PartialEq, Eq, Structural)]
pub struct Unimplemented(pub PlayerAction);

/// The keys that steer the player.
#[derive(Clone, Copy, Debug, PartialEq, Eq, Structural)]
pub enum Key {
    KeyD,
    ArrowRight,
    KeyA,
    ArrowLeft,
    Space,
    KeyW,
    ArrowUp,
}

/// The steering keys that a keyboard state holds as pressed: those for which
/// `ButtonInput::pressed` answers yes.
pub uninterp spec fn held_keys(keys: ButtonInput<KeyCode>) -> Set<Key>;

/// The steering keys that a keyboard state holds as pressed since the last
/// frame only: those for which `ButtonInput::just_pressed` answers yes.
pub uninterp spec fn fresh_keys(keys: ButtonInput<KeyCode>) -> Set<Key>;

/// Calls `ButtonInput::pressed` with the key code of the same name as `key`.
/// It is taken on trust that the answer is whether the keyboard state holds
/// that key as pressed.
#[verifier::external_body]
fn key_held(keys: &ButtonInput<KeyCode>, key: Key) -> (held: bool)
    ensures
        held == held_keys(*keys).contains(key),
{
    keys.pressed(
        match key {
            Key::KeyD => KeyCode::KeyD,
            Key::ArrowRight => KeyCode::ArrowRight,
            Key::KeyA => KeyCode::KeyA,
            Key::ArrowLeft => KeyCode::ArrowLeft,
            Key::Space => KeyCode::Space,
            Key::KeyW => KeyCode::KeyW,
            Key::ArrowUp => KeyCode::ArrowUp,
        },
    )
}

/// Calls `ButtonInput::just_pressed` with the key code of the same name as
/// `key`. It is taken on trust that the answer is whether the keyboard state
/// holds that key as pressed since the last frame.
#[verifier::external_body]
fn key_fresh(keys: &ButtonInput<KeyCode>, key: Key) -> (fresh: bool)
    ensures
        fresh == fresh_keys(*keys).contains(key),
{
    keys.just_pressed(
        match key {
            Key::KeyD => KeyCode::KeyD,
            Key::ArrowRight => KeyCode::ArrowRight,
            Key::KeyA => KeyCode::KeyA,
            Key::ArrowLeft => KeyCode::ArrowLeft,
            Key::Space => KeyCode::Space,
            Key::KeyW => KeyCode::KeyW,
            Key::ArrowUp => KeyCode::ArrowUp,
        },
    )
}

/// What the movement controller reads of the player's wishes in one tick.
#[derive(Clone, Copy, Debug, PartialEq, Eq, Structural)]
pub struct MovementInput {
    /// The player wants to go right.
    pub right: bool,
    /// The player wants to go left.
    pub left: bool,
    /// The player wants to jump.
    pub jump: bool,
}

impl MovementInput {
    /// The wishes in a list of actions: a direction or a jump is wanted if
    /// the list holds it, however often and wherever.
    pub open spec fn of_actions(actions: Seq<PlayerAction>) -> MovementInput {
        MovementInput {
            right: actions.contains(PlayerAction::MoveRight),
            left: actions.contains(PlayerAction::MoveLeft),
            jump: actions.contains(PlayerAction::Jump),
        }
    }

    /// The wishes in a keyboard state: right is D or the right arrow, left is
    /// A or the left arrow, held down; a jump is space, W or the up arrow,
    /// pressed since the last frame.
    pub open spec fn of_keys(held: Set<Key>, fresh: Set<Key>) -> MovementInput {
        MovementInput {
            right: held.contains(Key::KeyD) || held.contains(Key::ArrowRight),
            left: held.contains(Key::KeyA) || held.contains(Key::ArrowLeft),
            jump: fresh.contains(Key::Space) || fresh.contains(Key::KeyW) || fresh.contains(
                Key::ArrowUp,
            ),
        }
    }

    /// Reads the wishes off the actions queued for this tick. A queue that
    /// holds an action which is not implemented is refused, with the first
    /// such action.
    pub fn from_actions(actions: &Vec<PlayerAction>) -> (read: Result<MovementInput, Unimplemented>)
        ensures
            match read {
                Ok(input) => {
                    &&& forall|i: int|
                        0 <= i < actions@.len() ==> (#[trigger] actions@[i]).is_implemented()
                    &&& input == MovementInput::of_actions(actions@)
                },
                Err(refused) => exists|k: int|
                    {
                        &&& 0 <= k < actions@.len()
                        &&& refused.0 == #[trigger] actions@[k]
                        &&& !actions@[k].is_implemented()
                        &&& forall|i: int| 0 <= i < k ==> (#[trigger] actions@[i]).is_implemented()
                    },
            },
    {
        let mut input = MovementInput { right: false, left: false, jump: false };
        let mut i: usize = 0;
        while i < actions.len()
            invariant
                i <= actions@.len(),
                forall|k: int| 0 <= k < i ==> (#[trigger] actions@[k]).is_implemented(),
                input == MovementInput::of_actions(actions@.take(i as int)),
            decreases actions@.len() - i,
        {
            let ghost seen = actions@.take(i as int);
            let ghost next = actions@.take(i + 1);
            let action = actions[i];
            assert(next == seen.push(action));
            assert forall|a: PlayerAction| next.contains(a) == (seen.contains(a) || a == action) by {
                if seen.contains(a) {
                    let k = choose|k: int| 0 <= k < seen.len() && seen[k] == a;
                    assert(next[k] == a);
                }
                if a == action {
                    assert(next[i as int] == a);
                }
            }
            match action {
                PlayerAction::MoveRight => {
                    input.right = true;
                },
                PlayerAction::MoveLeft => {
                    input.left = true;
                },
                PlayerAction::Jump => {
                    input.jump = true;
                },
                PlayerAction::Crouch | PlayerAction::Attack | PlayerAction::Interact => {
                    return Err(Unimplemented(action));
                },
            }
            i += 1;
        }
        assert(actions@.take(i as int) == actions@);
        Ok(input)
    }

    /// Reads the wishes off the keyboard.
    pub fn from_keys(keys: &ButtonInput<KeyCode>) -> (input: MovementInput)
        ensures
            input == MovementInput::of_keys(held_keys(*keys), fresh_keys(*keys)),
    {
        MovementInput {
            right: key_held(keys, Key::KeyD) || key_held(keys, Key::ArrowRight),
            left: key_held(keys, Key::KeyA) || key_held(keys, Key::ArrowLeft),
            jump: key_fresh(keys, Key::Space) || key_fresh(keys, Key::KeyW) || key_fresh(
                keys,
                Key::ArrowUp,
            ),
        }
    }
}

} // verus!
