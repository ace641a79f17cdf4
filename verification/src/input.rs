//! Key snapshots, and the drive directions read from them.
//!
//! The snapshot is the engine's own `ButtonInput<KeyCode>`.  Verus does not
//! look inside it: what it holds is named by [`held_keys`] and
//! [`fresh_keys`], and read through two small functions whose contracts are
//! taken on trust.

use std::hash::Hash;
use vstd::prelude::*;

verus! {

/// The engine's button snapshot, declared so that it can stand in
/// signatures.  Nothing is claimed of it here.
#[verifier::external_type_specification]
#[verifier::external_body]
#[verifier::reject_recursive_types(T)]
pub struct ExButtonInput<T: Copy + Eq + Hash + Send + Sync + 'static>(bevy::input::ButtonInput<T>);

/// The engine's key codes, declared so that they can stand in signatures.
/// Nothing is claimed of them here.
#[verifier::external_type_specification]
#[verifier::external_body]
pub struct ExKeyCode(bevy::input::keyboard::KeyCode);

/// The keys that the library listens to.
#[derive(Clone, Copy, Debug, PartialEq, Eq, Structural)]
pub enum DriveKey {
    ArrowUp,
    ArrowDown,
    ArrowLeft,
    ArrowRight,
    Tab,
}

/// Which of the four drive keys are held.
#[derive(Clone, Copy, Debug, PartialEq, Eq, Structural)]
pub struct DriveKeys {
    pub up: bool,
    pub down: bool,
    pub left: bool,
    pub right: bool,
}

/// The keys of [`DriveKey`] that `inputs` holds as pressed.
pub uninterp spec fn held_keys(inputs: bevy::input::ButtonInput<bevy::input::keyboard::KeyCode>) -> Set<
    DriveKey,
>;

/// The keys of [`DriveKey`] that `inputs` holds as pressed since the last
/// tick.
pub uninterp spec fn fresh_keys(
    inputs: bevy::input::ButtonInput<bevy::input::keyboard::KeyCode>,
) -> Set<DriveKey>;

/// Calls `ButtonInput::pressed` with the key code that `key` stands for.
/// Taken on trust: the answer is whether that key is in the snapshot's set of
/// pressed keys, which is what [`held_keys`] names.
#[verifier::external_body]
pub(crate) fn key_pressed(
    inputs: &bevy::input::ButtonInput<bevy::input::keyboard::KeyCode>,
    key: DriveKey,
) -> (b: bool)
    ensures
        b == held_keys(*inputs).contains(key),
{
    inputs.pressed(
        match key {
            DriveKey::ArrowUp => bevy::input::keyboard::KeyCode::ArrowUp,
            DriveKey::ArrowDown => bevy::input::keyboard::KeyCode::ArrowDown,
            DriveKey::ArrowLeft => bevy::input::keyboard::KeyCode::ArrowLeft,
            DriveKey::ArrowRight => bevy::input::keyboard::KeyCode::ArrowRight,
            DriveKey::Tab => bevy::input::keyboard::KeyCode::Tab,
        },
    )
}

/// Calls `ButtonInput::just_pressed` with the key code that `key` stands
/// for.  Taken on trust: the answer is whether that key is in the snapshot's
/// set of keys pressed since the last tick, which is what [`fresh_keys`]
/// names.
#[verifier::external_body]
pub(crate) fn key_just_pressed(
    inputs: &bevy::input::ButtonInput<bevy::input::keyboard::KeyCode>,
    key: DriveKey,
) -> (b: bool)
    ensures
        b == fresh_keys(*inputs).contains(key),
{
    inputs.just_pressed(
        match key {
            DriveKey::ArrowUp => bevy::input::keyboard::KeyCode::ArrowUp,
            DriveKey::ArrowDown => bevy::input::keyboard::KeyCode::ArrowDown,
            DriveKey::ArrowLeft => bevy::input::keyboard::KeyCode::ArrowLeft,
            DriveKey::ArrowRight => bevy::input::keyboard::KeyCode::ArrowRight,
            DriveKey::Tab => bevy::input::keyboard::KeyCode::Tab,
        },
    )
}

/// `1` where only the positive key is held, `-1` where only the negative one
/// is, and `0` where both or neither are: opposite keys cancel.
pub open spec fn axis(positive: bool, negative: bool) -> int {
    (if positive { 1int } else { 0int }) - (if negative { 1int } else { 0int })
}

/// The drive keys among `keys`.
pub open spec fn drive_keys_of(keys: Set<DriveKey>) -> DriveKeys {
    DriveKeys {
        up: keys.contains(DriveKey::ArrowUp),
        down: keys.contains(DriveKey::ArrowDown),
        left: keys.contains(DriveKey::ArrowLeft),
        right: keys.contains(DriveKey::ArrowRight),
    }
}

impl DriveKeys {
    /// No drive key held.
    pub fn none() -> (d: DriveKeys)
        ensures
            d == (DriveKeys { up: false, down: false, left: false, right: false }),
    {
        DriveKeys { up: false, down: false, left: false, right: false }
    }

    /// Forward against backward, see [`axis`].
    pub open spec fn spec_forward(self) -> int {
        axis(self.up, self.down)
    }

    /// Left against right, see [`axis`].
    pub open spec fn spec_leftward(self) -> int {
        axis(self.left, self.right)
    }

    /// Forward against backward as `-1`, `0` or `1`.
    pub fn forward(self) -> (a: i64)
        ensures
            a == self.spec_forward(),
    {
        let p: i64 = if self.up { 1 } else { 0 };
        let n: i64 = if self.down { 1 } else { 0 };
        p - n
    }

    /// Left against right as `-1`, `0` or `1`.
    pub fn leftward(self) -> (a: i64)
        ensures
            a == self.spec_leftward(),
    {
        let p: i64 = if self.left { 1 } else { 0 };
        let n: i64 = if self.right { 1 } else { 0 };
        p - n
    }
}

/// The drive keys that `inputs` holds as pressed.
pub fn drive_keys(inputs: &bevy::input::ButtonInput<bevy::input::keyboard::KeyCode>) -> (d:
    DriveKeys)
    ensures
        d == drive_keys_of(held_keys(*inputs)),
{
    DriveKeys {
        up: key_pressed(inputs, DriveKey::ArrowUp),
        down: key_pressed(inputs, DriveKey::ArrowDown),
        left: key_pressed(inputs, DriveKey::ArrowLeft),
        right: key_pressed(inputs, DriveKey::ArrowRight),
    }
}

/// Whether the key that moves the selection on went down since the last
/// tick.
pub fn cycle_requested(inputs: &bevy::input::ButtonInput<bevy::input::keyboard::KeyCode>) -> (b:
    bool)
    ensures
        b == fresh_keys(*inputs).contains(DriveKey::Tab),
{
    key_just_pressed(inputs, DriveKey::Tab)
}

} // verus!
