//! The keyboard, as the engine hands it to the frame hook.

use vstd::prelude::*;
use bevy::input::keyboard::KeyCode;
use bevy::input::Input;

verus! {

/// The engine's record of the buttons that are down. Nothing of its inside
/// is known here.
#[verifier::external_type_specification]
#[verifier::external_body]
#[verifier::reject_recursive_types(T)]
pub struct ExInput<T: Eq + std::hash::Hash>(Input<T>);

/// The engine's names of the keys. Nothing of its inside is known here.
#[verifier::external_type_specification]
#[verifier::external_body]
pub struct ExKeyCode(KeyCode);

/// What `Input::pressed` answers for the Escape key on `keys`: whether the
/// key stands in the record's set of pressed keys.
pub uninterp spec fn escape_down(keys: Input<KeyCode>) -> bool;

/// Asks bevy's `Input::pressed` whether `KeyCode::Escape` is down. The answer
/// is a lookup in the record's set of pressed keys, so it is the same for the
/// same record; the contract gives it its name and claims no more.
#[verifier::external_body]
pub(crate) fn escape_pressed(keys: &Input<KeyCode>) -> (down: bool)
    ensures
        down == escape_down(*keys),
{
    keys.pressed(KeyCode::Escape)
}

} // verus!
