//! Input bindings: a keyboard key or a pointer button, bound to an action.
use bevy::input::keyboard::{KeyCode, NativeKeyCode};
use bevy::input::mouse::MouseButton;
use bevy::input::ButtonInput;
use std::hash::Hash;
use vstd::prelude::*;

verus! {

/// bevy's `KeyCode`, a plain enum of key ids, with its variants visible.
#[verifier::external_type_specification]
pub struct ExKeyCode(KeyCode);

/// bevy's `NativeKeyCode`, which `KeyCode::Unidentified` carries.
#[verifier::external_type_specification]
pub struct ExNativeKeyCode(NativeKeyCode);

/// bevy's `MouseButton`, a plain enum of pointer-button ids, with its variants
/// visible.
#[verifier::external_type_specification]
pub struct ExMouseButton(MouseButton);

/// bevy's `ButtonInput`, the per-frame pressed state of keys or buttons, held
/// opaque: what it holds is named by `pressed_keys` and `pressed_buttons`.
#[verifier::external_type_specification]
#[verifier::external_body]
#[verifier::reject_recursive_types(T)]
pub struct ExButtonInput<T: Copy + Eq + Hash + Send + Sync + 'static>(ButtonInput<T>);

/// The keys that a keyboard input state holds as pressed.
pub uninterp spec fn pressed_keys(input: ButtonInput<KeyCode>) -> Set<KeyCode>;

/// The buttons that a pointer-button input state holds as pressed.
pub uninterp spec fn pressed_buttons(input: ButtonInput<MouseButton>) -> Set<MouseButton>;

/// Relies on bevy's `ButtonInput::pressed`, for keys: whether the key is in
/// the state's set of pressed inputs.
#[verifier::external_body]
fn key_pressed(input: &ButtonInput<KeyCode>, key: KeyCode) -> (r: bool)
    ensures
        r == pressed_keys(*input).contains(key),
{
    input.pressed(key)
}

/// Relies on bevy's `ButtonInput::pressed`, for pointer buttons: whether the
/// button is in the state's set of pressed inputs.
#[verifier::external_body]
fn button_pressed(input: &ButtonInput<MouseButton>, button: MouseButton) -> (r: bool)
    ensures
        r == pressed_buttons(*input).contains(button),
{
    input.pressed(button)
}

/// A binding of an action to either a keyboard key or a pointer button.
///
/// Bindings are compared and hashed by variant and by the underlying id.
#[derive(Debug, Clone, Copy, PartialEq, Eq, Hash)]
pub enum InputType {
    Key(KeyCode),
    Mouse(MouseButton),
}

/// Whether binding `b` is held, given the pressed keys and pressed buttons.
pub open spec fn binding_held(b: InputType, keys: Set<KeyCode>, buttons: Set<MouseButton>) -> bool {
    match b {
        InputType::Key(k) => keys.contains(k),
        InputType::Mouse(m) => buttons.contains(m),
    }
}

impl InputType {
    /// Whether this binding is held: its key among the pressed keys, or its
    /// button among the pressed pointer buttons.
    pub fn held(&self, keys: &ButtonInput<KeyCode>, buttons: &ButtonInput<MouseButton>) -> (r:
        bool)
        ensures
            r == binding_held(*self, pressed_keys(*keys), pressed_buttons(*buttons)),
    {
        match self {
            InputType::Key(k) => key_pressed(keys, *k),
            InputType::Mouse(m) => button_pressed(buttons, *m),
        }
    }

    /// The bound key, or `None` for a pointer-button binding.
    pub fn key(&self) -> (r: Option<KeyCode>)
        ensures
            r == (match *self {
                InputType::Key(k) => Some(k),
                InputType::Mouse(_) => None,
            }),
    {
        match self {
            InputType::Key(k) => Some(*k),
            InputType::Mouse(_) => None,
        }
    }

    /// The bound pointer button, or `None` for a key binding.
    pub fn mouse_button(&self) -> (r: Option<MouseButton>)
        ensures
            r == (match *self {
                InputType::Key(_) => None,
                InputType::Mouse(b) => Some(b),
            }),
    {
        match self {
            InputType::Key(_) => None,
            InputType::Mouse(b) => Some(*b),
        }
    }

    /// Whether this binding is a keyboard key.
    pub fn is_key(&self) -> (r: bool)
        ensures
            r == (*self is Key),
    {
        match self {
            InputType::Key(_) => true,
            InputType::Mouse(_) => false,
        }
    }
}

impl From<KeyCode> for InputType {
    fn from(value: KeyCode) -> (r: InputType)
        ensures
            r == InputType::Key(value),
    {
        InputType::Key(value)
    }
}

impl vstd::std_specs::convert::FromSpecImpl<KeyCode> for InputType {
    open spec fn obeys_from_spec() -> bool {
        true
    }

    open spec fn from_spec(v: KeyCode) -> InputType {
        InputType::Key(v)
    }
}

impl From<MouseButton> for InputType {
    fn from(value: MouseButton) -> (r: InputType)
        ensures
            r == InputType::Mouse(value),
    {
        InputType::Mouse(value)
    }
}

impl vstd::std_specs::convert::FromSpecImpl<MouseButton> for InputType {
    open spec fn obeys_from_spec() -> bool {
        true
    }

    open spec fn from_spec(v: MouseButton) -> InputType {
        InputType::Mouse(v)
    }
}

} // verus!
