//! The camera's configuration and runtime state, and the per-frame decisions
//! of the pointer, zoom and height controls.
use crate::binding::{binding_held, pressed_buttons, pressed_keys, InputType};
use crate::mode::{mode_for, CameraMode};
use bevy::input::keyboard::KeyCode;
use bevy::input::mouse::MouseButton;
use bevy::input::ButtonInput;
use vstd::prelude::*;

verus! {

/// Configuration and runtime state of a top-down camera.
///
/// The floating-point tuning (speeds, zoom and height bounds, edge margin)
/// stays with the host; this record holds what the controller decides on.
pub struct TopDownCamera {
    /// Whether the camera keeps re-centring on the tracked target.
    pub follow: bool,
    /// Whether the pointer at a screen edge pans the camera.
    pub cursor_enabled: bool,
    /// Whether the scroll wheel zooms.
    pub zoom_enabled: bool,
    /// Whether the height keys raise and lower the camera.
    pub height_keys_enabled: bool,
    /// Binding that lowers the camera.
    pub height_lower_key: InputType,
    /// Binding that raises the camera.
    pub height_rise_key: InputType,
    /// Binding that, while held, turns pointer motion into rotation.
    pub rotate_key: InputType,
    /// The current interaction mode.
    pub mode: CameraMode,
    /// Whether the camera has received its first placement.
    pub initial_setup: bool,
}

impl Default for TopDownCamera {
    /// Follow off, all controls on, raise on X and lower on Z, rotate on the
    /// right pointer button, in `Move` mode and not yet placed.
    fn default() -> (r: TopDownCamera)
        ensures
            !r.follow,
            r.cursor_enabled,
            r.zoom_enabled,
            r.height_keys_enabled,
            r.height_rise_key == InputType::Key(KeyCode::KeyX),
            r.height_lower_key == InputType::Key(KeyCode::KeyZ),
            r.rotate_key == InputType::Mouse(MouseButton::Right),
            r.mode == CameraMode::Move,
            !r.initial_setup,
    {
        TopDownCamera {
            follow: false,
            cursor_enabled: true,
            zoom_enabled: true,
            height_keys_enabled: true,
            height_rise_key: InputType::Key(KeyCode::KeyX),
            height_lower_key: InputType::Key(KeyCode::KeyZ),
            rotate_key: InputType::Mouse(MouseButton::Right),
            mode: CameraMode::Move,
            initial_setup: false,
        }
    }
}

/// The direction in which the height keys move the camera in one frame:
/// `1` up, `-1` down, `0` when both or neither are held or the keys are off.
pub open spec fn height_step_spec(enabled: bool, rise_held: bool, lower_held: bool) -> int {
    if !enabled || rise_held == lower_held {
        0
    } else if rise_held {
        1
    } else {
        -1
    }
}

/// What the pointer and key controls may do to the camera in one frame.
#[derive(Debug, Clone, Copy, PartialEq, Eq, Structural)]
pub struct FrameControls {
    /// The pointer at a screen edge pans the camera.
    pub edge_pan: bool,
    /// Horizontal pointer motion rotates the camera.
    pub drag_rotate: bool,
    /// The scroll wheel zooms.
    pub zoom: bool,
    /// Direction of the height keys: `1` up, `-1` down, `0` still.
    pub height_step: i8,
}

impl TopDownCamera {
    /// Reads one frame of key and button state: sets the mode from the rotate
    /// binding and says which controls act on the camera in this frame.
    pub fn apply_input(&mut self, keys: &ButtonInput<KeyCode>, buttons: &ButtonInput<MouseButton>) -> (r:
        FrameControls)
        ensures
            final(self).mode == mode_for(
                binding_held(old(self).rotate_key, pressed_keys(*keys), pressed_buttons(*buttons)),
            ),
            *final(self) == (TopDownCamera { mode: final(self).mode, ..*old(self) }),
            r.edge_pan == (old(self).cursor_enabled && final(self).mode == CameraMode::Move),
            r.drag_rotate == (final(self).mode == CameraMode::Rotate),
            r.zoom == old(self).zoom_enabled,
            r.height_step as int == height_step_spec(
                old(self).height_keys_enabled,
                binding_held(old(self).height_rise_key, pressed_keys(*keys), pressed_buttons(*buttons)),
                binding_held(old(self).height_lower_key, pressed_keys(*keys), pressed_buttons(*buttons)),
            ),
    {
        let rotate_held = self.rotate_key.held(keys, buttons);
        self.update_mode(rotate_held);
        let rise = self.height_rise_key.held(keys, buttons);
        let lower = self.height_lower_key.held(keys, buttons);
        FrameControls {
            edge_pan: self.edge_pan_active(),
            drag_rotate: self.drag_rotate_active(),
            zoom: self.zoom_enabled,
            height_step: self.height_step(rise, lower),
        }
    }

    /// Sets the mode for this frame: `Rotate` while the rotate binding is
    /// held, `Move` otherwise. Nothing else changes.
    pub fn update_mode(&mut self, rotate_held: bool)
        ensures
            final(self).mode == mode_for(rotate_held),
            *final(self) == (TopDownCamera { mode: final(self).mode, ..*old(self) }),
    {
        self.mode = CameraMode::from_rotate_held(rotate_held);
    }

    /// Whether edge panning moves the camera this frame: it is enabled and the
    /// camera is in `Move` mode.
    pub fn edge_pan_active(&self) -> (r: bool)
        ensures
            r == (self.cursor_enabled && self.mode == CameraMode::Move),
    {
        self.cursor_enabled && self.mode.is_move()
    }

    /// Whether horizontal pointer motion rotates the camera this frame.
    pub fn drag_rotate_active(&self) -> (r: bool)
        ensures
            r == (self.mode == CameraMode::Rotate),
    {
        !self.mode.is_move()
    }

    /// The direction in which the height keys move the camera this frame.
    pub fn height_step(&self, rise_held: bool, lower_held: bool) -> (r: i8)
        ensures
            r as int == height_step_spec(self.height_keys_enabled, rise_held, lower_held),
    {
        if !self.height_keys_enabled || rise_held == lower_held {
            0
        } else if rise_held {
            1
        } else {
            -1
        }
    }
}

} // verus!
