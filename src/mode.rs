//! The interaction mode: panning, or rotating while the rotate binding is held.
use vstd::prelude::*;

verus! {

/// What pointer motion currently does to the camera.
#[derive(Debug, Clone, Copy, PartialEq, Eq, Structural)]
pub enum CameraMode {
    /// Edge panning is active.
    Move,
    /// The rotate binding is held: horizontal pointer motion turns the camera.
    Rotate,
}

/// The mode for one frame, given whether the rotate binding is held in it.
pub open spec fn mode_for(rotate_held: bool) -> CameraMode {
    if rotate_held {
        CameraMode::Rotate
    } else {
        CameraMode::Move
    }
}

/// The mode after a run of frames, starting from `start`, where `holds[i]`
/// tells whether the rotate binding was held in frame `i`.
pub open spec fn mode_after(start: CameraMode, holds: Seq<bool>) -> CameraMode
    decreases holds.len(),
{
    if holds.len() == 0 {
        start
    } else {
        let before = mode_after(start, holds.drop_last());
        if before == CameraMode::Move && holds.last() {
            CameraMode::Rotate
        } else if before == CameraMode::Rotate && !holds.last() {
            CameraMode::Move
        } else {
            before
        }
    }
}

impl CameraMode {
    /// The mode that a frame in which the rotate binding is held, or not, puts
    /// the camera in.
    pub fn from_rotate_held(rotate_held: bool) -> (r: CameraMode)
        ensures
            r == mode_for(rotate_held),
    {
        if rotate_held {
            CameraMode::Rotate
        } else {
            CameraMode::Move
        }
    }

    /// Whether edge panning may move the camera in this mode.
    pub fn is_move(&self) -> (r: bool)
        ensures
            r == (*self == CameraMode::Move),
    {
        match self {
            CameraMode::Move => true,
            CameraMode::Rotate => false,
        }
    }
}

impl Default for CameraMode {
    fn default() -> (r: CameraMode)
        ensures
            r == CameraMode::Move,
    {
        CameraMode::Move
    }
}

/// After any non-empty run of frames, the mode is `Rotate` exactly when the
/// rotate binding was held in the last frame, and `Move` otherwise: it
/// switches on press, reverts on release, and takes no third value.
pub proof fn lemma_mode_tracks_binding(start: CameraMode, holds: Seq<bool>)
    requires
        holds.len() > 0,
    ensures
        mode_after(start, holds) == mode_for(holds.last()),
        mode_after(start, holds) == CameraMode::Rotate <==> holds.last(),
        mode_after(start, holds) == CameraMode::Move <==> !holds.last(),
{
}

} // verus!
