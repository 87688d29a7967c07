//! A top-down camera controller: the camera hovers above and behind a
//! tracked target at a fixed downward pitch, and pointer and key input pan,
//! rotate, zoom and raise it.
//!
//! This crate holds the controller's decisions: which binding is held, the
//! two-state interaction mode, which controls act in a frame, how deep the
//! pointer sits in an edge margin, and when the follow step places the
//! camera. The floating-point geometry that turns these into a camera
//! transform is done by the host around it.
pub mod binding;
pub mod camera;
pub mod edge;
pub mod mode;
pub mod sync;

pub use binding::InputType;
pub use camera::TopDownCamera;
pub use edge::edge_depth;
pub use mode::CameraMode;
pub use sync::sync_player_camera;
