use bevy::input::keyboard::KeyCode;
use bevy::input::mouse::MouseButton;
use bevy::input::ButtonInput;
use bevy::math::{Quat, Vec3};
use bevy::transform::components::Transform;
use bevy_top_down_camera::camera::{FrameControls, TopDownCamera};
use bevy_top_down_camera::edge::edge_depth;
use bevy_top_down_camera::mode::CameraMode;
use bevy_top_down_camera::sync::sync_player_camera;
use bevy_top_down_camera::InputType;

fn placement(target: &Transform, height_max: f32) -> Transform {
    let ahead = target.translation + Vec3::new(0.0, 0.0, -10_000.0);
    let mut new = target.looking_at(ahead, Vec3::Y);
    new.rotate_x(-0.65);
    let offset = height_max / 3.0;
    Transform {
        translation: new.translation + Vec3::new(0.0, offset, offset),
        rotation: new.rotation,
        scale: target.scale,
    }
}

#[test]
fn default_camera_values() {
    let cam = TopDownCamera::default();
    assert!(!cam.follow);
    assert!(cam.cursor_enabled);
    assert!(cam.zoom_enabled);
    assert!(cam.height_keys_enabled);
    assert_eq!(cam.height_rise_key, InputType::Key(KeyCode::KeyX));
    assert_eq!(cam.height_lower_key, InputType::Key(KeyCode::KeyZ));
    assert_eq!(cam.rotate_key, InputType::Mouse(MouseButton::Right));
    assert_eq!(cam.mode, CameraMode::Move);
    assert!(!cam.initial_setup);
}

#[test]
fn binding_accessors() {
    let k: InputType = KeyCode::KeyA.into();
    let m: InputType = MouseButton::Left.into();
    assert_eq!(k, InputType::Key(KeyCode::KeyA));
    assert_eq!(m, InputType::Mouse(MouseButton::Left));
    assert_eq!(k.key(), Some(KeyCode::KeyA));
    assert_eq!(m.key(), None);
    assert_eq!(m.mouse_button(), Some(MouseButton::Left));
    assert_eq!(k.mouse_button(), None);
    assert!(k.is_key());
    assert!(!m.is_key());
    assert_ne!(k, InputType::Key(KeyCode::KeyB));
}

#[test]
fn mode_defaults_to_move() {
    assert_eq!(CameraMode::default(), CameraMode::Move);
}

#[test]
fn mode_follows_rotate_binding() {
    let mut cam = TopDownCamera::default();
    cam.update_mode(true);
    assert_eq!(cam.mode, CameraMode::Rotate);
    assert!(cam.drag_rotate_active());
    assert!(!cam.edge_pan_active());
    cam.update_mode(true);
    assert_eq!(cam.mode, CameraMode::Rotate);
    cam.update_mode(false);
    assert_eq!(cam.mode, CameraMode::Move);
    assert!(cam.edge_pan_active());
    assert!(!cam.drag_rotate_active());
    assert_eq!(CameraMode::from_rotate_held(true), CameraMode::Rotate);
    assert_eq!(CameraMode::from_rotate_held(false), CameraMode::Move);
}

#[test]
fn edge_pan_off_when_cursor_disabled() {
    let mut cam = TopDownCamera::default();
    cam.cursor_enabled = false;
    assert!(!cam.edge_pan_active());
}

#[test]
fn height_keys_direction() {
    let mut cam = TopDownCamera::default();
    assert_eq!(cam.height_step(true, false), 1);
    assert_eq!(cam.height_step(false, true), -1);
    assert_eq!(cam.height_step(true, true), 0);
    assert_eq!(cam.height_step(false, false), 0);
    cam.height_keys_enabled = false;
    assert_eq!(cam.height_step(true, false), 0);
}

#[test]
fn edge_depth_values() {
    // window 800 wide, margin 30
    assert_eq!(edge_depth(0, 800, 30), -30);
    assert_eq!(edge_depth(10, 800, 30), -20);
    assert_eq!(edge_depth(29, 800, 30), -1);
    assert_eq!(edge_depth(30, 800, 30), 0);
    assert_eq!(edge_depth(400, 800, 30), 0);
    assert_eq!(edge_depth(770, 800, 30), 0);
    assert_eq!(edge_depth(771, 800, 30), 1);
    assert_eq!(edge_depth(790, 800, 30), 20);
    assert_eq!(edge_depth(800, 800, 30), 30);
    assert_eq!(edge_depth(5, 800, 0), 0);
}

#[test]
fn edge_depth_grows_towards_edge() {
    let mut last = 0;
    for p in (0..30u32).rev() {
        let d = edge_depth(p, 800, 30);
        assert!(d < last);
        assert!(d >= -30);
        last = d;
    }
    let mut last = 0;
    for p in 771..=800u32 {
        let d = edge_depth(p, 800, 30);
        assert!(d > last);
        assert!(d <= 30);
        last = d;
    }
}

#[test]
fn edge_depth_overlapping_margins() {
    // both margins hold the pointer: the two edges' pans add up
    assert_eq!(edge_depth(10, 40, 30), -20);
    assert_eq!(edge_depth(35, 40, 30), 25);
    assert_eq!(edge_depth(20, 40, 30), 0);
    assert_eq!(edge_depth(15, 40, 30), -10);
    assert_eq!(edge_depth(25, 40, 30), 10);
    assert_eq!(edge_depth(0, 40, 30), -30);
    assert_eq!(edge_depth(40, 40, 30), 30);
}

#[test]
fn sync_places_once_then_idles() {
    let mut cam = TopDownCamera::default();
    let mut pos = Transform::default();
    let target = Transform::from_xyz(0.0, 0.0, 0.0);
    let placements = vec![placement(&target, 50.0)];

    sync_player_camera(&mut cam, &mut pos, &placements);
    assert!(cam.initial_setup);
    assert_eq!(pos, placements[0]);
    let offset = 50.0_f32 / 3.0;
    assert!((pos.translation.y - offset).abs() < 1e-4);
    assert!((pos.translation.z - offset).abs() < 1e-4);
    assert_ne!(pos.rotation, Quat::IDENTITY);
    let elsewhere = placement(&Transform::from_xyz(3.0, 2.0, -4.0), 50.0);
    assert!(elsewhere.rotation.angle_between(pos.rotation) < 1e-5);
    let first = pos;

    sync_player_camera(&mut cam, &mut pos, &placements);
    assert!(cam.initial_setup);
    assert_eq!(pos.translation.to_array(), first.translation.to_array());
    assert_eq!(pos.rotation.to_array(), first.rotation.to_array());

    let moved = vec![placement(&Transform::from_xyz(5.0, 0.0, 5.0), 50.0)];
    for _ in 0..10 {
        sync_player_camera(&mut cam, &mut pos, &moved);
    }
    assert_eq!(pos, first);
}

#[test]
fn sync_follows_every_frame() {
    let mut cam = TopDownCamera::default();
    cam.follow = true;
    let mut pos = Transform::default();
    let a = vec![Transform::from_xyz(1.0, 2.0, 3.0)];
    let b = vec![Transform::from_xyz(4.0, 5.0, 6.0)];
    sync_player_camera(&mut cam, &mut pos, &a);
    assert_eq!(pos, a[0]);
    sync_player_camera(&mut cam, &mut pos, &b);
    assert_eq!(pos, b[0]);
    assert!(cam.initial_setup);
}

#[test]
fn sync_last_target_wins() {
    let mut cam = TopDownCamera::default();
    let mut pos = Transform::default();
    let many = vec![
        Transform::from_xyz(1.0, 0.0, 0.0),
        Transform::from_xyz(2.0, 0.0, 0.0),
        Transform::from_xyz(3.0, 0.0, 0.0),
    ];
    sync_player_camera(&mut cam, &mut pos, &many);
    assert_eq!(pos, many[2]);
}

#[test]
fn sync_without_target_keeps_transform() {
    let mut cam = TopDownCamera::default();
    cam.follow = true;
    cam.initial_setup = true;
    let start = Transform::from_xyz(7.0, 8.0, 9.0);
    let mut pos = start;
    let none: Vec<Transform> = Vec::new();
    sync_player_camera(&mut cam, &mut pos, &none);
    assert_eq!(pos, start);
    assert!(cam.initial_setup);
    assert!(cam.follow);
}

#[test]
fn sync_without_target_leaves_camera_unplaced() {
    let mut cam = TopDownCamera::default();
    let start = Transform::from_xyz(7.0, 8.0, 9.0);
    let mut pos = start;
    let none: Vec<Transform> = Vec::new();
    sync_player_camera(&mut cam, &mut pos, &none);
    assert_eq!(pos, start);
    assert!(!cam.initial_setup);

    // a target that appears a frame late still gets the camera placed
    let late = vec![Transform::from_xyz(1.0, 0.0, 1.0)];
    sync_player_camera(&mut cam, &mut pos, &late);
    assert_eq!(pos, late[0]);
    assert!(cam.initial_setup);
}
