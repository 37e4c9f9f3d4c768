use twigs::render::camera::{CameraAction, CameraController, Key, Pressed};

#[test]
fn pressed_starts_clear() {
    let pressed = Pressed::new();
    assert!(!pressed.zoom_in);
    assert!(!pressed.zoom_out);
    assert!(!pressed.orbit_left);
    assert!(!pressed.orbit_right);
    assert!(!pressed.orbit_up);
    assert!(!pressed.orbit_down);
    assert!(!pressed.pan_left);
    assert!(!pressed.pan_right);
    assert!(!pressed.pan_up);
    assert!(!pressed.pan_down);
}

#[test]
fn controller_stores_speed_encoding() {
    let controller = CameraController::new(1.0f32.to_bits());
    assert_eq!(f32::from_bits(controller.speed), 1.0);
    assert_eq!(controller.pressed, Pressed::new());
}

#[test]
fn each_key_drives_its_flag() {
    let mut controller = CameraController::new(1.0f32.to_bits());

    assert!(controller.process_events(Key::Equal, true));
    assert!(controller.pressed.zoom_in);
    assert!(controller.process_events(Key::Minus, true));
    assert!(controller.pressed.zoom_out);
    assert!(controller.process_events(Key::KeyA, true));
    assert!(controller.pressed.orbit_left);
    assert!(controller.process_events(Key::KeyD, true));
    assert!(controller.pressed.orbit_right);
    assert!(controller.process_events(Key::KeyW, true));
    assert!(controller.pressed.orbit_up);
    assert!(controller.process_events(Key::KeyS, true));
    assert!(controller.pressed.orbit_down);
    assert!(controller.process_events(Key::ArrowUp, true));
    assert!(controller.pressed.pan_up);
    assert!(controller.process_events(Key::ArrowDown, true));
    assert!(controller.pressed.pan_down);
    assert!(controller.process_events(Key::ArrowLeft, true));
    assert!(controller.pressed.pan_left);
    assert!(controller.process_events(Key::ArrowRight, true));
    assert!(controller.pressed.pan_right);

    assert!(controller.process_events(Key::Equal, false));
    assert!(!controller.pressed.zoom_in);
    assert!(controller.pressed.zoom_out);
}

#[test]
fn unrecognized_key_is_unclaimed() {
    let mut controller = CameraController::new(1.0f32.to_bits());
    let before = controller.pressed;
    assert!(!controller.process_events(Key::Other, true));
    assert_eq!(controller.pressed, before);
}

#[test]
fn zoom_in_fires_only_under_guard() {
    let mut controller = CameraController::new(1.0f32.to_bits());
    controller.process_events(Key::Equal, true);
    assert_eq!(controller.frame_actions(true), vec![CameraAction::ZoomIn]);
    assert_eq!(controller.frame_actions(false), Vec::<CameraAction>::new());
}

#[test]
fn orbit_right_alone_plans_one_step() {
    let mut controller = CameraController::new(1.0f32.to_bits());
    controller.process_events(Key::KeyD, true);
    assert_eq!(controller.frame_actions(true), vec![CameraAction::OrbitRight]);
    assert_eq!(controller.frame_actions(false), vec![CameraAction::OrbitRight]);
}

#[test]
fn frame_order_is_zoom_then_orbit() {
    let mut controller = CameraController::new(1.0f32.to_bits());
    for key in [Key::Equal, Key::Minus, Key::KeyA, Key::KeyD, Key::KeyW, Key::KeyS] {
        controller.process_events(key, true);
    }
    let actions = controller.frame_actions(true);
    assert_eq!(
        actions,
        vec![
            CameraAction::ZoomIn,
            CameraAction::ZoomOut,
            CameraAction::OrbitDown,
            CameraAction::OrbitUp,
            CameraAction::OrbitLeft,
            CameraAction::OrbitRight,
        ]
    );
}

#[test]
fn orbit_only_frames_plan_no_zoom() {
    let mut controller = CameraController::new(1.0f32.to_bits());
    for key in [Key::KeyA, Key::KeyD, Key::KeyW, Key::KeyS] {
        controller.process_events(key, true);
    }
    for action in controller.frame_actions(true) {
        assert_ne!(action, CameraAction::ZoomIn);
        assert_ne!(action, CameraAction::ZoomOut);
    }
}

#[test]
fn pan_flags_plan_nothing() {
    let mut controller = CameraController::new(1.0f32.to_bits());
    for key in [Key::ArrowUp, Key::ArrowDown, Key::ArrowLeft, Key::ArrowRight] {
        controller.process_events(key, true);
    }
    assert_eq!(controller.frame_actions(true), Vec::<CameraAction>::new());
}
