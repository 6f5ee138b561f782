use osrs_scene::camera::{OsrsCamera, Projection};
use osrs_scene::controller::{CameraController, InputEvent};
use osrs_scene::fixed::Vec3Milli;

fn origin() -> Vec3Milli {
    Vec3Milli { x: 0, y: 0, z: 0 }
}

#[test]
fn new_camera_has_default_pose() {
    let cam = OsrsCamera::new(Vec3Milli { x: 1, y: 2, z: 3 });
    assert_eq!(cam.focus_point, Vec3Milli { x: 1, y: 2, z: 3 });
    assert_eq!(cam.yaw_mdeg, 0);
    assert_eq!(cam.pitch_mdeg, 50_000);
    assert_eq!(cam.distance_milli, 10_000);
}

#[test]
fn projection_resize_updates_aspect_pair() {
    let mut proj = Projection::new(800, 600, 45_000, 100, 100_000);
    assert_eq!(proj.width, 800);
    assert_eq!(proj.height, 600);
    proj.resize(1024, 768);
    assert_eq!(proj.width, 1024);
    assert_eq!(proj.height, 768);
    assert_eq!(proj.fovy_mdeg, 45_000);
    assert_eq!(proj.znear_milli, 100);
    assert_eq!(proj.zfar_milli, 100_000);
}

#[test]
fn pitch_clamps_at_upper_bound() {
    // a huge upward mouse drag while the middle button is held
    let mut ctrl = CameraController::new(2_000, 200);
    let mut cam = OsrsCamera::new(origin());
    assert!(ctrl.process_events(&InputEvent::MiddleMouse { pressed: true }));
    ctrl.process_mouse_motion(0, -1_000_000);
    ctrl.update_camera(&mut cam);
    assert_eq!(cam.pitch_mdeg, 89_000);
}

#[test]
fn pitch_clamps_at_lower_bound() {
    let mut ctrl = CameraController::new(2_000, 200);
    let mut cam = OsrsCamera::new(origin());
    assert!(ctrl.process_events(&InputEvent::MiddleMouse { pressed: true }));
    ctrl.process_mouse_motion(0, 1_000_000);
    ctrl.update_camera(&mut cam);
    assert_eq!(cam.pitch_mdeg, 5_000);
}

#[test]
fn pitch_stays_in_range_over_many_updates() {
    let mut ctrl = CameraController::new(2_000, 200);
    let mut cam = OsrsCamera::new(origin());
    assert!(ctrl.process_events(&InputEvent::MiddleMouse { pressed: true }));
    let deltas: [i64; 6] = [500_000, -900_000, 123_456, -1, 999_999, -999_999];
    for d in deltas {
        ctrl.process_mouse_motion(7_000, d);
        ctrl.update_camera(&mut cam);
        assert!(5_000 <= cam.pitch_mdeg && cam.pitch_mdeg <= 89_000);
    }
}

#[test]
fn mouse_motion_ignored_without_middle_button() {
    let mut ctrl = CameraController::new(2_000, 200);
    let mut cam = OsrsCamera::new(origin());
    ctrl.process_mouse_motion(50_000, 50_000);
    ctrl.update_camera(&mut cam);
    assert_eq!(cam.yaw_mdeg, 0);
    assert_eq!(cam.pitch_mdeg, 50_000);
}

#[test]
fn distance_clamps_at_max() {
    // scrolling down (positive line delta is negated) zooms out
    let mut ctrl = CameraController::new(2_000, 200);
    let mut cam = OsrsCamera::new(origin());
    assert!(ctrl.process_events(&InputEvent::ScrollLines { y_milli: -1_000_000 }));
    ctrl.update_camera(&mut cam);
    assert_eq!(cam.distance_milli, 50_000);
}

#[test]
fn distance_clamps_at_min() {
    let mut ctrl = CameraController::new(2_000, 200);
    let mut cam = OsrsCamera::new(origin());
    assert!(ctrl.process_events(&InputEvent::ScrollLines { y_milli: 1_000_000 }));
    ctrl.update_camera(&mut cam);
    assert_eq!(cam.distance_milli, 2_000);
}

#[test]
fn distance_stays_in_range_over_many_zooms() {
    let mut ctrl = CameraController::new(2_000, 200);
    let mut cam = OsrsCamera::new(origin());
    let deltas: [i64; 5] = [-3_000_000, 2_999_000, -40, 7, 1_000_000];
    for d in deltas {
        assert!(ctrl.process_events(&InputEvent::ScrollLines { y_milli: d }));
        ctrl.update_camera(&mut cam);
        assert!(2_000 <= cam.distance_milli && cam.distance_milli <= 50_000);
    }
}

#[test]
fn zoom_scales_scroll_by_half() {
    // one scroll line up (y = 1 line = 1000 milli-lines) zooms in by half a unit
    let mut ctrl = CameraController::new(2_000, 200);
    let mut cam = OsrsCamera::new(origin());
    assert!(ctrl.process_events(&InputEvent::ScrollLines { y_milli: 1_000 }));
    ctrl.update_camera(&mut cam);
    assert_eq!(cam.distance_milli, 10_000 - 500);
}

#[test]
fn pixel_scroll_counts_a_tenth() {
    let mut ctrl = CameraController::new(2_000, 200);
    assert!(ctrl.process_events(&InputEvent::ScrollPixels { y_milli: 5_000 }));
    assert_eq!(ctrl.zoom_delta_milli, -500);
}

#[test]
fn scroll_deltas_accumulate() {
    let mut ctrl = CameraController::new(2_000, 200);
    assert!(ctrl.process_events(&InputEvent::ScrollLines { y_milli: 1_000 }));
    assert!(ctrl.process_events(&InputEvent::ScrollLines { y_milli: 2_500 }));
    assert_eq!(ctrl.zoom_delta_milli, -3_500);
}

#[test]
fn accumulators_reset_after_update() {
    let mut ctrl = CameraController::new(2_000, 200);
    let mut cam = OsrsCamera::new(origin());
    assert!(ctrl.process_events(&InputEvent::MiddleMouse { pressed: true }));
    ctrl.process_mouse_motion(12_345, -6_789);
    assert!(ctrl.process_events(&InputEvent::ScrollLines { y_milli: 777 }));
    ctrl.update_camera(&mut cam);
    assert_eq!(ctrl.mouse_delta_x_milli, 0);
    assert_eq!(ctrl.mouse_delta_y_milli, 0);
    assert_eq!(ctrl.zoom_delta_milli, 0);
    // held-button state persists past the update
    assert!(ctrl.is_middle_mouse_pressed);
}

#[test]
fn arrow_keys_turn_yaw() {
    let mut ctrl = CameraController::new(2_000, 200);
    let mut cam = OsrsCamera::new(origin());
    assert!(ctrl.process_events(&InputEvent::ArrowLeft { pressed: true }));
    ctrl.update_camera(&mut cam);
    assert_eq!(cam.yaw_mdeg, -2_000);
    assert!(ctrl.process_events(&InputEvent::ArrowLeft { pressed: false }));
    assert!(ctrl.process_events(&InputEvent::ArrowRight { pressed: true }));
    ctrl.update_camera(&mut cam);
    ctrl.update_camera(&mut cam);
    assert_eq!(cam.yaw_mdeg, 2_000);
}

#[test]
fn mouse_drag_turns_yaw_with_sensitivity() {
    let mut ctrl = CameraController::new(2_000, 200);
    let mut cam = OsrsCamera::new(origin());
    assert!(ctrl.process_events(&InputEvent::MiddleMouse { pressed: true }));
    // 10 pixels right at 0.2 degrees per pixel = 2 degrees of yaw
    ctrl.process_mouse_motion(10_000, 0);
    ctrl.update_camera(&mut cam);
    assert_eq!(cam.yaw_mdeg, 2_000);
}

#[test]
fn unconsumed_event_is_reported() {
    let mut ctrl = CameraController::new(2_000, 200);
    assert!(!ctrl.process_events(&InputEvent::Other));
}
