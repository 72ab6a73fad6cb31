use orbit_cam::controller::CameraController;
use orbit_cam::controller::CursorState;
use orbit_cam::controller::MotionDelta;

const MICRO: f32 = 1.0e-6;

// The host's per-frame transform: the yaw-then-pitch (no roll) rotation
// applied to the vector (0, 0, distance) pointing away from the origin.
fn camera_position(c: &CameraController) -> [f32; 3] {
    let yaw = c.yaw as f32 * MICRO;
    let pitch = c.pitch as f32 * MICRO;
    let d = c.distance as f32 * MICRO;
    [
        d * pitch.cos() * yaw.sin(),
        -d * pitch.sin(),
        d * pitch.cos() * yaw.cos(),
    ]
}

fn norm(v: [f32; 3]) -> f32 {
    (v[0] * v[0] + v[1] * v[1] + v[2] * v[2]).sqrt()
}

// The camera always sits on the orbit sphere: |position - origin| equals
// the controller's distance, up to floating-point tolerance.
#[test]
fn camera_position_lies_on_orbit_sphere() {
    let mut c = CameraController::default();
    let mut cur = CursorState::free();
    assert!((norm(camera_position(&c)) - 5.0).abs() < 1.0e-4);

    let motions = vec![
        MotionDelta { dx: 100, dy: 0 },
        MotionDelta { dx: -37, dy: 250 },
        MotionDelta { dx: 4_000, dy: -4_000 },
    ];
    let scrolls: Vec<i64> = vec![50, -10, 3];
    c.update(&mut cur, true, false, &motions, &scrolls);
    let d = c.distance as f32 * MICRO;
    assert!((norm(camera_position(&c)) - d).abs() < 1.0e-4);
}

// Drag (dx=100, dy=0) from the defaults: the position is recomputed via
// the yaw rotation only, so the height above the orbit plane is
// unchanged and the radius is kept.
#[test]
fn pure_yaw_drag_keeps_height_and_radius() {
    let mut c = CameraController::default();
    let before = camera_position(&c);
    c.apply_motion(true, 100, 0);
    assert_eq!(c.yaw, -200_000);
    let after = camera_position(&c);
    assert!((before[1] - after[1]).abs() < 1.0e-5);
    assert!((norm(after) - 5.0).abs() < 1.0e-4);
    assert!((before[0] - after[0]).abs() > 1.0e-2);
}
