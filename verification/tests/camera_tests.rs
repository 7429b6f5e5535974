use quadpaint::camera::{
    Camera, CameraCommand, MAX_ZOOM_LEVEL, MICRO, MIN_ZOOM_LEVEL, PAN_SPEED, ROTATION_SPEED,
    ZOOM_SPEED,
};
use quadpaint::events::{Event, KeyPressedEvent, MouseMovedEvent, KEY_Q, KEY_S, KEY_TAB};
use quadpaint::events::Action;

#[test]
fn new_camera_starts_above_canvas() {
    let c = Camera::New(0);
    assert_eq!(c.Position.x, 0);
    assert_eq!(c.Position.y, 0);
    assert_eq!(c.Position.z, MICRO + MIN_ZOOM_LEVEL);
    assert_eq!(c.Rotation, 0);
    assert_eq!(c.ZNear, MIN_ZOOM_LEVEL);
    assert_eq!(c.ZFar, MAX_ZOOM_LEVEL);
}

#[test]
fn zoom_depth_stays_within_bounds() {
    let mut c = Camera::New(0);
    // Zooming out far past the limit pins the depth to the upper bound.
    for _ in 0..100 {
        c.Zoom(ZOOM_SPEED);
        assert!(c.Position.z >= MIN_ZOOM_LEVEL);
        assert!(c.Position.z <= MAX_ZOOM_LEVEL);
    }
    assert_eq!(c.Position.z, MAX_ZOOM_LEVEL);
    // Zooming in far past the limit pins it to the lower bound.
    for _ in 0..200 {
        c.Zoom(-ZOOM_SPEED);
        assert!(c.Position.z >= MIN_ZOOM_LEVEL);
        assert!(c.Position.z <= MAX_ZOOM_LEVEL);
    }
    assert_eq!(c.Position.z, MIN_ZOOM_LEVEL);
}

#[test]
fn zoom_is_exactly_the_clamped_sum() {
    let mut c = Camera::New(0);
    c.Zoom(500_000);
    assert_eq!(c.Position.z, MICRO + MIN_ZOOM_LEVEL + 500_000);
    c.Zoom(i64::MAX);
    assert_eq!(c.Position.z, MAX_ZOOM_LEVEL);
    c.Zoom(i64::MIN);
    assert_eq!(c.Position.z, MIN_ZOOM_LEVEL);
}

#[test]
fn rotate_round_trip_restores_the_camera() {
    let mut c = Camera::New(7);
    c.Pan(123, -456);
    let before = c;
    c.Rotate(ROTATION_SPEED);
    assert_eq!(c.Rotation, ROTATION_SPEED);
    c.Rotate(-ROTATION_SPEED);
    // The whole parameter set — and with it the up/right basis, a function
    // of the accumulated angle — is restored exactly.
    assert_eq!(c, before);
}

#[test]
fn pan_moves_on_the_canvas_plane() {
    let mut c = Camera::New(0);
    let z = c.Position.z;
    c.Apply(CameraCommand::PanUp);
    c.Apply(CameraCommand::PanRight);
    assert_eq!(c.Position.x, PAN_SPEED);
    assert_eq!(c.Position.y, PAN_SPEED);
    assert_eq!(c.Position.z, z);
}

#[test]
fn key_events_drive_the_camera() {
    let mut c = Camera::New(0);
    let y0 = c.Position.y;
    c.OnEvent(&Event::KeyPressed(KeyPressedEvent {
        Key: KEY_S,
        Action: Action::Press,
        Mods: 0,
    }));
    assert_eq!(c.Position.y, y0 + PAN_SPEED);
    let z1 = c.Position.z;
    c.OnEvent(&Event::KeyPressed(KeyPressedEvent {
        Key: KEY_Q,
        Action: Action::Press,
        Mods: 0,
    }));
    assert_eq!(c.Position.z, z1 + ZOOM_SPEED);
    c.OnEvent(&Event::KeyPressed(KeyPressedEvent {
        Key: KEY_TAB,
        Action: Action::Press,
        Mods: 0,
    }));
    assert_eq!(c.Position.z, z1);
    // An unbound key and a non-key event leave the camera alone.
    let before = c;
    c.OnEvent(&Event::KeyPressed(KeyPressedEvent {
        Key: 65_000,
        Action: Action::Press,
        Mods: 0,
    }));
    c.OnEvent(&Event::MouseMoved(MouseMovedEvent { X: 5, Y: 5 }));
    assert_eq!(c, before);
}

#[test]
fn view_params_target_the_canvas_plane() {
    let mut c = Camera::New(0);
    c.Pan(1000, 2000);
    c.Rotate(42);
    let v = c.GetViewMatrix();
    assert_eq!(v.eye, c.Position);
    assert_eq!(v.target.x, c.Position.x);
    assert_eq!(v.target.y, c.Position.y);
    assert_eq!(v.target.z, 0);
    assert_eq!(v.rotation, 42);
    let p = c.GetProjectionMatrix();
    assert_eq!(p.znear, MIN_ZOOM_LEVEL);
    assert_eq!(p.zfar, MAX_ZOOM_LEVEL);
    assert_eq!(p.aspect, MICRO);
}

#[test]
fn pan_saturates_at_the_integer_bounds() {
    let mut c = Camera::New(0);
    c.Pan(i64::MAX, 0);
    c.Pan(i64::MAX, 0);
    assert_eq!(c.Position.x, i64::MAX);
    c.Pan(i64::MIN, 0);
    c.Pan(i64::MIN, 0);
    c.Pan(i64::MIN, 0);
    assert_eq!(c.Position.x, i64::MIN);
}
