use sphere_viewer::controller::{
    dolly_applies, CameraCommand, CameraController, CaptureChange, PointerButton, SessionKind,
};
use sphere_viewer::tracker::{MouseMovementTracker, PixelVec, PointerMove};

fn moved(dx: i32, dy: i32) -> PointerMove {
    PointerMove {
        offset: PixelVec { x: 0, y: 0 },
        delta: PixelVec { x: dx, y: dy },
        ctrl_key: false,
        shift_key: false,
        alt_key: false,
        meta_key: false,
    }
}

fn at(x: i32, y: i32, dx: i32, dy: i32) -> PointerMove {
    PointerMove {
        offset: PixelVec { x, y },
        delta: PixelVec { x: dx, y: dy },
        ctrl_key: false,
        shift_key: false,
        alt_key: false,
        meta_key: false,
    }
}

#[test]
fn locked_tracker_sums_deltas() {
    let mut t = MouseMovementTracker::pointer_locked();
    assert!(t.holds_pointer_lock());
    for e in [moved(3, -4), moved(10, 2), moved(-1, -1)] {
        assert!(t.can_record(&e));
        t.record(&e);
    }
    assert_eq!(t.movement(), PixelVec { x: 12, y: -3 });
}

#[test]
fn locked_tracker_returns_to_zero() {
    let mut t = MouseMovementTracker::pointer_locked();
    t.record(&moved(7, 9));
    t.record(&moved(-7, -9));
    assert_eq!(t.movement(), PixelVec { x: 0, y: 0 });
}

#[test]
fn free_tracker_reports_offsets_from_origin() {
    let mut t = MouseMovementTracker::new();
    assert!(!t.holds_pointer_lock());
    // First event: offset (100, 50) after a move of (5, 5): origin (95, 45).
    t.record(&at(100, 50, 5, 5));
    assert_eq!(t.movement(), PixelVec { x: 5, y: 5 });
    // Later offsets are taken relative to that origin; deltas are ignored.
    t.record(&at(90, 60, 99, 99));
    assert_eq!(t.movement(), PixelVec { x: -5, y: 15 });
}

#[test]
fn tracker_keeps_latest_modifiers() {
    let mut t = MouseMovementTracker::pointer_locked();
    let mut e = moved(1, 1);
    e.ctrl_key = true;
    e.alt_key = true;
    t.record(&e);
    assert!(t.ctrl_key() && t.alt_key());
    assert!(!t.shift_key() && !t.meta_key());
    let mut e = moved(1, 1);
    e.shift_key = true;
    e.meta_key = true;
    t.record(&e);
    assert!(!t.ctrl_key() && !t.alt_key());
    assert!(t.shift_key() && t.meta_key());
}

#[test]
fn tracker_refuses_overflow() {
    let mut t = MouseMovementTracker::pointer_locked();
    t.record(&moved(i32::MAX, 0));
    assert!(!t.can_record(&moved(1, 0)));
    assert!(t.can_record(&moved(-1, 0)));
    let f = MouseMovementTracker::new();
    assert!(!f.can_record(&at(i32::MIN, 0, 1, 0)));
}

#[test]
fn controller_starts_idle() {
    let c = CameraController::init((1, 2));
    assert!(c.session().is_none());
    assert_eq!(c.wheel_delta(), 0);
    assert_eq!(c.transform(), (1, 2));
}

#[test]
fn secondary_button_starts_orbit() {
    let mut c = CameraController::init(7u8);
    let change = c.pointer_down(PointerButton::Secondary);
    assert_eq!(change, CaptureChange { released: false, acquired: true });
    let s = c.session().as_ref().unwrap();
    assert_eq!(s.kind(), SessionKind::Orbit);
    assert_eq!(s.initial(), 7u8);
    assert!(s.tracker().holds_pointer_lock());
}

#[test]
fn auxiliary_button_starts_sidle() {
    let mut c = CameraController::init(7u8);
    let change = c.pointer_down(PointerButton::Auxiliary);
    assert_eq!(change, CaptureChange { released: false, acquired: true });
    assert_eq!(c.session().as_ref().unwrap().kind(), SessionKind::Sidle);
}

#[test]
fn other_buttons_change_nothing() {
    let mut c = CameraController::init(7u8);
    for b in [PointerButton::Primary, PointerButton::Other] {
        assert_eq!(c.pointer_down(b), CaptureChange { released: false, acquired: false });
        assert!(c.session().is_none());
    }
    c.pointer_down(PointerButton::Secondary);
    assert_eq!(
        c.pointer_down(PointerButton::Primary),
        CaptureChange { released: false, acquired: false }
    );
    assert_eq!(c.session().as_ref().unwrap().kind(), SessionKind::Orbit);
}

#[test]
fn new_gesture_during_session_has_no_effect() {
    let mut c = CameraController::init(0u8);
    c.pointer_down(PointerButton::Secondary);
    c.pointer_move(&moved(40, 0));
    c.set_transform(3);
    c.wheel(20);
    for b in [PointerButton::Auxiliary, PointerButton::Secondary] {
        let change = c.pointer_down(b);
        assert_eq!(change, CaptureChange { released: false, acquired: false });
        let s = c.session().as_ref().unwrap();
        assert_eq!(s.kind(), SessionKind::Orbit);
        assert_eq!(s.initial(), 0u8);
        assert_eq!(s.tracker().movement(), PixelVec { x: 40, y: 0 });
    }
    assert_eq!(c.transform(), 3);
    assert_eq!(c.wheel_delta(), 20);
    // Once the gesture ends, a new one can start.
    c.pointer_up();
    assert_eq!(
        c.pointer_down(PointerButton::Auxiliary),
        CaptureChange { released: false, acquired: true }
    );
    assert_eq!(c.session().as_ref().unwrap().kind(), SessionKind::Sidle);
}

#[test]
fn pointer_up_releases_capture_once() {
    let mut c = CameraController::init(0u8);
    c.pointer_down(PointerButton::Secondary);
    assert_eq!(c.pointer_up(), CaptureChange { released: true, acquired: false });
    assert!(c.session().is_none());
    assert_eq!(c.pointer_up(), CaptureChange { released: false, acquired: false });
}

#[test]
fn orbit_angles_follow_movement() {
    let mut c = CameraController::init((3, 4));
    c.pointer_down(PointerButton::Secondary);
    c.pointer_move(&moved(200, -100));
    c.pointer_move(&moved(200, 0));
    assert_eq!(
        c.update_camera(),
        CameraCommand::Orbit { initial: (3, 4), yaw: -400, pitch: 100 }
    );
}

#[test]
fn session_update_is_repeatable() {
    let mut c = CameraController::init(5i32);
    c.pointer_down(PointerButton::Secondary);
    c.pointer_move(&moved(13, 21));
    c.wheel(500);
    let first = c.update_camera();
    assert_eq!(c.wheel_delta(), 0);
    let second = c.update_camera();
    assert_eq!(first, second);
    assert_eq!(c.wheel_delta(), 0);
}

#[test]
fn wheel_during_session_is_consumed() {
    let mut c = CameraController::init(4i32);
    c.pointer_down(PointerButton::Auxiliary);
    c.wheel(750);
    c.update_camera();
    assert_eq!(c.wheel_delta(), 0);
    c.pointer_up();
    assert_eq!(c.update_camera(), CameraCommand::Dolly { from: 4, wheel_delta: 0 });
}

#[test]
fn new_session_starts_without_movement() {
    let mut c = CameraController::init(0i32);
    c.pointer_down(PointerButton::Secondary);
    let t = c.session().as_ref().unwrap().tracker();
    assert_eq!(t.movement(), PixelVec { x: 0, y: 0 });
    assert!(t.holds_pointer_lock());
}

#[test]
fn still_orbit_commands_identity() {
    let mut c = CameraController::init(9i32);
    c.pointer_down(PointerButton::Secondary);
    c.pointer_move(&moved(30, -12));
    c.pointer_move(&moved(-30, 12));
    assert_eq!(c.update_camera(), CameraCommand::Orbit { initial: 9, yaw: 0, pitch: 0 });
}

#[test]
fn sidle_moves_along_up_and_right_only() {
    let mut c = CameraController::init(1i32);
    c.pointer_down(PointerButton::Auxiliary);
    c.pointer_move(&moved(80, 160));
    assert_eq!(c.update_camera(), CameraCommand::Sidle { initial: 1, up: 160, right: -80 });
}

#[test]
fn idle_update_dollies_and_consumes_wheel() {
    let mut c = CameraController::init(2i32);
    c.wheel(1500);
    c.wheel(-250);
    assert_eq!(c.wheel_delta(), 1250);
    assert_eq!(c.update_camera(), CameraCommand::Dolly { from: 2, wheel_delta: 1250 });
    assert_eq!(c.wheel_delta(), 0);
    assert_eq!(c.update_camera(), CameraCommand::Dolly { from: 2, wheel_delta: 0 });
}

#[test]
fn wheel_saturates() {
    let mut c = CameraController::init(0i32);
    c.wheel(i64::MAX);
    c.wheel(10);
    assert_eq!(c.wheel_delta(), i64::MAX);
    let mut c = CameraController::init(0i32);
    c.wheel(i64::MIN);
    c.wheel(-10);
    assert_eq!(c.wheel_delta(), i64::MIN);
}

#[test]
fn set_transform_is_snapshotted_by_next_session() {
    let mut c = CameraController::init(1i32);
    c.set_transform(8);
    c.pointer_down(PointerButton::Auxiliary);
    c.set_transform(9);
    assert_eq!(c.session().as_ref().unwrap().initial(), 8);
    assert_eq!(c.transform(), 9);
}

#[test]
fn dolly_clamp() {
    // Toward the orbit point, but at least as far as it: blocked.
    assert!(!dolly_applies(5000, false));
    // Toward the orbit point and shorter than the distance: taken.
    assert!(dolly_applies(5000, true));
    // Away from the orbit point: always taken.
    assert!(dolly_applies(-5000, false));
    assert!(dolly_applies(-5000, true));
}

#[test]
fn move_without_session_is_ignored() {
    let mut c = CameraController::init(0i32);
    assert!(c.accepts_move(&moved(i32::MAX, i32::MAX)));
    c.pointer_move(&moved(5, 5));
    assert!(c.session().is_none());
}
