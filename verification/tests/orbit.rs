use orbit_camera::fixed::FRAC_PI_2;
use orbit_camera::orbit::{EulerAngles, PITCH_LIMIT};
use orbit_camera::settings::CameraSettings;
use orbit_camera::vector::{Vector2, Vector3};

fn to_micro(v: f64) -> i64 {
    (v * 1e6).round() as i64
}

/// The line of sight of a camera with the given yaw and pitch and no roll,
/// for a camera that looks down the negative z axis when both are zero.
fn forward(yaw: f64, pitch: f64) -> Vector3 {
    Vector3 {
        x: to_micro(-pitch.cos() * yaw.sin()),
        y: to_micro(pitch.sin()),
        z: to_micro(-pitch.cos() * yaw.cos()),
    }
}

fn norm(v: Vector3) -> f64 {
    let (x, y, z) = (v.x as f64 / 1e6, v.y as f64 / 1e6, v.z as f64 / 1e6);
    (x * x + y * y + z * z).sqrt()
}

#[test]
fn pitch_limit_is_a_hundredth_short_of_a_quarter_turn() {
    assert_eq!(PITCH_LIMIT, FRAC_PI_2 - 10_000);
    assert_eq!(PITCH_LIMIT, ((std::f64::consts::FRAC_PI_2 - 0.01) * 1e6).floor() as i64);
}

#[test]
fn orbit_without_button_changes_nothing() {
    let s = CameraSettings::default();
    let a = EulerAngles { yaw: 1, pitch: 2, roll: 3 };
    assert_eq!(s.orbit(a, Vector2 { x: 100_000_000, y: 100_000_000 }, false), None);
}

#[test]
fn orbit_hundred_pixels_sideways_turns_one_radian() {
    let s = CameraSettings::default();
    let a = EulerAngles { yaw: 0, pitch: 0, roll: 0 };
    let next = s.orbit(a, Vector2 { x: 100_000_000, y: 0 }, true);
    assert_eq!(next, Some(EulerAngles { yaw: 1_000_000, pitch: 0, roll: 0 }));

    // The camera is put back at distance 20 from the origin, along the new
    // line of sight.
    let fw = forward(1.0, 0.0);
    assert!(s.can_place_eye(&fw));
    let eye = s.eye_position(&fw);
    assert_eq!(eye, Vector3 { x: 16_829_420, y: 0, z: 10_806_040 });
    assert!((norm(eye) - 20.0).abs() < 1e-5);
}

#[test]
fn orbit_adds_scaled_motion_to_yaw_and_pitch() {
    let mut s = CameraSettings::default();
    s.yaw_speed = 20_000;
    s.pitch_speed = 5_000;
    let a = EulerAngles { yaw: 500_000, pitch: -250_000, roll: 77 };
    let next = s.orbit(a, Vector2 { x: -10_000_000, y: 30_000_000 }, true);
    // yaw 0.5 - 10 * 0.02 = 0.3, pitch -0.25 + 30 * 0.005 = -0.1
    assert_eq!(next, Some(EulerAngles { yaw: 300_000, pitch: -100_000, roll: 77 }));
}

#[test]
fn orbit_yaw_is_not_bounded() {
    let s = CameraSettings::default();
    let a = EulerAngles { yaw: 3_000_000, pitch: 0, roll: 0 };
    let next = s.orbit(a, Vector2 { x: 1_000_000_000, y: 0 }, true);
    assert_eq!(next, Some(EulerAngles { yaw: 13_000_000, pitch: 0, roll: 0 }));
}

#[test]
fn orbit_clamps_pitch_upward_and_downward() {
    let s = CameraSettings::default();
    let a = EulerAngles { yaw: 0, pitch: 1_500_000, roll: 0 };
    let up = s.orbit(a, Vector2 { x: 0, y: 50_000_000 }, true).unwrap();
    assert_eq!(up.pitch, 1_560_796);
    let down = s.orbit(a, Vector2 { x: 0, y: -500_000_000 }, true).unwrap();
    assert_eq!(down.pitch, -1_560_796);
}

#[test]
fn orbit_pitch_stays_within_limit_over_a_run_of_motions() {
    let s = CameraSettings::default();
    let mut a = EulerAngles { yaw: 0, pitch: 0, roll: 123 };
    let motions = [90_000_000, 90_000_000, -400_000_000, 17, -3, 1_000_000_000_000, -5_000_000];
    for dy in motions {
        let delta = Vector2 { x: dy / 2, y: dy };
        assert!(s.can_orbit(&a, &delta));
        a = s.orbit(a, delta, true).unwrap();
        assert!(-PITCH_LIMIT <= a.pitch && a.pitch <= PITCH_LIMIT);
        assert!((a.pitch as f64) / 1e6 < std::f64::consts::FRAC_PI_2 - 0.01);
        assert!((a.pitch as f64) / 1e6 > -(std::f64::consts::FRAC_PI_2 - 0.01));
        assert_eq!(a.roll, 123);
    }
}

#[test]
fn orbit_extreme_pitch_input_is_clamped_without_overflow() {
    let mut s = CameraSettings::default();
    s.pitch_speed = i64::MAX;
    let a = EulerAngles { yaw: 0, pitch: i64::MAX, roll: 0 };
    let next = s.orbit(a, Vector2 { x: 0, y: i64::MAX }, true).unwrap();
    assert_eq!(next.pitch, PITCH_LIMIT);
    let low = s.orbit(a, Vector2 { x: 0, y: i64::MIN }, true).unwrap();
    assert_eq!(low.pitch, -PITCH_LIMIT);
}

#[test]
fn can_orbit_tells_when_yaw_cannot_be_stored() {
    let s = CameraSettings::default();
    let a = EulerAngles { yaw: i64::MAX, pitch: 0, roll: 0 };
    assert!(!s.can_orbit(&a, &Vector2 { x: 100_000_000, y: 0 }));
    assert!(s.can_orbit(&a, &Vector2 { x: 0, y: 100_000_000 }));
    assert!(s.can_orbit(&a, &Vector2 { x: -100_000_000, y: 0 }));
    let b = EulerAngles { yaw: i64::MIN, pitch: 0, roll: 0 };
    assert!(!s.can_orbit(&b, &Vector2 { x: -100_000_000, y: 0 }));
}

#[test]
fn eye_position_is_focus_less_forward_times_distance() {
    let mut s = CameraSettings::default();
    s.should_focus_at = Vector3 { x: 1_000_000, y: 2_000_000, z: 3_000_000 };
    let fw = Vector3 { x: 0, y: 0, z: -1_000_000 };
    assert_eq!(s.eye_position(&fw), Vector3 { x: 1_000_000, y: 2_000_000, z: 23_000_000 });
    let slant = Vector3 { x: 600_000, y: -800_000, z: 0 };
    assert_eq!(s.eye_position(&slant), Vector3 { x: -11_000_000, y: 18_000_000, z: 3_000_000 });
}

#[test]
fn eye_position_keeps_the_orbit_distance() {
    let mut s = CameraSettings::default();
    s.should_focus_at = Vector3 { x: -4_500_000, y: 250_000, z: 12_000_000 };
    for (yaw, pitch) in [(0.0, 0.0), (1.0, 0.5), (-2.5, -1.2), (3.1, 1.56), (0.3, -0.01)] {
        let fw = forward(yaw, pitch);
        let eye = s.eye_position(&fw);
        let gap = Vector3 {
            x: s.should_focus_at.x - eye.x,
            y: s.should_focus_at.y - eye.y,
            z: s.should_focus_at.z - eye.z,
        };
        assert!((norm(gap) - 20.0).abs() < 1e-4);
    }
}

#[test]
fn can_place_eye_tells_when_the_position_cannot_be_stored() {
    let mut s = CameraSettings::default();
    s.should_focus_at = Vector3 { x: 0, y: 0, z: i64::MAX };
    assert!(!s.can_place_eye(&Vector3 { x: 0, y: 0, z: -1_000_000 }));
    assert!(s.can_place_eye(&Vector3 { x: 0, y: 0, z: 1_000_000 }));
}
