use orbit_camera::settings::{CameraSettings, ZoomRange};
use orbit_camera::vector::Vector2;
use orbit_camera::zoom::Projection;

fn scroll(y: i64) -> Vector2 {
    Vector2 { x: 0, y }
}

#[test]
fn orthographic_scroll_up_shrinks_scale() {
    let s = CameraSettings::default();
    let mut p = Projection::Orthographic { scale: 1_000_000 };
    s.zoom(&mut p, scroll(1_000_000));
    // 1 * (1 - 1 * 0.2) = 0.8
    assert_eq!(p, Projection::Orthographic { scale: 800_000 });
}

#[test]
fn orthographic_scroll_down_grows_scale() {
    let s = CameraSettings::default();
    let mut p = Projection::Orthographic { scale: 1_000_000 };
    s.zoom(&mut p, scroll(-1_000_000));
    assert_eq!(p, Projection::Orthographic { scale: 1_200_000 });
}

#[test]
fn orthographic_scale_is_clamped_at_both_ends() {
    let s = CameraSettings::default();
    let mut p = Projection::Orthographic { scale: 100_000 };
    s.zoom(&mut p, scroll(1_000_000));
    assert_eq!(p, Projection::Orthographic { scale: 100_000 });
    let mut q = Projection::Orthographic { scale: 10_000_000 };
    s.zoom(&mut q, scroll(-1_000_000));
    assert_eq!(q, Projection::Orthographic { scale: 10_000_000 });
}

#[test]
fn orthographic_zero_scroll_changes_nothing_in_range() {
    let s = CameraSettings::default();
    let mut p = Projection::Orthographic { scale: 3_333_333 };
    s.zoom(&mut p, scroll(0));
    assert_eq!(p, Projection::Orthographic { scale: 3_333_333 });
}

#[test]
fn orthographic_large_scroll_flips_factor_and_clamps_low() {
    let s = CameraSettings::default();
    let mut p = Projection::Orthographic { scale: 5_000_000 };
    // factor = 1 - 10 * 0.2 = -1
    s.zoom(&mut p, scroll(10_000_000));
    assert_eq!(p, Projection::Orthographic { scale: 100_000 });
}

#[test]
fn orthographic_extreme_inputs_saturate_at_the_range() {
    let mut s = CameraSettings::default();
    s.orthographic_zoom_speed = i64::MAX;
    let mut p = Projection::Orthographic { scale: i64::MAX };
    s.zoom(&mut p, scroll(i64::MIN));
    assert_eq!(p, Projection::Orthographic { scale: 10_000_000 });
    let mut q = Projection::Orthographic { scale: i64::MAX };
    s.zoom(&mut q, scroll(i64::MAX));
    assert_eq!(q, Projection::Orthographic { scale: 100_000 });
    let mut r = Projection::Orthographic { scale: i64::MIN };
    s.zoom(&mut r, scroll(i64::MAX));
    assert_eq!(r, Projection::Orthographic { scale: 10_000_000 });
}

#[test]
fn perspective_scroll_up_narrows_field_of_view() {
    let s = CameraSettings::default();
    let mut p = Projection::Perspective { fov: 1_000_000 };
    s.zoom(&mut p, scroll(1_000_000));
    // 1 - 1 * 0.05 = 0.95
    assert_eq!(p, Projection::Perspective { fov: 950_000 });
}

#[test]
fn perspective_scroll_down_widens_field_of_view() {
    let s = CameraSettings::default();
    let mut p = Projection::Perspective { fov: 1_000_000 };
    s.zoom(&mut p, scroll(-2_000_000));
    assert_eq!(p, Projection::Perspective { fov: 1_100_000 });
}

#[test]
fn perspective_field_of_view_is_clamped_at_both_ends() {
    let s = CameraSettings::default();
    let mut p = Projection::Perspective { fov: 200_000 };
    s.zoom(&mut p, scroll(1_000_000));
    assert_eq!(p, Projection::Perspective { fov: 157_080 });
    let mut q = Projection::Perspective { fov: 2_941_000 };
    s.zoom(&mut q, scroll(-1_000_000));
    assert_eq!(q, Projection::Perspective { fov: 2_941_593 });
}

#[test]
fn perspective_extreme_inputs_saturate_at_the_range() {
    let mut s = CameraSettings::default();
    s.perspective_zoom_speed = i64::MAX;
    let mut p = Projection::Perspective { fov: i64::MIN };
    s.zoom(&mut p, scroll(i64::MAX));
    assert_eq!(p, Projection::Perspective { fov: 157_080 });
    let mut q = Projection::Perspective { fov: i64::MAX };
    s.zoom(&mut q, scroll(i64::MIN));
    assert_eq!(q, Projection::Perspective { fov: 2_941_593 });
}

#[test]
fn horizontal_scroll_is_ignored() {
    let s = CameraSettings::default();
    let mut p = Projection::Perspective { fov: 1_000_000 };
    s.zoom(&mut p, Vector2 { x: 5_000_000, y: 0 });
    assert_eq!(p, Projection::Perspective { fov: 1_000_000 });
    let mut q = Projection::Orthographic { scale: 1_000_000 };
    s.zoom(&mut q, Vector2 { x: -5_000_000, y: 0 });
    assert_eq!(q, Projection::Orthographic { scale: 1_000_000 });
}

#[test]
fn zoom_stays_in_range_over_a_run_of_scrolls() {
    let s = CameraSettings::default();
    let scrolls = [3_000_000, -7_500_000, 250_000, -40_000_000, 40_000_000, 1, -1, 9_999_999];
    let mut o = Projection::Orthographic { scale: 1_000_000 };
    let mut p = Projection::Perspective { fov: 785_398 };
    for y in scrolls {
        s.zoom(&mut o, scroll(y));
        s.zoom(&mut p, scroll(y));
        match o {
            Projection::Orthographic { scale } => assert!(100_000 <= scale && scale <= 10_000_000),
            Projection::Perspective { .. } => panic!("kind changed"),
        }
        match p {
            Projection::Perspective { fov } => assert!(157_080 <= fov && fov <= 2_941_593),
            Projection::Orthographic { .. } => panic!("kind changed"),
        }
    }
}

#[test]
fn positive_scroll_strictly_zooms_in_above_the_lower_end() {
    let s = CameraSettings::default();
    let mut o = Projection::Orthographic { scale: 2_000_000 };
    s.zoom(&mut o, scroll(500_000));
    assert_eq!(o, Projection::Orthographic { scale: 1_800_000 });
    let mut p = Projection::Perspective { fov: 2_000_000 };
    s.zoom(&mut p, scroll(500_000));
    assert_eq!(p, Projection::Perspective { fov: 1_975_000 });
}

#[test]
fn scroll_too_small_to_count_moves_nothing() {
    let s = CameraSettings::default();
    // 0.000004 * 0.2 rounds to zero
    let mut o = Projection::Orthographic { scale: 2_000_000 };
    s.zoom(&mut o, scroll(4));
    assert_eq!(o, Projection::Orthographic { scale: 2_000_000 });
}

#[test]
fn each_kind_ignores_the_settings_of_the_other() {
    let a = CameraSettings::default();
    let mut b = CameraSettings::default();
    b.perspective_zoom_speed = 900_000;
    b.perspective_zoom_range = ZoomRange { start: 1, end: 2 };
    let mut pa = Projection::Orthographic { scale: 4_000_000 };
    let mut pb = Projection::Orthographic { scale: 4_000_000 };
    a.zoom(&mut pa, scroll(1_500_000));
    b.zoom(&mut pb, scroll(1_500_000));
    assert_eq!(pa, pb);
    assert_eq!(pa, Projection::Orthographic { scale: 2_800_000 });

    let mut c = CameraSettings::default();
    c.orthographic_zoom_speed = 900_000;
    c.orthographic_zoom_range = ZoomRange { start: 1, end: 2 };
    let mut qa = Projection::Perspective { fov: 1_000_000 };
    let mut qc = Projection::Perspective { fov: 1_000_000 };
    a.zoom(&mut qa, scroll(1_500_000));
    c.zoom(&mut qc, scroll(1_500_000));
    assert_eq!(qa, qc);
    assert_eq!(qa, Projection::Perspective { fov: 925_000 });
}
