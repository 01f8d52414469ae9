use wirecube::fixed::{fx_mul, fx_unscale, FX_ONE};
use wirecube::geometry::{calculate_vertices, Projection, Rotation, Vec3};

fn fx(v: f64) -> i64 {
    (v * FX_ONE as f64) as i64
}

fn rotation_of(angle: f64) -> Rotation {
    Rotation::new(fx(angle.sin()), fx(angle.cos()))
}

fn cube_points() -> Vec<Vec3> {
    let h = FX_ONE / 2;
    vec![
        Vec3::new(-h, -h, -h),
        Vec3::new(h, -h, -h),
        Vec3::new(h, h, -h),
        Vec3::new(-h, h, -h),
        Vec3::new(-h, -h, h),
        Vec3::new(h, -h, h),
        Vec3::new(h, h, h),
        Vec3::new(-h, h, h),
    ]
}

#[test]
fn corner_pixel_at_angle_zero() {
    let points = cube_points();
    let m = Projection::identity();
    let rot = Rotation::zero();
    let r = calculate_vertices(&points, &m, &rot, 60, (64, 64));
    // -0.5 * 60 + 64 = 34 on both axes for the first corner.
    assert_eq!(r[0], (34, 34));
    // +0.5 * 60 + 64 = 94 where a coordinate is positive.
    assert_eq!(r[1], (94, 34));
    assert_eq!(r[2], (94, 94));
    assert_eq!(r[3], (34, 94));
}

#[test]
fn corner_pixel_on_the_panel_profile() {
    // The panel profile differs only in scale and centering: scale 40,
    // center at half the panel width and height.
    let points = cube_points();
    let m = Projection::identity();
    let rot = Rotation::zero();
    let r = calculate_vertices(&points, &m, &rot, 40, (80, 40));
    assert_eq!(r[0], (60, 20));
    assert_eq!(r[6], (100, 60));
}

#[test]
fn output_length_equals_input_length() {
    let points = cube_points();
    let m = Projection::identity();
    for k in 0..50u32 {
        let rot = rotation_of(k as f64 * 0.05);
        let r = calculate_vertices(&points, &m, &rot, 60, (64, 64));
        assert_eq!(r.len(), points.len());
        assert_eq!(r.len(), 8);
    }
}

#[test]
fn output_length_for_shorter_input() {
    let points = vec![Vec3::new(0, 0, 0), Vec3::new(FX_ONE / 2, 0, 0)];
    let m = Projection::identity();
    let rot = rotation_of(1.3);
    let r = calculate_vertices(&points, &m, &rot, 40, (80, 80));
    assert_eq!(r.len(), 2);
}

#[test]
fn transformer_is_deterministic() {
    let points = cube_points();
    let m = Projection::identity();
    let rot = rotation_of(2.35);
    let a = calculate_vertices(&points, &m, &rot, 60, (64, 64));
    let b = calculate_vertices(&points, &m, &rot, 60, (64, 64));
    assert_eq!(a, b);
}

#[test]
fn small_angle_step_moves_pixels_little() {
    let points = cube_points();
    let m = Projection::identity();
    for k in 0..200u32 {
        let a0 = k as f64 * 0.05;
        let r0 = calculate_vertices(&points, &m, &rotation_of(a0), 60, (64, 64));
        let r1 = calculate_vertices(&points, &m, &rotation_of(a0 + 0.05), 60, (64, 64));
        for i in 0..8 {
            let dx = (r0[i].0 - r1[i].0).abs();
            let dy = (r0[i].1 - r1[i].1).abs();
            assert!(dx <= 16, "x jump of {} at step {}", dx, k);
            assert!(dy <= 16, "y jump of {} at step {}", dy, k);
        }
    }
}

#[test]
fn quarter_turn_about_z() {
    // A quarter turn about Z alone sends (1, 0, 0) to (0, 1, 0).
    let points = vec![Vec3::new(FX_ONE, 0, 0)];
    let m = Projection::identity();
    // With sine 1 and cosine 0, both X applications fix (1, 0, 0), the Z
    // rotation sends it to (0, 1, 0), and the Y rotation fixes that point.
    let rot = Rotation::new(FX_ONE, 0);
    let r = calculate_vertices(&points, &m, &rot, 1, (0, 0));
    assert_eq!(r[0], (0, 1));
}

#[test]
fn fixed_point_product_truncates_toward_zero() {
    // 2.0 * 0.5 == 1.0
    assert_eq!(fx_mul(2 * FX_ONE, FX_ONE / 2), FX_ONE);
    // -1.5 * 0.5 == -0.75
    assert_eq!(fx_mul(-3 * FX_ONE / 2, FX_ONE / 2), -3 * FX_ONE / 4);
    // Truncation is toward zero, not downward: -1.000015... becomes -1.
    assert_eq!(fx_unscale(-(FX_ONE + 1)), -1);
    assert_eq!(fx_unscale(FX_ONE + 1), 1);
}
