//! Camera pose and projection behaviour, checked against direct `glam`
//! computations on the same bit patterns.

use pbr_spheres::camera::Camera;

fn bits3(v: glam::Vec3) -> [u32; 3] {
    [v.x.to_bits(), v.y.to_bits(), v.z.to_bits()]
}

fn mat_from_bits(m: [u32; 16]) -> glam::Mat4 {
    glam::Mat4::from_cols_array(&m.map(f32::from_bits))
}

fn vec_from_bits(p: [u32; 3]) -> glam::Vec3 {
    glam::Vec3::new(
        f32::from_bits(p[0]),
        f32::from_bits(p[1]),
        f32::from_bits(p[2]),
    )
}

#[test]
fn test_camera_new_defaults() {
    let c = Camera::new(
        bits3(glam::Vec3::new(0.0, 0.0, -50.0)),
        bits3(glam::Vec3::ZERO),
        bits3(glam::Vec3::Y),
    );
    assert_eq!(c.position, bits3(glam::Vec3::new(0.0, 0.0, -50.0)));
    assert_eq!(c.target, bits3(glam::Vec3::ZERO));
    assert_eq!(c.up, bits3(glam::Vec3::Y));
    assert_eq!(c.aspect, (16.0f32 / 9.0f32).to_bits());
    assert_eq!(c.fov, 45.0f32.to_bits());
    assert_eq!(c.near, 0.1f32.to_bits());
    assert_eq!(c.far, 1000.0f32.to_bits());
}

#[test]
fn test_view_matrix_maps_position_to_origin() {
    // For a non-degenerate pose the view transform sends the camera
    // position to the view-space origin and the target onto the negative
    // view-space Z axis (right-handed convention).
    let position = glam::Vec3::new(1.5, 2.0, -3.0);
    let target = glam::Vec3::new(-4.0, 0.5, 6.0);
    let c = Camera::new(bits3(position), bits3(target), bits3(glam::Vec3::Y));
    let view = mat_from_bits(c.view_matrix());

    let p = view.transform_point3(position);
    assert!(p.length() < 1e-4, "camera position must map to the origin, got {p:?}");

    let t = view.transform_point3(target);
    assert!(t.x.abs() < 1e-4, "target must sit on the view Z axis, got {t:?}");
    assert!(t.y.abs() < 1e-4, "target must sit on the view Z axis, got {t:?}");
    assert!(t.z < 0.0, "target must lie on the negative view Z axis, got {t:?}");
}

#[test]
fn test_view_matrix_matches_glam() {
    // The view matrix is exactly glam's right-handed look-at on the same
    // bit patterns; an implementation that handed back its input or the
    // identity would fail.
    let position = glam::Vec3::new(0.0, 0.0, -50.0);
    let target = glam::Vec3::ZERO;
    let c = Camera::new(bits3(position), bits3(target), bits3(glam::Vec3::Y));
    let expected = glam::camera::rh::view::look_at_mat4(position, target, glam::Vec3::Y);
    assert_eq!(
        c.view_matrix(),
        expected.to_cols_array().map(f32::to_bits)
    );
}

#[test]
fn test_move_forward_roundtrip() {
    // Moving forward by d and then by -d restores position and target
    // within floating-point tolerance.
    let position = glam::Vec3::new(3.0, -2.0, 7.5);
    let target = glam::Vec3::new(-1.0, 4.0, -9.0);
    let mut c = Camera::new(bits3(position), bits3(target), bits3(glam::Vec3::Y));
    c.move_forward(2.25f32.to_bits());
    c.move_forward((-2.25f32).to_bits());
    assert!((vec_from_bits(c.position) - position).length() < 1e-4);
    assert!((vec_from_bits(c.target) - target).length() < 1e-4);
}

#[test]
fn test_move_forward_preserves_direction_and_distance() {
    let position = glam::Vec3::new(0.0, 0.0, 0.0);
    let target = glam::Vec3::new(0.0, 0.0, 10.0);
    let mut c = Camera::new(bits3(position), bits3(target), bits3(glam::Vec3::Y));
    c.move_forward(1.0f32.to_bits());
    let p = vec_from_bits(c.position);
    let t = vec_from_bits(c.target);
    assert!((p - glam::Vec3::new(0.0, 0.0, 1.0)).length() < 1e-5);
    assert!((t - glam::Vec3::new(0.0, 0.0, 11.0)).length() < 1e-5);
    assert!(((t - p).length() - 10.0).abs() < 1e-4);
}

#[test]
fn test_move_right_linearity() {
    // Strafing by d1 and then d2 matches one strafe by d1 + d2 within
    // tolerance: the first strafe translates position and target alike,
    // so forward and up stay fixed between the calls.
    let position = glam::Vec3::new(1.0, 2.0, 3.0);
    let target = glam::Vec3::new(-5.0, 0.0, 4.0);
    let up = glam::Vec3::Y;

    let mut a = Camera::new(bits3(position), bits3(target), bits3(up));
    a.move_right(0.75f32.to_bits());
    a.move_right(1.5f32.to_bits());

    let mut b = Camera::new(bits3(position), bits3(target), bits3(up));
    b.move_right((0.75f32 + 1.5f32).to_bits());

    assert!((vec_from_bits(a.position) - vec_from_bits(b.position)).length() < 1e-3);
    assert!((vec_from_bits(a.target) - vec_from_bits(b.target)).length() < 1e-3);
}

#[test]
fn test_move_right_strafe_direction() {
    // The strafe direction is forward cross up, normalized: for a camera
    // looking along +Z with up +Y that is -X, independent of roll.
    let mut c = Camera::new(
        bits3(glam::Vec3::ZERO),
        bits3(glam::Vec3::new(0.0, 0.0, 10.0)),
        bits3(glam::Vec3::Y),
    );
    c.move_right(1.0f32.to_bits());
    let p = vec_from_bits(c.position);
    assert!((p - glam::Vec3::new(-1.0, 0.0, 0.0)).length() < 1e-5);
}

#[test]
fn test_projection_aspect_scaling() {
    // The (0,0) entry of the projection scales inversely with the aspect
    // ratio, all else equal.
    let mut c = Camera::new(
        bits3(glam::Vec3::new(0.0, 0.0, -50.0)),
        bits3(glam::Vec3::ZERO),
        bits3(glam::Vec3::Y),
    );
    c.update_aspect(2.0f32.to_bits());
    let wide = mat_from_bits(c.projection_matrix());
    c.update_aspect(1.0f32.to_bits());
    let square = mat_from_bits(c.projection_matrix());
    let wide00 = wide.col(0).x;
    let square00 = square.col(0).x;
    assert!((wide00 * 2.0 - square00 * 1.0).abs() < 1e-5);
}

#[test]
fn test_resize_scenario() {
    // Start at 1280x720 (the default aspect, sixteen ninths), resize to
    // 800x600: the next projection must reflect four thirds exactly.
    let mut c = Camera::new(
        bits3(glam::Vec3::new(0.0, 0.0, -50.0)),
        bits3(glam::Vec3::ZERO),
        bits3(glam::Vec3::Y),
    );
    assert_eq!(c.aspect, (16.0f32 / 9.0f32).to_bits());

    let aspect = pbr_spheres::frame::resize_aspect(800, 600).unwrap();
    assert_eq!(aspect, (800.0f32 / 600.0f32).to_bits());
    c.update_aspect(aspect);

    let expected = glam::camera::rh::proj::directx::perspective(
        45.0f32.to_radians(),
        800.0f32 / 600.0f32,
        0.1,
        1000.0,
    );
    assert_eq!(
        c.projection_matrix(),
        expected.to_cols_array().map(f32::to_bits)
    );
}
