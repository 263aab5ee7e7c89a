use render_demo::camera::Camera;
use render_demo::camera::CameraController;
use render_demo::camera::CameraUniform;
use render_demo::camera::KeyCode;
use render_demo::linalg::Vec3Bits;
use render_demo::state::State;

fn v3(x: f32, y: f32, z: f32) -> Vec3Bits {
    Vec3Bits { x: x.to_bits(), y: y.to_bits(), z: z.to_bits() }
}

fn demo_camera(aspect: f32) -> Camera {
    Camera {
        eye: v3(0.0, 1.0, 2.0),
        target: v3(0.0, 0.0, 0.0),
        up: v3(0.0, 1.0, 0.0),
        aspect: aspect.to_bits(),
        fovy: (45.0f32).to_bits(),
        znear: (0.1f32).to_bits(),
        zfar: (100.0f32).to_bits(),
    }
}

#[test]
fn view_projection_matches_glam_matrices() {
    let camera = demo_camera(800.0 / 600.0);
    let got = camera.build_view_projection_matrix();
    let view = glam::Mat4::look_at_rh(
        glam::Vec3::new(0.0, 1.0, 2.0),
        glam::Vec3::ZERO,
        glam::Vec3::Y,
    );
    let proj = glam::Mat4::perspective_rh((45.0f32).to_radians(), 800.0 / 600.0, 0.1, 100.0);
    let expected = (proj * view).to_cols_array();
    for i in 0..16 {
        assert_eq!(got.m[i], expected[i].to_bits());
    }
}

#[test]
fn update_view_proj_is_bit_for_bit_reproducible() {
    let camera = demo_camera(800.0 / 600.0);
    let mut a = CameraUniform::new();
    let mut b = CameraUniform::new();
    a.update_view_proj(&camera);
    b.update_view_proj(&camera);
    assert_eq!(a.view_proj.m, b.view_proj.m);
}

#[test]
fn fresh_uniform_holds_the_identity_matrix() {
    let u = CameraUniform::new();
    let expected = glam::Mat4::IDENTITY.to_cols_array();
    for i in 0..16 {
        assert_eq!(u.view_proj.m[i], expected[i].to_bits());
    }
}

#[test]
fn initial_state_camera_uniform_matches_its_camera() {
    let s = State::new(800, 600);
    let expected = demo_camera(800.0f32 / 600.0f32).build_view_projection_matrix();
    assert_eq!(s.camera_uniform.view_proj.m, expected.m);
}

#[test]
fn forward_step_matches_the_glam_formula() {
    let mut controller = CameraController::new((0.2f32).to_bits());
    controller.process_key(KeyCode::W, true);
    let mut camera = demo_camera(2.0);
    controller.update_camera(&mut camera);
    let eye = glam::Vec3::new(0.0, 1.0, 2.0);
    let target = glam::Vec3::ZERO;
    let forward = target - eye;
    let expected = eye + forward.normalize() * 0.2;
    assert_eq!(camera.eye.x, expected.x.to_bits());
    assert_eq!(camera.eye.y, expected.y.to_bits());
    assert_eq!(camera.eye.z, expected.z.to_bits());
}

#[test]
fn forward_press_at_minimum_distance_does_not_move_the_eye() {
    // The eye is sqrt(5) from the target; a speed of 5.0 exceeds it, so the
    // guarded forward step must not fire.
    let mut controller = CameraController::new((5.0f32).to_bits());
    controller.process_key(KeyCode::Up, true);
    let mut camera = demo_camera(2.0);
    let before = camera.eye;
    controller.update_camera(&mut camera);
    assert_eq!(camera.eye, before);
}

#[test]
fn forward_steps_never_cross_the_target() {
    // Repeated forward presses keep the eye at least one step from the target.
    let mut controller = CameraController::new((0.2f32).to_bits());
    controller.process_key(KeyCode::W, true);
    let mut camera = demo_camera(2.0);
    for _ in 0..200 {
        controller.update_camera(&mut camera);
        let eye = glam::Vec3::new(
            f32::from_bits(camera.eye.x),
            f32::from_bits(camera.eye.y),
            f32::from_bits(camera.eye.z),
        );
        assert!(eye.length() > 0.0);
    }
}

#[test]
fn strafe_step_matches_the_glam_formula() {
    let mut controller = CameraController::new((0.2f32).to_bits());
    controller.process_key(KeyCode::D, true);
    let mut camera = demo_camera(2.0);
    controller.update_camera(&mut camera);
    let eye = glam::Vec3::new(0.0, 1.0, 2.0);
    let target = glam::Vec3::ZERO;
    let forward_norm = (target - eye).normalize();
    let right = forward_norm.cross(glam::Vec3::Y);
    let forward = target - eye;
    let mag = forward.length();
    let expected = target - (forward + right * 0.2).normalize() * mag;
    assert_eq!(camera.eye.x, expected.x.to_bits());
    assert_eq!(camera.eye.y, expected.y.to_bits());
    assert_eq!(camera.eye.z, expected.z.to_bits());
}

#[test]
fn both_key_sets_map_to_the_same_flags() {
    let mut c = CameraController::new((0.2f32).to_bits());
    assert!(c.process_key(KeyCode::W, true));
    assert!(c.process_key(KeyCode::A, true));
    assert!(c.process_key(KeyCode::S, true));
    assert!(c.process_key(KeyCode::D, true));
    assert!(c.is_forward_pressed && c.is_left_pressed && c.is_backward_pressed && c.is_right_pressed);
    let mut c2 = CameraController::new((0.2f32).to_bits());
    assert!(c2.process_key(KeyCode::Up, true));
    assert!(c2.process_key(KeyCode::Left, true));
    assert!(c2.process_key(KeyCode::Down, true));
    assert!(c2.process_key(KeyCode::Right, true));
    assert_eq!(c, c2);
    assert!(!c.process_key(KeyCode::Escape, true));
}
