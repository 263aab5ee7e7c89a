use render_demo::state::LoopDirective;
use render_demo::state::RenderRecovery;
use render_demo::state::State;
use render_demo::state::SurfaceErrorKind;
use render_demo::state::WindowEvent;
use render_demo::state::pick_surface_format_index;
use render_demo::camera::KeyCode;

#[test]
fn resize_sets_surface_and_depth_dimensions() {
    let mut s = State::new(450, 400);
    let reconfigured = s.resize(800, 600);
    assert!(reconfigured);
    assert_eq!(s.size.width, 800);
    assert_eq!(s.size.height, 600);
    assert_eq!(s.config.width, 800);
    assert_eq!(s.config.height, 600);
    assert_eq!(s.depth_texture.width, s.config.width);
    assert_eq!(s.depth_texture.height, s.config.height);
}

#[test]
fn zero_area_resize_is_a_noop() {
    let mut s = State::new(450, 400);
    let before_config = s.config;
    let before_depth = s.depth_texture;
    let before_size = s.size;
    assert!(!s.resize(0, 0));
    assert!(!s.resize(0, 600));
    assert!(!s.resize(800, 0));
    assert_eq!(s.config, before_config);
    assert_eq!(s.depth_texture, before_depth);
    assert_eq!(s.size, before_size);
}

#[test]
fn queued_zero_resize_then_real_resize_configures_800_by_600() {
    let mut s = State::new(450, 400);
    let d0 = s.handle_window_event(&WindowEvent::Resized { width: 0, height: 0 });
    assert_eq!(d0, LoopDirective::Continue);
    assert_eq!(s.config.width, 450);
    assert_eq!(s.config.height, 400);
    let d1 = s.handle_window_event(&WindowEvent::Resized { width: 800, height: 600 });
    assert_eq!(d1, LoopDirective::Reconfigure);
    assert_eq!(s.config.width, 800);
    assert_eq!(s.config.height, 600);
    assert_eq!(s.depth_texture.width, 800);
    assert_eq!(s.depth_texture.height, 600);
}

#[test]
fn cursor_at_window_center_gives_half_red_and_green() {
    let mut s = State::new(800, 600);
    let consumed = s.input(&WindowEvent::CursorMoved {
        x: (400.0f64).to_bits(),
        y: (300.0f64).to_bits(),
    });
    assert!(consumed);
    assert!((f64::from_bits(s.bg_color.r) - 0.5).abs() < 1e-12);
    assert!((f64::from_bits(s.bg_color.g) - 0.5).abs() < 1e-12);
    assert_eq!(f64::from_bits(s.bg_color.b), 1.0);
    assert_eq!(f64::from_bits(s.bg_color.a), 1.0);
}

#[test]
fn initial_clear_color_is_opaque_black() {
    let s = State::new(800, 600);
    assert_eq!(f64::from_bits(s.bg_color.r), 0.0);
    assert_eq!(f64::from_bits(s.bg_color.g), 0.0);
    assert_eq!(f64::from_bits(s.bg_color.b), 0.0);
    assert_eq!(f64::from_bits(s.bg_color.a), 1.0);
}

#[test]
fn key_events_toggle_controller_flags_and_are_not_consumed() {
    let mut s = State::new(800, 600);
    let consumed = s.input(&WindowEvent::KeyInput { key: KeyCode::W, pressed: true });
    assert!(!consumed);
    assert!(s.camera_controller.is_forward_pressed);
    let consumed = s.input(&WindowEvent::KeyInput { key: KeyCode::W, pressed: false });
    assert!(!consumed);
    assert!(!s.camera_controller.is_forward_pressed);
}

#[test]
fn close_request_and_escape_press_exit_the_loop() {
    let mut s = State::new(800, 600);
    assert_eq!(s.handle_window_event(&WindowEvent::CloseRequested), LoopDirective::Exit);
    assert_eq!(
        s.handle_window_event(&WindowEvent::KeyInput { key: KeyCode::Escape, pressed: true }),
        LoopDirective::Exit
    );
    assert_eq!(
        s.handle_window_event(&WindowEvent::KeyInput { key: KeyCode::Escape, pressed: false }),
        LoopDirective::Continue
    );
    assert_eq!(s.handle_window_event(&WindowEvent::Other), LoopDirective::Continue);
}

#[test]
fn lost_surface_reconfigures_at_the_current_size() {
    let mut s = State::new(800, 600);
    let r = s.recover_after_render(&SurfaceErrorKind::Lost);
    assert_eq!(r, RenderRecovery::Reconfigure);
    assert_eq!(s.config.width, 800);
    assert_eq!(s.config.height, 600);
    assert_eq!(s.depth_texture.width, 800);
    assert_eq!(s.depth_texture.height, 600);
}

#[test]
fn out_of_memory_exits_and_transient_errors_skip_the_frame() {
    let mut s = State::new(800, 600);
    assert_eq!(s.recover_after_render(&SurfaceErrorKind::OutOfMemory), RenderRecovery::Exit);
    assert_eq!(s.recover_after_render(&SurfaceErrorKind::Outdated), RenderRecovery::SkipFrame);
    assert_eq!(s.recover_after_render(&SurfaceErrorKind::Timeout), RenderRecovery::SkipFrame);
    assert_eq!(s.config.width, 800);
    assert_eq!(s.config.height, 600);
}

#[test]
fn render_plan_reports_clear_color_and_draw_ranges() {
    let s = State::new(800, 600);
    let p = s.render_plan();
    assert_eq!(p.clear_color, s.bg_color);
    assert_eq!(f32::from_bits(p.depth_clear), 1.0);
    assert_eq!(p.num_indices, 9);
    assert_eq!(p.num_instances, 100);
}

#[test]
fn surface_format_picks_first_srgb_else_first() {
    assert_eq!(pick_surface_format_index(&vec![false, true, true]), 1);
    assert_eq!(pick_surface_format_index(&vec![true, false]), 0);
    assert_eq!(pick_surface_format_index(&vec![false, false, false]), 0);
    assert_eq!(pick_surface_format_index(&vec![false]), 0);
}
