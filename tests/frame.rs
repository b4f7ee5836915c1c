use shadow_render::camera::{Camera, CameraController, Key};
use shadow_render::frame::{
    on_surface_error, on_window_event, FrameState, LoopAction, SurfaceFault, WindowInput,
};
use shadow_render::ui::RenderTarget;

fn state() -> FrameState {
    FrameState::new(800, 600, Camera::new(45_000, 800, 600, 45), CameraController::new(2000))
}

#[test]
fn surface_error_policy() {
    assert_eq!(on_surface_error(SurfaceFault::Lost), LoopAction::Reconfigure);
    assert_eq!(on_surface_error(SurfaceFault::OutOfMemory), LoopAction::Exit);
    assert_eq!(on_surface_error(SurfaceFault::Outdated), LoopAction::Skip);
    assert_eq!(on_surface_error(SurfaceFault::Timeout), LoopAction::Skip);
}

#[test]
fn window_event_policy() {
    assert_eq!(on_window_event(false, WindowInput::CloseRequested), LoopAction::Exit);
    assert_eq!(on_window_event(false, WindowInput::EscapePressed), LoopAction::Exit);
    assert_eq!(on_window_event(true, WindowInput::EscapePressed), LoopAction::Continue);
    assert_eq!(on_window_event(false, WindowInput::Resized(3, 4)), LoopAction::Resize(3, 4));
    assert_eq!(on_window_event(false, WindowInput::ScaleFactorChanged(5, 6)), LoopAction::Resize(5, 6));
    assert_eq!(on_window_event(false, WindowInput::Other), LoopAction::Continue);
}

#[test]
fn lights_upload_once() {
    let mut s = state();
    assert!(s.begin_render());
    assert!(!s.begin_render());
    s.mark_lights_dirty();
    assert!(s.begin_render());
    assert!(!s.lights_are_dirty);
}

#[test]
fn zero_size_is_ignored() {
    let mut s = state();
    let before = s;
    assert!(!s.resize(0, 600));
    assert!(!s.resize(800, 0));
    assert_eq!(s, before);
    assert!(s.resize(1024, 768));
    assert_eq!((s.width, s.height), (1024, 768));
    assert_eq!((s.camera.aspect_width, s.camera.aspect_height), (1024, 768));
    assert_eq!(s.camera.yaw, before.camera.yaw);
}

#[test]
fn update_drives_the_camera() {
    let mut s = state();
    s.camera_controller.process_event(Key::S, true);
    s.camera_controller.process_mouse_event(Some((10, 0)));
    let m = s.update();
    assert!(m.target_changed);
    assert_eq!(m.steps, 1);
    assert_eq!(s.camera.yaw, 65_000);
}

#[test]
fn render_target_selection() {
    let mut s = state();
    assert_eq!(s.render_target, RenderTarget::Default);
    assert_eq!(s.render_target_index(), 0);
    s.select_target(true, 2);
    assert_eq!(s.render_target, RenderTarget::ShadowTexture);
    s.select_target(false, 1);
    assert_eq!(s.render_target, RenderTarget::ShadowTexture);
    s.select_target(true, 9);
    assert_eq!(s.render_target, RenderTarget::ShadowTexture);
    s.select_target(true, 3);
    assert_eq!(s.render_target_index(), 3);
}

#[test]
fn target_indices_round_trip() {
    for i in 0..4u32 {
        assert_eq!(RenderTarget::from_index(i).unwrap().index(), i);
    }
    assert_eq!(RenderTarget::from_index(4), None);
    assert_eq!(RenderTarget::DepthTexture.index(), 1);
    assert_eq!(RenderTarget::NoShadows.select(true, 1), RenderTarget::DepthTexture);
}
