use headless_window::{
    AnimationState, DevicePoint, DeviceSize, EmbedderEvent, LogicalPoint, LogicalSize, PixelRatio,
    ResizeAction, Rotation, Vector3, Window,
};

fn device(width: i32, height: i32) -> DeviceSize {
    DeviceSize { width, height }
}

fn logical(width: i32, height: i32) -> LogicalSize {
    LogicalSize { width, height }
}

fn ratio(numer: u32, denom: u32) -> PixelRatio {
    PixelRatio { numer, denom }
}

#[test]
fn construct_without_ratio_override() {
    let mut w = Window::new(logical(800, 600), None, None);
    let c = w.get_coordinates();
    assert_eq!(c.framebuffer, device(800, 600));
    assert_eq!(c.viewport.origin, DevicePoint { x: 0, y: 0 });
    assert_eq!(c.viewport.size, device(800, 600));
    assert_eq!(c.window_rect.origin, LogicalPoint { x: 0, y: 0 });
    assert_eq!(c.window_rect.size, logical(800, 600));
    assert_eq!(c.screen_size, logical(800, 600));
    assert_eq!(c.available_screen_size, logical(800, 600));
    assert_eq!(c.hidpi_factor, ratio(1, 1));
    assert!(!w.get_fullscreen());
    assert!(!w.is_animating());
    assert!(w.get_events().is_empty());
}

#[test]
fn construct_with_ratio_override() {
    let w = Window::new(logical(400, 300), Some(ratio(2, 1)), None);
    assert_eq!(w.get_coordinates().framebuffer, device(800, 600));
    assert_eq!(w.get_coordinates().viewport.size, device(800, 600));
}

#[test]
fn construct_rounds_half_up() {
    let w = Window::try_new(logical(333, 100), Some(ratio(3, 2)), None).unwrap();
    assert_eq!(w.get_coordinates().framebuffer, device(500, 150));
}

#[test]
fn construct_with_fractional_ratio() {
    let w = Window::try_new(logical(3, 5), Some(ratio(1, 2)), None).unwrap();
    assert_eq!(w.get_coordinates().framebuffer, device(2, 3));
}

#[test]
fn construct_refuses_oversized_scale() {
    assert!(Window::try_new(logical(i32::MAX, 10), Some(ratio(2, 1)), None).is_none());
}

#[test]
fn construct_refuses_vanishing_scale() {
    assert!(Window::try_new(logical(1, 1), Some(ratio(1, 3)), None).is_none());
}

#[test]
fn screen_size_override_wins() {
    let w = Window::new(logical(800, 600), None, Some(logical(1920, 1080)));
    let c = w.get_coordinates();
    assert_eq!(c.screen_size, logical(1920, 1080));
    assert_eq!(c.available_screen_size, logical(1920, 1080));
    assert_eq!(c.window_rect.size, logical(800, 600));
}

#[test]
fn resize_clamps_zero_and_negative() {
    let w = Window::new(logical(800, 600), None, None);
    assert_eq!(
        w.request_inner_size(device(0, 0)),
        ResizeAction::ResizeSurface(device(1, 1))
    );
    assert_eq!(
        w.request_inner_size(device(-5, -7)),
        ResizeAction::ResizeSurface(device(1, 1))
    );
    assert_eq!(
        w.request_inner_size(device(-3, 200)),
        ResizeAction::ResizeSurface(device(1, 200))
    );
}

#[test]
fn resize_same_size_is_noop() {
    let mut w = Window::new(logical(800, 600), None, None);
    assert_eq!(
        w.request_inner_size(device(800, 600)),
        ResizeAction::Unchanged(device(800, 600))
    );
    assert!(w.get_events().is_empty());
    assert_eq!(w.get_coordinates().framebuffer, device(800, 600));
}

#[test]
fn resize_success_updates_and_enqueues_once() {
    let mut w = Window::new(logical(800, 600), None, None);
    let action = w.request_inner_size(device(0, 0));
    assert_eq!(action, ResizeAction::ResizeSurface(device(1, 1)));
    let got = w.complete_resize(device(1, 1), true);
    assert_eq!(got, Some(device(1, 1)));
    assert_eq!(w.get_coordinates().framebuffer, device(1, 1));
    assert_eq!(w.get_coordinates().viewport.size, device(1, 1));
    let first = w.get_events();
    assert_eq!(first, vec![EmbedderEvent::WindowResize]);
    let second = w.get_events();
    assert!(second.is_empty());
}

#[test]
fn resize_failure_changes_nothing() {
    let mut w = Window::new(logical(800, 600), None, None);
    let got = w.complete_resize(device(10, 10), false);
    assert_eq!(got, None);
    assert_eq!(w.get_coordinates().framebuffer, device(800, 600));
    assert!(w.get_events().is_empty());
}

#[test]
fn resize_twice_second_is_noop() {
    let mut w = Window::new(logical(800, 600), None, None);
    let action = w.request_inner_size(device(640, 480));
    assert_eq!(action, ResizeAction::ResizeSurface(device(640, 480)));
    assert_eq!(w.complete_resize(device(640, 480), true), Some(device(640, 480)));
    assert_eq!(
        w.request_inner_size(device(640, 480)),
        ResizeAction::Unchanged(device(640, 480))
    );
    assert_eq!(w.get_events(), vec![EmbedderEvent::WindowResize]);
}

#[test]
fn drain_preserves_insertion_order() {
    let mut w = Window::new(logical(100, 100), None, None);
    w.enqueue(EmbedderEvent::WindowResize);
    w.enqueue(EmbedderEvent::WindowResize);
    assert_eq!(
        w.get_events(),
        vec![EmbedderEvent::WindowResize, EmbedderEvent::WindowResize]
    );
    assert!(w.get_events().is_empty());
}

#[test]
fn page_height_reads_surface_report() {
    let w = Window::new(logical(800, 600), None, None);
    assert_eq!(w.page_height(Some(42)), 42);
    assert_eq!(w.page_height(None), 0);
}

#[test]
fn fullscreen_flag_round_trips() {
    let mut w = Window::new(logical(800, 600), None, None);
    assert!(!w.get_fullscreen());
    w.set_fullscreen(true);
    assert!(w.get_fullscreen());
    w.set_fullscreen(false);
    assert!(!w.get_fullscreen());
}

#[test]
fn animation_state_round_trips() {
    let mut w = Window::new(logical(800, 600), None, None);
    assert!(!w.is_animating());
    w.set_animation_state(AnimationState::Animating);
    assert!(w.is_animating());
    w.set_animation_state(AnimationState::Idle);
    assert!(!w.is_animating());
}

#[test]
fn pixel_ratio_override_reported_verbatim() {
    let w = Window::new(logical(400, 300), Some(ratio(2, 1)), None);
    assert_eq!(w.device_pixel_ratio_override(), Some(ratio(2, 1)));
    let plain = Window::new(logical(400, 300), None, None);
    assert_eq!(plain.device_pixel_ratio_override(), None);
}

#[test]
fn device_hidpi_factor_is_identity() {
    let w = Window::new(logical(400, 300), Some(ratio(2, 1)), None);
    assert_eq!(w.device_hidpi_factor(), ratio(1, 1));
    assert_eq!(w.get_coordinates().hidpi_factor, ratio(1, 1));
}

#[test]
fn spatial_tracking_is_fixed() {
    let w = Window::new(logical(800, 600), None, None);
    assert_eq!(w.get_rotation(), Rotation { i: 0, j: 0, k: 0, r: 1 });
    assert_eq!(w.get_translation(), Vector3 { x: 0, y: 0, z: 0 });
}
