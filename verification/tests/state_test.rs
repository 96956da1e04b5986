use learn_wgpu::events::{
    exit_requested, route, size_request, Command, ElementState, Event, KeyCode, RenderOutcome,
    Route, WindowEvent,
};
use learn_wgpu::state::State;
use learn_wgpu::surface::{PhysicalSize, SurfaceUsage};
use wgpu::{CompositeAlphaMode, PresentMode, TextureFormat};

fn state(width: u32, height: u32) -> State {
    State::new(
        PhysicalSize::new(width, height),
        &vec![TextureFormat::Bgra8Unorm, TextureFormat::Bgra8UnormSrgb],
        &vec![PresentMode::Fifo],
        &vec![CompositeAlphaMode::Opaque],
    )
}

fn key(state: ElementState, code: Option<KeyCode>) -> WindowEvent {
    WindowEvent::KeyboardInput { state, virtual_keycode: code }
}

#[test]
fn new_state_follows_window() {
    let s = state(1024, 768);
    assert_eq!(s.size(), PhysicalSize::new(1024, 768));
    let c = s.config();
    assert_eq!((c.width, c.height), (1024, 768));
    assert_eq!(c.format, TextureFormat::Bgra8UnormSrgb);
    assert_eq!(c.present_mode, PresentMode::Fifo);
    assert_eq!(c.alpha_mode, CompositeAlphaMode::Opaque);
    assert_eq!(c.usage, SurfaceUsage::RenderAttachment);
    assert!(c.view_formats.is_empty());
    assert_eq!(s.instances().len(), 100);
    assert_eq!(s.instance_draw_range(), (0, 100));
}

#[test]
fn resize_to_drawable_size() {
    let mut s = state(800, 600);
    assert!(s.resize(PhysicalSize::new(1280, 720)));
    assert_eq!(s.size(), PhysicalSize::new(1280, 720));
    assert_eq!((s.config().width, s.config().height), (1280, 720));
    assert_eq!(s.config().format, TextureFormat::Bgra8UnormSrgb);
    assert_eq!(s.config().usage, SurfaceUsage::RenderAttachment);
    assert!(s.config().view_formats.is_empty());
}

#[test]
fn resize_with_zero_side_is_ignored() {
    let mut s = state(800, 600);
    assert!(!s.resize(PhysicalSize::new(0, 720)));
    assert!(!s.resize(PhysicalSize::new(1280, 0)));
    assert!(!s.resize(PhysicalSize::new(0, 0)));
    assert_eq!(s.size(), PhysicalSize::new(800, 600));
    assert_eq!((s.config().width, s.config().height), (800, 600));
}

#[test]
fn resize_twice_same_as_once() {
    let mut a = state(800, 600);
    let mut b = state(800, 600);
    a.resize(PhysicalSize::new(640, 480));
    b.resize(PhysicalSize::new(640, 480));
    b.resize(PhysicalSize::new(640, 480));
    assert_eq!(a.size(), b.size());
    assert_eq!(a.config().width, b.config().width);
    assert_eq!(a.config().height, b.config().height);
}

#[test]
fn later_resize_wins() {
    let mut s = state(800, 600);
    s.resize(PhysicalSize::new(640, 480));
    s.resize(PhysicalSize::new(1920, 1080));
    assert_eq!(s.size(), PhysicalSize::new(1920, 1080));
    s.resize(PhysicalSize::new(0, 5));
    assert_eq!(s.size(), PhysicalSize::new(1920, 1080));
}

#[test]
fn consumed_events_do_nothing() {
    let mut s = state(800, 600);
    assert_eq!(s.handle_window_event(&WindowEvent::CloseRequested, true), Command::Continue);
    assert_eq!(
        s.handle_window_event(&WindowEvent::Resized(PhysicalSize::new(10, 10)), true),
        Command::Continue
    );
    assert_eq!(s.size(), PhysicalSize::new(800, 600));
}

#[test]
fn close_and_escape_exit() {
    let mut s = state(800, 600);
    assert_eq!(s.handle_window_event(&WindowEvent::CloseRequested, false), Command::Exit);
    assert_eq!(
        s.handle_window_event(&key(ElementState::Pressed, Some(KeyCode::Escape)), false),
        Command::Exit
    );
    assert_eq!(
        s.handle_window_event(&key(ElementState::Released, Some(KeyCode::Escape)), false),
        Command::Continue
    );
    assert_eq!(
        s.handle_window_event(&key(ElementState::Pressed, Some(KeyCode::Other)), false),
        Command::Continue
    );
    assert_eq!(s.handle_window_event(&key(ElementState::Pressed, None), false), Command::Continue);
    assert_eq!(s.handle_window_event(&WindowEvent::Other, false), Command::Continue);
    assert_eq!(s.size(), PhysicalSize::new(800, 600));
}

#[test]
fn resize_events_reconfigure() {
    let mut s = state(800, 600);
    assert_eq!(
        s.handle_window_event(&WindowEvent::Resized(PhysicalSize::new(1000, 500)), false),
        Command::Reconfigure(PhysicalSize::new(1000, 500))
    );
    assert_eq!(s.size(), PhysicalSize::new(1000, 500));
    assert_eq!(
        s.handle_window_event(
            &WindowEvent::ScaleFactorChanged { new_inner_size: PhysicalSize::new(2000, 1000) },
            false
        ),
        Command::Reconfigure(PhysicalSize::new(2000, 1000))
    );
    assert_eq!(s.size(), PhysicalSize::new(2000, 1000));
    assert_eq!(
        s.handle_window_event(&WindowEvent::Resized(PhysicalSize::new(0, 0)), false),
        Command::Continue
    );
    assert_eq!(s.size(), PhysicalSize::new(2000, 1000));
}

#[test]
fn render_outcomes() {
    let mut s = state(800, 600);
    assert_eq!(s.handle_render_outcome(RenderOutcome::Presented), Command::Continue);
    assert_eq!(
        s.handle_render_outcome(RenderOutcome::Lost),
        Command::Reconfigure(PhysicalSize::new(800, 600))
    );
    assert_eq!(
        s.handle_render_outcome(RenderOutcome::Outdated),
        Command::Reconfigure(PhysicalSize::new(800, 600))
    );
    assert_eq!(s.handle_render_outcome(RenderOutcome::OutOfMemory), Command::Exit);
    assert_eq!(s.handle_render_outcome(RenderOutcome::Timeout), Command::WarnTimeout);
    assert_eq!(s.size(), PhysicalSize::new(800, 600));
}

#[test]
fn lost_surface_of_zero_sized_window_is_left_alone() {
    let mut s = state(0, 0);
    assert_eq!(s.handle_render_outcome(RenderOutcome::Lost), Command::Continue);
    assert_eq!(s.size(), PhysicalSize::new(0, 0));
}

#[test]
fn routes() {
    let ev = WindowEvent::CloseRequested;
    assert_eq!(route(&Event::WindowEvent { for_main_window: true, event: ev }), Route::OfferToInput);
    assert_eq!(route(&Event::WindowEvent { for_main_window: false, event: ev }), Route::Ignore);
    assert_eq!(route(&Event::RedrawRequested { for_main_window: true }), Route::UpdateAndRender);
    assert_eq!(route(&Event::RedrawRequested { for_main_window: false }), Route::Ignore);
    assert_eq!(route(&Event::RedrawEventsCleared), Route::RequestRedraw);
    assert_eq!(route(&Event::Other), Route::Ignore);
}

#[test]
fn event_queries() {
    assert!(exit_requested(&WindowEvent::CloseRequested));
    assert!(!exit_requested(&WindowEvent::Other));
    assert_eq!(
        size_request(&WindowEvent::Resized(PhysicalSize::new(3, 4))),
        Some(PhysicalSize::new(3, 4))
    );
    assert_eq!(
        size_request(&WindowEvent::ScaleFactorChanged { new_inner_size: PhysicalSize::new(5, 6) }),
        Some(PhysicalSize::new(5, 6))
    );
    assert_eq!(size_request(&WindowEvent::CloseRequested), None);
}
