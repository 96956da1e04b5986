//! The window-system events the renderer reacts to, and what it asks its
//! driver to do in return.
use vstd::prelude::*;
use crate::surface::PhysicalSize;

verus! {

/// Whether a key went down or up.
#[derive(Clone, Copy, Debug, PartialEq, Eq, Structural)]
pub enum ElementState {
    Pressed,
    Released,
}

/// The keys the renderer tells apart.
#[derive(Clone, Copy, Debug, PartialEq, Eq, Structural)]
pub enum KeyCode {
    Escape,
    Other,
}

/// An event addressed to a window.
#[derive(Clone, Copy, Debug, PartialEq, Eq)]
pub enum WindowEvent {
    CloseRequested,
    KeyboardInput { state: ElementState, virtual_keycode: Option<KeyCode> },
    Resized(PhysicalSize),
    ScaleFactorChanged { new_inner_size: PhysicalSize },
    Other,
}

/// An event of the event loop. `for_main_window` tells whether the event
/// concerns the window the renderer draws into.
#[derive(Clone, Copy, Debug, PartialEq, Eq)]
pub enum Event {
    WindowEvent { for_main_window: bool, event: WindowEvent },
    RedrawRequested { for_main_window: bool },
    RedrawEventsCleared,
    Other,
}

/// What the driver does with an event.
#[derive(Clone, Copy, Debug, PartialEq, Eq, Structural)]
pub enum Route {
    /// Offer the window event to the input handler (the camera controller),
    /// then hand it with the handler's answer to
    /// `State::handle_window_event`.
    OfferToInput,
    /// Update the scene, render a frame, and hand the outcome to
    /// `State::handle_render_outcome`.
    UpdateAndRender,
    /// Ask the window for a redraw.
    RequestRedraw,
    /// Nothing.
    Ignore,
}

/// How rendering a frame went.
#[derive(Clone, Copy, Debug, PartialEq, Eq, Structural)]
pub enum RenderOutcome {
    Presented,
    Timeout,
    Outdated,
    Lost,
    OutOfMemory,
}

/// What the renderer asks its driver to do.
#[derive(Clone, Copy, Debug, PartialEq, Eq)]
pub enum Command {
    /// Carry on with the next event.
    Continue,
    /// Leave the event loop.
    Exit,
    /// Recreate the depth texture and reconfigure the surface at this size.
    Reconfigure(PhysicalSize),
    /// Log a warning that acquiring the frame timed out.
    WarnTimeout,
}

/// The route of an event.
pub open spec fn spec_route(event: Event) -> Route {
    match event {
        Event::WindowEvent { for_main_window, .. } => if for_main_window {
            Route::OfferToInput
        } else {
            Route::Ignore
        },
        Event::RedrawRequested { for_main_window } => if for_main_window {
            Route::UpdateAndRender
        } else {
            Route::Ignore
        },
        Event::RedrawEventsCleared => Route::RequestRedraw,
        Event::Other => Route::Ignore,
    }
}

/// Sorts an event of the event loop: window events and redraw requests of
/// the main window are handled, those of other windows ignored, and once
/// the pending redraws are done a new one is requested.
pub fn route(event: &Event) -> (r: Route)
    ensures
        r == spec_route(*event),
        *event matches Event::WindowEvent { for_main_window: true, .. } ==> r == Route::OfferToInput,
        *event matches Event::WindowEvent { for_main_window: false, .. } ==> r == Route::Ignore,
        *event matches Event::RedrawRequested { for_main_window: true } ==> r == Route::UpdateAndRender,
        *event matches Event::RedrawRequested { for_main_window: false } ==> r == Route::Ignore,
        *event matches Event::RedrawEventsCleared ==> r == Route::RequestRedraw,
        *event matches Event::Other ==> r == Route::Ignore,
{
    match event {
        Event::WindowEvent { for_main_window, .. } => if *for_main_window {
            Route::OfferToInput
        } else {
            Route::Ignore
        },
        Event::RedrawRequested { for_main_window } => if *for_main_window {
            Route::UpdateAndRender
        } else {
            Route::Ignore
        },
        Event::RedrawEventsCleared => Route::RequestRedraw,
        Event::Other => Route::Ignore,
    }
}

/// The event asks to leave: the window is being closed or Escape went down.
pub open spec fn is_exit_request(event: WindowEvent) -> bool {
    match event {
        WindowEvent::CloseRequested => true,
        WindowEvent::KeyboardInput { state, virtual_keycode } => state == ElementState::Pressed
            && virtual_keycode == Some(KeyCode::Escape),
        _ => false,
    }
}

/// The size a window event asks the surface to take, if any.
pub open spec fn requested_size(event: WindowEvent) -> Option<PhysicalSize> {
    match event {
        WindowEvent::Resized(size) => Some(size),
        WindowEvent::ScaleFactorChanged { new_inner_size } => Some(new_inner_size),
        _ => None,
    }
}

/// Whether a window event asks to leave.
pub fn exit_requested(event: &WindowEvent) -> (b: bool)
    ensures
        b == is_exit_request(*event),
        b <==> (*event matches WindowEvent::CloseRequested || *event matches WindowEvent::KeyboardInput {
            state: ElementState::Pressed,
            virtual_keycode: Some(KeyCode::Escape),
        }),
{
    match event {
        WindowEvent::CloseRequested => true,
        WindowEvent::KeyboardInput { state, virtual_keycode } => {
            let pressed = match state {
                ElementState::Pressed => true,
                ElementState::Released => false,
            };
            let escape = match virtual_keycode {
                Some(KeyCode::Escape) => true,
                _ => false,
            };
            pressed && escape
        },
        _ => false,
    }
}

/// The size a window event asks the surface to take, if any.
pub fn size_request(event: &WindowEvent) -> (s: Option<PhysicalSize>)
    ensures
        s == requested_size(*event),
        *event matches WindowEvent::Resized(size) ==> s == Some(size),
        *event matches WindowEvent::ScaleFactorChanged { new_inner_size } ==> s == Some(new_inner_size),
        !(*event is Resized || *event is ScaleFactorChanged) ==> s is None,
{
    match event {
        WindowEvent::Resized(size) => Some(*size),
        WindowEvent::ScaleFactorChanged { new_inner_size } => Some(*new_inner_size),
        _ => None,
    }
}

/// Law: every window event of the main window is offered to the input
/// handler, whatever its kind, and every window event of another window is
/// ignored; a redraw request renders only for the main window; once the
/// pending redraws are done a new one is requested; anything else is
/// ignored.
pub proof fn lemma_route_by_window(event: WindowEvent)
    ensures
        spec_route(Event::WindowEvent { for_main_window: true, event }) == Route::OfferToInput,
        spec_route(Event::WindowEvent { for_main_window: false, event }) == Route::Ignore,
        spec_route(Event::RedrawRequested { for_main_window: true }) == Route::UpdateAndRender,
        spec_route(Event::RedrawRequested { for_main_window: false }) == Route::Ignore,
        spec_route(Event::RedrawEventsCleared) == Route::RequestRedraw,
        spec_route(Event::Other) == Route::Ignore,
{
}

/// Law: closing the window asks to leave, and of the keyboard events only
/// pressing Escape does: releasing any key, or pressing any other key or
/// one without a key code, does not; resizes and other events never do.
pub proof fn lemma_exit_requests(
    state: ElementState,
    key: Option<KeyCode>,
    size: PhysicalSize,
)
    ensures
        is_exit_request(WindowEvent::CloseRequested),
        is_exit_request(
            WindowEvent::KeyboardInput {
                state: ElementState::Pressed,
                virtual_keycode: Some(KeyCode::Escape),
            },
        ),
        !is_exit_request(
            WindowEvent::KeyboardInput { state: ElementState::Released, virtual_keycode: key },
        ),
        key != Some(KeyCode::Escape) ==> !is_exit_request(
            WindowEvent::KeyboardInput { state, virtual_keycode: key },
        ),
        !is_exit_request(WindowEvent::Resized(size)),
        !is_exit_request(WindowEvent::ScaleFactorChanged { new_inner_size: size }),
        !is_exit_request(WindowEvent::Other),
{
}

/// Law: a resize and a change of scale factor ask for exactly the size
/// they carry; no other window event asks for a size.
pub proof fn lemma_size_requests(size: PhysicalSize, state: ElementState, key: Option<KeyCode>)
    ensures
        requested_size(WindowEvent::Resized(size)) == Some(size),
        requested_size(WindowEvent::ScaleFactorChanged { new_inner_size: size }) == Some(size),
        requested_size(WindowEvent::CloseRequested) is None,
        requested_size(WindowEvent::KeyboardInput { state, virtual_keycode: key }) is None,
        requested_size(WindowEvent::Other) is None,
{
}

} // verus!
