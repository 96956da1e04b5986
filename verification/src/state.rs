//! The renderer's own state: the window size, the surface configuration
//! that follows it, and the instances it draws; and the decisions that
//! change it.
use vstd::prelude::*;
use crate::events::{
    exit_requested, is_exit_request, requested_size, size_request, Command, ElementState, KeyCode,
    RenderOutcome, WindowEvent,
};
use crate::instances::{scene_instances, spec_scene_grid, Placement};
use crate::surface::{
    is_drawable, is_preferred_format_index, srgb_of, surface_config, PhysicalSize, SurfaceConfig,
    SurfaceConfigView, SurfaceUsage,
};

verus! {

/// What a `State` holds.
pub struct StateView {
    pub size: PhysicalSize,
    pub config: SurfaceConfigView,
    pub instances: Seq<Placement>,
}

/// The surface is configured at the window's size, and the instances are
/// the scene's grid.
pub open spec fn consistent(v: StateView) -> bool {
    &&& v.config.width == v.size.width
    &&& v.config.height == v.size.height
    &&& v.config.usage == SurfaceUsage::RenderAttachment
    &&& v.config.view_formats == Seq::<wgpu::TextureFormat>::empty()
    &&& v.instances == spec_scene_grid()
}

/// The state after a resize to `size`: a size with a zero side is ignored;
/// any other becomes the window size and the surface size.
pub open spec fn spec_resize(v: StateView, size: PhysicalSize) -> StateView {
    if is_drawable(size) {
        StateView {
            size,
            config: SurfaceConfigView { width: size.width, height: size.height, ..v.config },
            instances: v.instances,
        }
    } else {
        v
    }
}

/// The command that follows a resize to `size`.
pub open spec fn resize_command(size: PhysicalSize) -> Command {
    if is_drawable(size) {
        Command::Reconfigure(size)
    } else {
        Command::Continue
    }
}

/// State and command after a window event of the main window, `consumed`
/// telling whether the input handler took it.
pub open spec fn spec_window_event(v: StateView, event: WindowEvent, consumed: bool) -> (
    StateView,
    Command,
) {
    if consumed {
        (v, Command::Continue)
    } else if is_exit_request(event) {
        (v, Command::Exit)
    } else {
        match requested_size(event) {
            Some(size) => (spec_resize(v, size), resize_command(size)),
            None => (v, Command::Continue),
        }
    }
}

/// State and command after a frame was rendered with `outcome`.
pub open spec fn spec_render_outcome(v: StateView, outcome: RenderOutcome) -> (StateView, Command) {
    match outcome {
        RenderOutcome::Presented => (v, Command::Continue),
        RenderOutcome::Lost | RenderOutcome::Outdated => (
            spec_resize(v, v.size),
            resize_command(v.size),
        ),
        RenderOutcome::OutOfMemory => (v, Command::Exit),
        RenderOutcome::Timeout => (v, Command::WarnTimeout),
    }
}

/// The window size together with the surface configuration that follows
/// it; the two change together.
struct Viewport {
    size: PhysicalSize,
    config: SurfaceConfig,
}

/// The renderer's state.
pub struct State {
    viewport: Viewport,
    instances: Vec<Placement>,
}

impl View for State {
    type V = StateView;

    closed spec fn view(&self) -> StateView {
        StateView {
            size: self.viewport.size,
            config: self.viewport.config@,
            instances: self.instances@,
        }
    }
}

impl State {
    #[verifier::type_invariant]
    closed spec fn inv(self) -> bool {
        consistent(self@)
    }

    /// A state for a window of `size` whose surface offers `formats`,
    /// `present_modes` and `alpha_modes`: the surface takes the window's
    /// size, the first sRGB format (else the first format) and the first
    /// present and alpha modes; the instances are the scene's grid.
    pub fn new(
        size: PhysicalSize,
        formats: &Vec<wgpu::TextureFormat>,
        present_modes: &Vec<wgpu::PresentMode>,
        alpha_modes: &Vec<wgpu::CompositeAlphaMode>,
    ) -> (s: State)
        requires
            formats.len() > 0,
            present_modes.len() > 0,
            alpha_modes.len() > 0,
        ensures
            consistent(s@),
            s@.size == size,
            exists|i: int|
                is_preferred_format_index(srgb_of(formats@), i) && s@.config.format == formats@[i],
            s@.config.present_mode == present_modes@[0],
            s@.config.alpha_mode == alpha_modes@[0],
            s@.config.usage == SurfaceUsage::RenderAttachment,
            s@.config.view_formats == Seq::<wgpu::TextureFormat>::empty(),
    {
        let config = surface_config(size, formats, present_modes, alpha_modes);
        State { viewport: Viewport { size, config }, instances: scene_instances() }
    }

    /// The window size.
    pub fn size(&self) -> (s: PhysicalSize)
        ensures
            s == self@.size,
    {
        self.viewport.size
    }

    /// The surface configuration.
    pub fn config(&self) -> (c: &SurfaceConfig)
        ensures
            c@ == self@.config,
            consistent(self@),
    {
        proof {
            use_type_invariant(self);
        }
        &self.viewport.config
    }

    /// The instances to draw, in drawing order.
    pub fn instances(&self) -> (v: &Vec<Placement>)
        ensures
            v@ == self@.instances,
            v@ == spec_scene_grid(),
    {
        proof {
            use_type_invariant(self);
        }
        &self.instances
    }

    /// The instance range of the draw call: all the instances.
    pub fn instance_draw_range(&self) -> (r: (u32, u32))
        ensures
            r.0 == 0,
            r.1 == self@.instances.len(),
            r.1 == 100,
    {
        proof {
            use_type_invariant(self);
        }
        crate::draw_instance_range(self.instances.len())
    }

    /// Follows the window to `new_size`. A size with a zero side cannot be
    /// configured and is ignored; any other becomes the window size and the
    /// surface size. Returns whether the depth texture and the surface must
    /// be made anew.
    pub fn resize(&mut self, new_size: PhysicalSize) -> (reconfigure: bool)
        ensures
            final(self)@ == spec_resize(old(self)@, new_size),
            reconfigure == is_drawable(new_size),
            consistent(final(self)@),
            reconfigure <==> (new_size.width > 0 && new_size.height > 0),
            reconfigure ==> final(self)@.size == new_size && final(self)@.config.width
                == new_size.width && final(self)@.config.height == new_size.height
                && final(self)@.config.format == old(self)@.config.format
                && final(self)@.config.present_mode == old(self)@.config.present_mode
                && final(self)@.config.alpha_mode == old(self)@.config.alpha_mode
                && final(self)@.instances == old(self)@.instances,
            !reconfigure ==> final(self)@ == old(self)@,
    {
        proof {
            use_type_invariant(&*self);
        }
        if new_size.width > 0 && new_size.height > 0 {
            let old = &self.viewport.config;
            let config = SurfaceConfig {
                usage: old.usage,
                width: new_size.width,
                height: new_size.height,
                format: old.format,
                present_mode: old.present_mode,
                alpha_mode: old.alpha_mode,
                view_formats: Vec::new(),
            };
            self.viewport = Viewport { size: new_size, config };
            true
        } else {
            false
        }
    }

    fn resize_and_command(&mut self, new_size: PhysicalSize) -> (c: Command)
        ensures
            final(self)@ == spec_resize(old(self)@, new_size),
            c == resize_command(new_size),
            consistent(final(self)@),
    {
        if self.resize(new_size) {
            Command::Reconfigure(new_size)
        } else {
            Command::Continue
        }
    }

    /// Reacts to a window event of the main window. An event the input
    /// handler took (`consumed`) is left alone; closing the window or
    /// pressing Escape leaves the loop; a resize or a change of scale factor
    /// resizes; anything else is ignored.
    pub fn handle_window_event(&mut self, event: &WindowEvent, consumed: bool) -> (c: Command)
        ensures
            (final(self)@, c) == spec_window_event(old(self)@, *event, consumed),
            consistent(final(self)@),
            c matches Command::Reconfigure(size) ==> is_drawable(size) && final(self)@.size == size,
            consumed ==> c == Command::Continue && final(self)@ == old(self)@,
            !consumed ==> (*event matches WindowEvent::Resized(size) ==> (if size.width > 0
                && size.height > 0 {
                c == Command::Reconfigure(size) && final(self)@.size == size
            } else {
                c == Command::Continue && final(self)@ == old(self)@
            })),
            !consumed ==> (*event matches WindowEvent::ScaleFactorChanged { new_inner_size } ==> (
            if new_inner_size.width > 0 && new_inner_size.height > 0 {
                c == Command::Reconfigure(new_inner_size) && final(self)@.size == new_inner_size
            } else {
                c == Command::Continue && final(self)@ == old(self)@
            })),
    {
        proof {
            use_type_invariant(&*self);
        }
        if consumed {
            return Command::Continue;
        }
        if exit_requested(event) {
            return Command::Exit;
        }
        match size_request(event) {
            Some(size) => self.resize_and_command(size),
            None => Command::Continue,
        }
    }

    /// Reacts to how rendering a frame went: a lost or outdated surface is
    /// configured anew at the current size, running out of memory leaves
    /// the loop, and a timeout is reported.
    pub fn handle_render_outcome(&mut self, outcome: RenderOutcome) -> (c: Command)
        ensures
            (final(self)@, c) == spec_render_outcome(old(self)@, outcome),
            final(self)@ == old(self)@,
            consistent(final(self)@),
            outcome == RenderOutcome::Presented ==> c == Command::Continue,
            (outcome == RenderOutcome::Lost || outcome == RenderOutcome::Outdated) ==> c == (if old(
                self,
            )@.size.width > 0 && old(self)@.size.height > 0 {
                Command::Reconfigure(old(self)@.size)
            } else {
                Command::Continue
            }),
            outcome == RenderOutcome::OutOfMemory ==> c == Command::Exit,
            outcome == RenderOutcome::Timeout ==> c == Command::WarnTimeout,
    {
        proof {
            use_type_invariant(&*self);
        }
        match outcome {
            RenderOutcome::Presented => Command::Continue,
            RenderOutcome::Lost | RenderOutcome::Outdated => {
                let size = self.viewport.size;
                self.resize_and_command(size)
            },
            RenderOutcome::OutOfMemory => Command::Exit,
            RenderOutcome::Timeout => Command::WarnTimeout,
        }
    }
}

/// Law: resizing twice to the same size is the same as resizing once.
pub proof fn lemma_resize_idempotent(v: StateView, size: PhysicalSize)
    ensures
        spec_resize(spec_resize(v, size), size) == spec_resize(v, size),
{
}

/// Law: of two resizes, the later one decides, unless it has a zero side,
/// in which case the earlier one stands.
pub proof fn lemma_resize_last_wins(v: StateView, first: PhysicalSize, second: PhysicalSize)
    ensures
        is_drawable(second) ==> spec_resize(spec_resize(v, first), second) == spec_resize(v, second),
        !is_drawable(second) ==> spec_resize(spec_resize(v, first), second) == spec_resize(v, first),
{
}

/// Law: a resize keeps the surface at the window's size, and never leaves
/// a size with a zero side behind where there was none.
pub proof fn lemma_resize_keeps_consistent(v: StateView, size: PhysicalSize)
    requires
        consistent(v),
    ensures
        consistent(spec_resize(v, size)),
        is_drawable(v.size) ==> is_drawable(spec_resize(v, size).size),
{
}

/// Law: an event that the input handler took changes nothing and asks for
/// nothing.
pub proof fn lemma_consumed_event_is_inert(v: StateView, event: WindowEvent)
    ensures
        spec_window_event(v, event, true) == (v, Command::Continue),
{
}

/// Law: the driver is only ever asked to configure the surface at a size
/// without a zero side, and the state then holds that size.
pub proof fn lemma_reconfigure_is_drawable(
    v: StateView,
    event: WindowEvent,
    consumed: bool,
    outcome: RenderOutcome,
)
    ensures
        spec_window_event(v, event, consumed).1 matches Command::Reconfigure(size) ==> is_drawable(
            size,
        ) && spec_window_event(v, event, consumed).0.size == size,
        spec_render_outcome(v, outcome).1 matches Command::Reconfigure(size) ==> is_drawable(size)
            && size == v.size,
{
}

/// Law: the loop is left exactly when the window is closed, Escape goes
/// down (and the input handler did not take it), or the GPU runs out of
/// memory; leaving changes nothing.
pub proof fn lemma_exit_only_on_request(
    v: StateView,
    event: WindowEvent,
    consumed: bool,
    outcome: RenderOutcome,
)
    ensures
        (spec_window_event(v, event, consumed).1 == Command::Exit) <==> (!consumed
            && is_exit_request(event)),
        spec_window_event(v, event, consumed).1 == Command::Exit ==> spec_window_event(
            v,
            event,
            consumed,
        ).0 == v,
        (spec_render_outcome(v, outcome).1 == Command::Exit) <==> outcome
            == RenderOutcome::OutOfMemory,
{
    match requested_size(event) {
        Some(size) => {
            assert(resize_command(size) != Command::Exit);
        },
        None => {},
    }
    assert(resize_command(v.size) != Command::Exit);
}

/// Law: recovering from a lost or outdated surface configures it anew at
/// the size it already has, and leaves the state as it was.
pub proof fn lemma_recovery_keeps_state(v: StateView, outcome: RenderOutcome)
    requires
        consistent(v),
    ensures
        spec_render_outcome(v, outcome).0 == v,
        (outcome == RenderOutcome::Lost || outcome == RenderOutcome::Outdated) && is_drawable(v.size)
            ==> spec_render_outcome(v, outcome).1 == Command::Reconfigure(v.size),
{
}

/// Law: a resize to a size without a zero side makes that exact size the
/// window size and the surface size, keeps everything else, and asks for
/// the surface to be configured at exactly that size; a size with a zero
/// side changes nothing and asks for nothing.
pub proof fn lemma_resize_follows_window(v: StateView, size: PhysicalSize)
    ensures
        size.width > 0 && size.height > 0 ==> {
            let w = spec_resize(v, size);
            &&& w.size == size
            &&& w.config.width == size.width
            &&& w.config.height == size.height
            &&& w.config.format == v.config.format
            &&& w.config.present_mode == v.config.present_mode
            &&& w.config.alpha_mode == v.config.alpha_mode
            &&& w.config.usage == v.config.usage
            &&& w.config.view_formats == v.config.view_formats
            &&& w.instances == v.instances
            &&& resize_command(size) == Command::Reconfigure(size)
        },
        !(size.width > 0 && size.height > 0) ==> spec_resize(v, size) == v && resize_command(size)
            == Command::Continue,
{
}

/// Law: an unconsumed resize or change of scale factor of the main window
/// to a size without a zero side asks to configure the surface at exactly
/// that size and leaves it as the state's size; closing the window or
/// pressing Escape asks to leave and changes nothing; releasing a key or
/// pressing any key but Escape does nothing.
pub proof fn lemma_window_event_reactions(
    v: StateView,
    size: PhysicalSize,
    state: ElementState,
    key: Option<KeyCode>,
)
    ensures
        size.width > 0 && size.height > 0 ==> spec_window_event(v, WindowEvent::Resized(size), false).1
            == Command::Reconfigure(size) && spec_window_event(
            v,
            WindowEvent::Resized(size),
            false,
        ).0.size == size,
        size.width > 0 && size.height > 0 ==> spec_window_event(
            v,
            WindowEvent::ScaleFactorChanged { new_inner_size: size },
            false,
        ).1 == Command::Reconfigure(size) && spec_window_event(
            v,
            WindowEvent::ScaleFactorChanged { new_inner_size: size },
            false,
        ).0.size == size,
        !(size.width > 0 && size.height > 0) ==> spec_window_event(
            v,
            WindowEvent::Resized(size),
            false,
        ) == (v, Command::Continue),
        spec_window_event(v, WindowEvent::CloseRequested, false) == (v, Command::Exit),
        spec_window_event(
            v,
            WindowEvent::KeyboardInput {
                state: ElementState::Pressed,
                virtual_keycode: Some(KeyCode::Escape),
            },
            false,
        ) == (v, Command::Exit),
        spec_window_event(
            v,
            WindowEvent::KeyboardInput { state: ElementState::Released, virtual_keycode: key },
            false,
        ) == (v, Command::Continue),
        key != Some(KeyCode::Escape) ==> spec_window_event(
            v,
            WindowEvent::KeyboardInput { state, virtual_keycode: key },
            false,
        ) == (v, Command::Continue),
        spec_window_event(v, WindowEvent::Other, false) == (v, Command::Continue),
{
}

} // verus!
