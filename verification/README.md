# learn_wgpu

The decision logic of a small wgpu renderer that draws a grid of instanced
models, verified with Verus.

- `src/instances.rs` — the grid of instances: positions, tilts, and the
  laws that the positions are distinct and only the centre is unturned.
- `src/surface.rs` — the surface configuration: window size, first sRGB
  format (else the first format), first present and alpha modes.
- `src/events.rs` — the window-system events and the commands the
  renderer answers with; routing of event-loop events.
- `src/state.rs` — the renderer's state, resizing, the reactions to window
  events and to render outcomes, and their laws.
- `app/` — the winit event loop and the wgpu calls, which carry out the
  library's commands.
