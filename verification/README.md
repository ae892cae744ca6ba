# madori

A window-application runner: a winit window, a wgpu surface and an event
handler that answers each event with an `EventResponse`.

- `src/` is the verified library: the configuration (`app.rs`), the input
  model and key mapping (`event.rs`), the runner's errors (`error.rs`) and the
  decisions of the event loop as a state machine with its laws
  (`event_loop.rs`).
- `app/` runs winit's event loop, owns the GPU objects, the floating-point
  data (pointer positions, scale factor, frame times) and the renderer
  interface, and performs what `madori::LoopState` decides.
- `tests/` exercises the library on concrete values.
