use vstd::prelude::*;

use crate::app::{at_least_one, clamp_to_one, AppConfig, WindowSpec};
use crate::error::{joined, MadoriError};
use crate::event::{
    key_code, EventResponse, ImeEvent, Key, KeyCode, KeyEvent, Modifiers, MouseButton,
    PointerButton,
};

verus! {

/// A window event as the runner reads it. Positions, scale factors and
/// scroll deltas are floating point and stay with the runner; here those
/// events carry nothing.
#[derive(Debug, Clone)]
pub enum WindowInput {
    CloseRequested,
    /// The window's new inner size in physical pixels.
    Resized { width: u32, height: u32 },
    ScaleFactorChanged,
    Focused(bool),
    /// The new modifier state, as the bit set of winit's `ModifiersState`.
    ModifiersChanged(u32),
    KeyboardInput { key: Key, pressed: bool, text: Option<String> },
    Ime(ImeEvent),
    CursorMoved,
    MouseInput { button: PointerButton, pressed: bool },
    MouseWheel,
    RedrawRequested,
    /// Any event the runner does not handle.
    Other,
}

/// The application event handed to the event handler. The pointer position
/// of `PointerMoved` and `MouseButton` and the deltas of `Scroll` are
/// attached by the runner.
#[derive(Debug, Clone)]
pub enum Delivery {
    Resized { width: u32, height: u32 },
    CloseRequested,
    Focused(bool),
    Key(KeyEvent),
    Ime(ImeEvent),
    PointerMoved,
    MouseButton { button: MouseButton, pressed: bool, modifiers: Modifiers },
    Scroll,
    RedrawRequested,
}

/// What the runner does about a window event before the handler runs.
#[derive(Debug, Clone)]
pub struct Reaction {
    /// Keep the event's scale factor for the next frames.
    pub record_scale_factor: bool,
    /// Keep the event's pointer position for later button events.
    pub record_cursor: bool,
    /// Reconfigure the surface to this size.
    pub reconfigure_surface: Option<(u32, u32)>,
    /// Tell the renderer its new size.
    pub resize_renderer: Option<(u32, u32)>,
    /// The event for the handler, if any.
    pub deliver: Option<Delivery>,
}

/// Where the frame pipeline stands after a step.
#[derive(Debug, Clone, Copy, PartialEq, Eq, Structural)]
pub enum FrameStep {
    /// Nothing further.
    Idle,
    /// Ask the renderer whether it needs a frame.
    AskRenderer,
    /// Acquire the next swapchain image.
    Acquire,
    /// Ask the window for another redraw, drawing nothing now.
    RequestRedraw,
}

/// What the runner asks of the window after the handler answered.
#[derive(Debug, Clone)]
pub struct Requests {
    pub set_title: Option<String>,
    pub set_cursor_visible: Option<bool>,
    /// `Some(true)`: enter borderless fullscreen; `Some(false)`: leave it.
    pub set_fullscreen: Option<bool>,
    /// Stop the event loop.
    pub exit: bool,
    /// How the frame pipeline goes on.
    pub frame: FrameStep,
}

/// The result of acquiring a swapchain image (`Ok`, or the variants of
/// `wgpu::SurfaceError`).
#[derive(Debug, Clone, Copy, PartialEq, Eq, Structural)]
pub enum AcquireOutcome {
    Acquired,
    Timeout,
    Outdated,
    Lost,
    OutOfMemory,
    Other,
}

/// What the runner does with an acquired (or failed) swapchain image.
#[derive(Debug, Clone, Copy)]
pub struct FramePlan {
    /// Call the renderer on the image.
    pub render: bool,
    /// Present the image.
    pub present: bool,
    /// Restart the frame clock: the next frame's `dt` counts from now.
    pub restart_frame_clock: bool,
    /// Show the window (it was created hidden).
    pub reveal_window: bool,
    /// Reconfigure the surface with its current configuration.
    pub reconfigure_surface: bool,
    /// Report the surface error.
    pub report_error: bool,
    /// Ask the window for another redraw.
    pub request_redraw: bool,
}

/// A step of starting up that failed, with the failure's description.
#[derive(Debug, Clone)]
pub enum StartupFailure {
    /// The window could not be created.
    WindowCreation(String),
    /// The GPU context could not be initialized.
    GpuInit(String),
}

/// How the runner answers a failed start-up.
#[derive(Debug)]
pub struct Shutdown {
    /// The error to report.
    pub error: MadoriError,
    /// The line to log.
    pub log_line: String,
    /// Stop the event loop.
    pub exit: bool,
}

/// The runner's state between events, as far as its decisions read it.
#[derive(Debug, Clone, Copy)]
pub struct LoopState {
    /// The window, the GPU context and the surface are live.
    pub window_ready: bool,
    /// The window's inner size in physical pixels.
    pub width: u32,
    pub height: u32,
    /// The modifiers last reported as held.
    pub modifiers: Modifiers,
    /// A frame has been presented since the window opened.
    pub first_frame_presented: bool,
}

impl LoopState {
    /// Frames are presented only into a live window.
    pub open spec fn wf(self) -> bool {
        self.first_frame_presented ==> self.window_ready
    }

    /// The state before the application resumes: no window, no size, no
    /// modifiers, nothing presented.
    pub open spec fn initial() -> LoopState {
        LoopState {
            window_ready: false,
            width: 0,
            height: 0,
            modifiers: Modifiers { shift: false, ctrl: false, alt: false, meta: false },
            first_frame_presented: false,
        }
    }

    pub fn new() -> (r: LoopState)
        ensures
            r == LoopState::initial(),
            r.wf(),
    {
        LoopState {
            window_ready: false,
            width: 0,
            height: 0,
            modifiers: Modifiers::default(),
            first_frame_presented: false,
        }
    }

    /// Whether a resume creates a window: only when none is live.
    pub open spec fn creates_window(self) -> bool {
        !self.window_ready
    }

    /// On resume: the window to create, unless one is live already.
    pub fn on_resumed(&self, config: &AppConfig) -> (r: Option<WindowSpec>)
        ensures
            r is Some <==> self.creates_window(),
            r matches Some(spec) ==> spec == WindowSpec::for_config_spec(*config),
    {
        if self.window_ready {
            None
        } else {
            Some(WindowSpec::for_config(config))
        }
    }

    /// The state once a window of the given inner size has been created.
    pub open spec fn created_spec(self, width: u32, height: u32) -> LoopState {
        LoopState { width, height, ..self }
    }

    /// Records the size of the window just created. It is live only once
    /// the GPU is ready too.
    pub fn on_window_created(&mut self, width: u32, height: u32)
        requires
            old(self).wf(),
        ensures
            *final(self) == old(self).created_spec(width, height),
            final(self).wf(),
    {
        self.width = width;
        self.height = height;
    }

    /// The error a failed start-up is reported as.
    pub open spec fn shutdown_error(failure: StartupFailure) -> MadoriError {
        match failure {
            StartupFailure::WindowCreation(detail) => MadoriError::Window(detail),
            StartupFailure::GpuInit(detail) => MadoriError::GpuInit(detail),
        }
    }

    /// The line logged for a failed start-up.
    pub open spec fn shutdown_log(failure: StartupFailure) -> Seq<char> {
        match failure {
            StartupFailure::WindowCreation(detail) => "failed to create window: "@ + detail@,
            StartupFailure::GpuInit(detail) => "GPU initialization failed: "@ + detail@,
        }
    }

    /// Handles a failed window creation or GPU initialization: it is logged,
    /// reported as the matching error, and the event loop stops. The state is
    /// left as it is: no window is live, so a later resume tries again.
    pub fn on_startup_failed(&self, failure: StartupFailure) -> (r: Shutdown)
        requires
            self.wf(),
        ensures
            r.error == LoopState::shutdown_error(failure),
            r.log_line@ == LoopState::shutdown_log(failure),
            r.exit,
    {
        match failure {
            StartupFailure::WindowCreation(detail) => {
                let log_line = joined("failed to create window: ", detail.as_str());
                Shutdown { error: MadoriError::Window(detail), log_line, exit: true }
            },
            StartupFailure::GpuInit(detail) => {
                let log_line = joined("GPU initialization failed: ", detail.as_str());
                Shutdown { error: MadoriError::GpuInit(detail), log_line, exit: true }
            },
        }
    }

    /// The state once the GPU context and the surface are set up.
    pub open spec fn ready_spec(self) -> LoopState {
        LoopState { window_ready: true, ..self }
    }

    /// Records that the window, GPU context and surface are live.
    pub fn on_gpu_ready(&mut self)
        requires
            old(self).wf(),
        ensures
            *final(self) == old(self).ready_spec(),
            final(self).wf(),
    {
        self.window_ready = true;
    }

    /// The state after a window event.
    pub open spec fn after_input(self, input: WindowInput) -> LoopState {
        match input {
            WindowInput::Resized { width, height } => LoopState {
                width: at_least_one(width),
                height: at_least_one(height),
                ..self
            },
            WindowInput::ModifiersChanged(bits) => LoopState {
                modifiers: Modifiers::from_bits_spec(bits),
                ..self
            },
            _ => self,
        }
    }

    /// The runner's reaction to a window event, in state `self`.
    pub open spec fn reaction(self, input: WindowInput) -> Reaction {
        let none = Reaction {
            record_scale_factor: false,
            record_cursor: false,
            reconfigure_surface: None,
            resize_renderer: None,
            deliver: None,
        };
        match input {
            WindowInput::CloseRequested => Reaction {
                deliver: Some(Delivery::CloseRequested),
                ..none
            },
            WindowInput::Resized { width, height } => {
                let size = (at_least_one(width), at_least_one(height));
                Reaction {
                    reconfigure_surface: if self.window_ready {
                        Some(size)
                    } else {
                        None
                    },
                    resize_renderer: Some(size),
                    deliver: Some(Delivery::Resized { width: size.0, height: size.1 }),
                    ..none
                }
            },
            WindowInput::ScaleFactorChanged => Reaction { record_scale_factor: true, ..none },
            WindowInput::Focused(focused) => Reaction {
                deliver: Some(Delivery::Focused(focused)),
                ..none
            },
            WindowInput::ModifiersChanged(_) => none,
            WindowInput::KeyboardInput { key, pressed, text } => Reaction {
                deliver: Some(
                    Delivery::Key(
                        KeyEvent { key: key_code(key), pressed, modifiers: self.modifiers, text },
                    ),
                ),
                ..none
            },
            WindowInput::Ime(event) => Reaction { deliver: Some(Delivery::Ime(event)), ..none },
            WindowInput::CursorMoved => Reaction {
                record_cursor: true,
                deliver: Some(Delivery::PointerMoved),
                ..none
            },
            WindowInput::MouseInput { button, pressed } => Reaction {
                deliver: Some(
                    Delivery::MouseButton {
                        button: MouseButton::from_pointer_spec(button),
                        pressed,
                        modifiers: self.modifiers,
                    },
                ),
                ..none
            },
            WindowInput::MouseWheel => Reaction { deliver: Some(Delivery::Scroll), ..none },
            WindowInput::RedrawRequested => Reaction {
                deliver: Some(Delivery::RedrawRequested),
                ..none
            },
            WindowInput::Other => none,
        }
    }

    /// Handles a window event: updates the state and says what to do
    /// before the handler runs, and what to hand it.
    pub fn on_input(&mut self, input: WindowInput) -> (r: Reaction)
        requires
            old(self).wf(),
        ensures
            *final(self) == old(self).after_input(input),
            r == old(self).reaction(input),
            final(self).wf(),
    {
        let none = Reaction {
            record_scale_factor: false,
            record_cursor: false,
            reconfigure_surface: None,
            resize_renderer: None,
            deliver: None,
        };
        match input {
            WindowInput::CloseRequested => Reaction {
                deliver: Some(Delivery::CloseRequested),
                ..none
            },
            WindowInput::Resized { width, height } => {
                let w = clamp_to_one(width);
                let h = clamp_to_one(height);
                self.width = w;
                self.height = h;
                Reaction {
                    reconfigure_surface: if self.window_ready {
                        Some((w, h))
                    } else {
                        None
                    },
                    resize_renderer: Some((w, h)),
                    deliver: Some(Delivery::Resized { width: w, height: h }),
                    ..none
                }
            },
            WindowInput::ScaleFactorChanged => Reaction { record_scale_factor: true, ..none },
            WindowInput::Focused(focused) => Reaction {
                deliver: Some(Delivery::Focused(focused)),
                ..none
            },
            WindowInput::ModifiersChanged(bits) => {
                self.modifiers = Modifiers::from_winit(bits);
                none
            },
            WindowInput::KeyboardInput { key, pressed, text } => {
                let code = KeyCode::from_winit(&key);
                Reaction {
                    deliver: Some(
                        Delivery::Key(
                            KeyEvent { key: code, pressed, modifiers: self.modifiers, text },
                        ),
                    ),
                    ..none
                }
            },
            WindowInput::Ime(event) => Reaction { deliver: Some(Delivery::Ime(event)), ..none },
            WindowInput::CursorMoved => Reaction {
                record_cursor: true,
                deliver: Some(Delivery::PointerMoved),
                ..none
            },
            WindowInput::MouseInput { button, pressed } => Reaction {
                deliver: Some(
                    Delivery::MouseButton {
                        button: MouseButton::from_pointer(button),
                        pressed,
                        modifiers: self.modifiers,
                    },
                ),
                ..none
            },
            WindowInput::MouseWheel => Reaction { deliver: Some(Delivery::Scroll), ..none },
            WindowInput::RedrawRequested => Reaction {
                deliver: Some(Delivery::RedrawRequested),
                ..none
            },
            WindowInput::Other => none,
        }
    }

    /// What the window is asked after the handler answered `resp` to
    /// `delivered`, the window being in fullscreen or not as `fullscreen_now` says.
    pub open spec fn requests(
        self,
        delivered: Delivery,
        resp: EventResponse,
        fullscreen_now: bool,
    ) -> Requests {
        Requests {
            set_title: if self.window_ready {
                resp.set_title
            } else {
                None
            },
            set_cursor_visible: if self.window_ready {
                resp.set_cursor_visible
            } else {
                None
            },
            set_fullscreen: if self.window_ready && resp.toggle_fullscreen {
                Some(!fullscreen_now)
            } else {
                None
            },
            exit: resp.exit || (delivered is CloseRequested && !resp.consumed),
            frame: if delivered is RedrawRequested && self.window_ready {
                FrameStep::AskRenderer
            } else {
                FrameStep::Idle
            },
        }
    }

    /// Carries out the handler's answer `resp` to `delivered`: title, cursor
    /// and fullscreen requests reach a live window, exit is requested when
    /// the handler asks for it or leaves a close request unconsumed, and a
    /// redraw goes on to the renderer.
    pub fn respond(&self, delivered: &Delivery, resp: &EventResponse, fullscreen_now: bool) -> (r:
        Requests)
        ensures
            r == self.requests(*delivered, *resp, fullscreen_now),
    {
        let is_close = match delivered {
            Delivery::CloseRequested => true,
            _ => false,
        };
        let is_redraw = match delivered {
            Delivery::RedrawRequested => true,
            _ => false,
        };
        Requests {
            set_title: if self.window_ready {
                resp.set_title.clone()
            } else {
                None
            },
            set_cursor_visible: if self.window_ready {
                resp.set_cursor_visible
            } else {
                None
            },
            set_fullscreen: if self.window_ready && resp.toggle_fullscreen {
                Some(!fullscreen_now)
            } else {
                None
            },
            exit: resp.exit || (is_close && !resp.consumed),
            frame: if is_redraw && self.window_ready {
                FrameStep::AskRenderer
            } else {
                FrameStep::Idle
            },
        }
    }

    /// The step after the renderer answered whether it needs a frame.
    pub open spec fn after_needs_frame_spec(needed: bool) -> FrameStep {
        if needed {
            FrameStep::Acquire
        } else {
            FrameStep::RequestRedraw
        }
    }

    /// A frame is acquired only when the renderer needs one; otherwise the
    /// window keeps its last frame and is asked for another redraw.
    pub fn after_needs_frame(needed: bool) -> (r: FrameStep)
        ensures
            r == LoopState::after_needs_frame_spec(needed),
    {
        if needed {
            FrameStep::Acquire
        } else {
            FrameStep::RequestRedraw
        }
    }

    /// The state after an acquire with `outcome`.
    pub open spec fn after_acquire(self, outcome: AcquireOutcome) -> LoopState {
        if outcome == AcquireOutcome::Acquired {
            LoopState { first_frame_presented: true, ..self }
        } else {
            self
        }
    }

    /// The plan for an acquire with `outcome`, in state `self`.
    pub open spec fn frame_plan(self, outcome: AcquireOutcome) -> FramePlan {
        let acquired = outcome == AcquireOutcome::Acquired;
        let stale = outcome == AcquireOutcome::Lost || outcome == AcquireOutcome::Outdated;
        FramePlan {
            render: acquired,
            present: acquired,
            restart_frame_clock: acquired,
            reveal_window: acquired && !self.first_frame_presented,
            reconfigure_surface: stale,
            report_error: !acquired && !stale,
            request_redraw: acquired,
        }
    }

    /// Handles the outcome of acquiring a swapchain image. An acquired image
    /// is rendered and presented, the frame clock restarts, and the first
    /// presented frame reveals the window; a lost or outdated surface is
    /// reconfigured; any other error is reported. Only a presented frame
    /// asks for the next redraw.
    pub fn on_acquire(&mut self, outcome: AcquireOutcome) -> (r: FramePlan)
        requires
            old(self).wf(),
            old(self).window_ready,
        ensures
            *final(self) == old(self).after_acquire(outcome),
            r == old(self).frame_plan(outcome),
            final(self).wf(),
    {
        match outcome {
            AcquireOutcome::Acquired => {
                let reveal = !self.first_frame_presented;
                self.first_frame_presented = true;
                FramePlan {
                    render: true,
                    present: true,
                    restart_frame_clock: true,
                    reveal_window: reveal,
                    reconfigure_surface: false,
                    report_error: false,
                    request_redraw: true,
                }
            },
            AcquireOutcome::Lost | AcquireOutcome::Outdated => FramePlan {
                render: false,
                present: false,
                restart_frame_clock: false,
                reveal_window: false,
                reconfigure_surface: true,
                report_error: false,
                request_redraw: false,
            },
            _ => FramePlan {
                render: false,
                present: false,
                restart_frame_clock: false,
                reveal_window: false,
                reconfigure_surface: false,
                report_error: true,
                request_redraw: false,
            },
        }
    }
}


/// A step of the runner that changes its state, for reasoning about runs.
#[derive(Debug, Clone)]
pub enum LoopEvent {
    Resumed,
    WindowCreated(u32, u32),
    GpuReady,
    Input(WindowInput),
    /// An acquire attempt with the given outcome; the runner makes one only
    /// while the window is live.
    Acquire(AcquireOutcome),
}

/// What one pass of the frame pipeline did.
pub struct FrameTick {
    pub acquired: bool,
    pub rendered: bool,
    pub presented: bool,
    pub clock_restarted: bool,
    pub revealed: bool,
}

impl LoopState {
    /// The state after `event`.
    pub open spec fn step(self, event: LoopEvent) -> LoopState {
        match event {
            LoopEvent::Resumed => self,
            LoopEvent::WindowCreated(width, height) => self.created_spec(width, height),
            LoopEvent::GpuReady => self.ready_spec(),
            LoopEvent::Input(input) => self.after_input(input),
            LoopEvent::Acquire(outcome) => if self.window_ready {
                self.after_acquire(outcome)
            } else {
                self
            },
        }
    }

    /// Whether `event` reveals the window.
    pub open spec fn reveals_on(self, event: LoopEvent) -> bool {
        match event {
            LoopEvent::Acquire(outcome) => self.window_ready && self.frame_plan(
                outcome,
            ).reveal_window,
            _ => false,
        }
    }

    /// The state after the events of `run`, in order.
    pub open spec fn after_run(self, run: Seq<LoopEvent>) -> LoopState
        decreases run.len(),
    {
        if run.len() == 0 {
            self
        } else {
            self.step(run[0]).after_run(run.drop_first())
        }
    }

    /// How many events of `run` reveal the window.
    pub open spec fn reveal_count(self, run: Seq<LoopEvent>) -> nat
        decreases run.len(),
    {
        if run.len() == 0 {
            0
        } else {
            (if self.reveals_on(run[0]) {
                1nat
            } else {
                0nat
            }) + self.step(run[0]).reveal_count(run.drop_first())
        }
    }

    /// One pass of the frame pipeline after a redraw was handed to the
    /// handler: the renderer is asked whether it needs a frame (answering
    /// `needed`), and if so an image is acquired with `outcome`.
    pub open spec fn frame_tick(self, needed: bool, outcome: AcquireOutcome) -> FrameTick {
        let asked = self.window_ready;
        let acquired = asked && LoopState::after_needs_frame_spec(needed) == FrameStep::Acquire;
        let plan = self.frame_plan(outcome);
        FrameTick {
            acquired,
            rendered: acquired && plan.render,
            presented: acquired && plan.present,
            clock_restarted: acquired && plan.restart_frame_clock,
            revealed: acquired && plan.reveal_window,
        }
    }
}

/// Every step keeps a presented frame's window live.
pub proof fn step_keeps_wf(s: LoopState, event: LoopEvent)
    requires
        s.wf(),
    ensures
        s.step(event).wf(),
        s.first_frame_presented ==> s.step(event).first_frame_presented,
        s.window_ready ==> s.step(event).window_ready,
{
}

/// Every run keeps the state well formed.
pub proof fn run_keeps_wf(s: LoopState, run: Seq<LoopEvent>)
    requires
        s.wf(),
    ensures
        s.after_run(run).wf(),
    decreases run.len(),
{
    if run.len() > 0 {
        step_keeps_wf(s, run[0]);
        run_keeps_wf(s.step(run[0]), run.drop_first());
    }
}

/// Once the window is live it stays live, so no later resume creates a
/// second window.
pub proof fn live_window_is_never_recreated(s: LoopState, run: Seq<LoopEvent>)
    requires
        s.window_ready,
    ensures
        s.after_run(run).window_ready,
        !s.after_run(run).creates_window(),
    decreases run.len(),
{
    if run.len() > 0 {
        live_window_is_never_recreated(s.step(run[0]), run.drop_first());
    }
}

/// The hidden window is revealed at most once in any run, and never again
/// once a frame has been presented.
pub proof fn window_revealed_at_most_once(s: LoopState, run: Seq<LoopEvent>)
    requires
        s.wf(),
    ensures
        s.reveal_count(run) <= 1,
        s.first_frame_presented ==> s.reveal_count(run) == 0,
    decreases run.len(),
{
    if run.len() > 0 {
        step_keeps_wf(s, run[0]);
        window_revealed_at_most_once(s.step(run[0]), run.drop_first());
        if s.reveals_on(run[0]) {
            assert(s.step(run[0]).first_frame_presented);
        }
    }
}

/// The window is revealed only by the frame that is presented into it.
pub proof fn reveal_follows_a_presented_frame(s: LoopState, needed: bool, outcome: AcquireOutcome)
    ensures
        s.frame_tick(needed, outcome).revealed ==> s.frame_tick(needed, outcome).presented,
        s.frame_tick(needed, outcome).revealed <==> (s.frame_tick(needed, outcome).presented
            && !s.first_frame_presented),
{
}

/// Acquire, render and present move together: nothing is acquired unless
/// the renderer needs a frame, an image is rendered exactly when it is
/// presented, and the frame clock restarts exactly when a frame is presented.
pub proof fn frame_steps_move_together(s: LoopState, needed: bool, outcome: AcquireOutcome)
    ensures
        !needed ==> !s.frame_tick(needed, outcome).acquired,
        s.frame_tick(needed, outcome).rendered == s.frame_tick(needed, outcome).presented,
        s.frame_tick(needed, outcome).clock_restarted == s.frame_tick(needed, outcome).presented,
        s.frame_tick(needed, outcome).presented <==> (s.window_ready && needed && outcome
            == AcquireOutcome::Acquired),
{
}

/// A close request ends the loop unless the handler consumes it (or it asks
/// to exit anyway); any other event ends it only when the handler asks.
pub proof fn close_exits_unless_consumed(
    s: LoopState,
    delivered: Delivery,
    resp: EventResponse,
    fullscreen_now: bool,
)
    ensures
        delivered is CloseRequested ==> (s.requests(delivered, resp, fullscreen_now).exit <==> (
        !resp.consumed || resp.exit)),
        !(delivered is CloseRequested) ==> (s.requests(delivered, resp, fullscreen_now).exit
            <==> resp.exit),
{
}

/// A fullscreen toggle flips the live window's fullscreen state.
pub proof fn fullscreen_toggle_flips(
    s: LoopState,
    delivered: Delivery,
    resp: EventResponse,
    fullscreen_now: bool,
)
    requires
        s.window_ready,
        resp.toggle_fullscreen,
    ensures
        s.requests(delivered, resp, fullscreen_now).set_fullscreen == Some(!fullscreen_now),
{
}

/// After a resize the surface (when live), the renderer, the handler and the
/// state all see the same size, and it is never zero.
pub proof fn resize_is_consistent_and_nonzero(s: LoopState, width: u32, height: u32)
    ensures
        ({
            let input = WindowInput::Resized { width, height };
            let after = s.after_input(input);
            let r = s.reaction(input);
            &&& after.width >= 1 && after.height >= 1
            &&& r.resize_renderer == Some((after.width, after.height))
            &&& s.window_ready ==> r.reconfigure_surface == Some((after.width, after.height))
            &&& r.deliver == Some(Delivery::Resized { width: after.width, height: after.height })
            &&& (width > 0 && height > 0) ==> (after.width == width && after.height == height)
        }),
{
}

/// Key and mouse-button events carry the modifiers last reported, however
/// many other events came in between.
pub proof fn input_carries_latest_modifiers(
    s: LoopState,
    bits: u32,
    between: Seq<WindowInput>,
    key: Key,
    pressed: bool,
    text: Option<String>,
    button: PointerButton,
)
    requires
        forall|i: int| 0 <= i < between.len() ==> !(#[trigger] between[i] is ModifiersChanged),
    ensures
        ({
            let latest = s.after_input(WindowInput::ModifiersChanged(bits)).after_inputs(between);
            &&& latest.reaction(WindowInput::KeyboardInput { key, pressed, text }).deliver
                == Some(
                Delivery::Key(
                    KeyEvent {
                        key: key_code(key),
                        pressed,
                        modifiers: Modifiers::from_bits_spec(bits),
                        text,
                    },
                ),
            )
            &&& latest.reaction(WindowInput::MouseInput { button, pressed }).deliver == Some(
                Delivery::MouseButton {
                    button: MouseButton::from_pointer_spec(button),
                    pressed,
                    modifiers: Modifiers::from_bits_spec(bits),
                },
            )
        }),
{
    inputs_keep_modifiers(s.after_input(WindowInput::ModifiersChanged(bits)), between);
}

impl LoopState {
    /// The state after the window events of `inputs`, in order.
    pub open spec fn after_inputs(self, inputs: Seq<WindowInput>) -> LoopState
        decreases inputs.len(),
    {
        if inputs.len() == 0 {
            self
        } else {
            self.after_input(inputs[0]).after_inputs(inputs.drop_first())
        }
    }
}

/// Window events other than modifier changes leave the modifiers alone.
proof fn inputs_keep_modifiers(s: LoopState, inputs: Seq<WindowInput>)
    requires
        forall|i: int| 0 <= i < inputs.len() ==> !(#[trigger] inputs[i] is ModifiersChanged),
    ensures
        s.after_inputs(inputs).modifiers == s.modifiers,
    decreases inputs.len(),
{
    if inputs.len() > 0 {
        assert(!(inputs[0] is ModifiersChanged));
        let rest = inputs.drop_first();
        assert forall|i: int| 0 <= i < rest.len() implies !(#[trigger] rest[i] is ModifiersChanged) by {
            assert(rest[i] == inputs[i + 1]);
        }
        inputs_keep_modifiers(s.after_input(inputs[0]), rest);
    }
}


/// What each acquire outcome makes of the frame. An acquired image is
/// rendered and presented, restarts the frame clock and asks for the next
/// redraw, every time, not only the first; only the first presented frame
/// reveals the window. A lost or outdated surface is only reconfigured; any
/// other error is only reported. Only an acquired image marks a frame as
/// presented, and nothing else in the state changes.
pub proof fn frame_plan_by_outcome(s: LoopState, outcome: AcquireOutcome)
    ensures
        outcome == AcquireOutcome::Acquired ==> {
            let p = s.frame_plan(outcome);
            &&& p.render && p.present && p.restart_frame_clock && p.request_redraw
            &&& !p.reconfigure_surface && !p.report_error
            &&& p.reveal_window == !s.first_frame_presented
            &&& s.after_acquire(outcome).first_frame_presented
        },
        (outcome == AcquireOutcome::Lost || outcome == AcquireOutcome::Outdated) ==> {
            let p = s.frame_plan(outcome);
            &&& p.reconfigure_surface
            &&& !p.render && !p.present && !p.restart_frame_clock && !p.request_redraw
            &&& !p.reveal_window && !p.report_error
        },
        (outcome == AcquireOutcome::Timeout || outcome == AcquireOutcome::OutOfMemory || outcome
            == AcquireOutcome::Other) ==> {
            let p = s.frame_plan(outcome);
            &&& p.report_error
            &&& !p.render && !p.present && !p.restart_frame_clock && !p.request_redraw
            &&& !p.reveal_window && !p.reconfigure_surface
        },
        s.frame_plan(outcome).request_redraw <==> outcome == AcquireOutcome::Acquired,
        s.frame_plan(outcome).present <==> outcome == AcquireOutcome::Acquired,
        outcome != AcquireOutcome::Acquired ==> s.after_acquire(outcome) == s,
        s.after_acquire(outcome).window_ready == s.window_ready,
        s.after_acquire(outcome).width == s.width,
        s.after_acquire(outcome).height == s.height,
        s.after_acquire(outcome).modifiers == s.modifiers,
{
}

/// Every presented frame asks for the next redraw, however many frames came
/// before it: the render loop keeps running.
pub proof fn presented_frames_keep_redrawing(s: LoopState, run: Seq<LoopEvent>)
    requires
        s.wf(),
        s.window_ready,
    ensures
        s.after_run(run).frame_plan(AcquireOutcome::Acquired).request_redraw,
        s.after_run(run).frame_plan(AcquireOutcome::Acquired).present,
{
}

/// The handler's title and cursor requests reach a live window unchanged,
/// a fullscreen request flips the current state, and nothing reaches a
/// window that is not live. A redraw goes on to the renderer exactly when
/// the window is live; no other event starts the frame pipeline.
pub proof fn handler_requests_reach_a_live_window(
    s: LoopState,
    delivered: Delivery,
    resp: EventResponse,
    fullscreen_now: bool,
)
    ensures
        s.window_ready ==> s.requests(delivered, resp, fullscreen_now).set_title == resp.set_title,
        s.window_ready ==> s.requests(delivered, resp, fullscreen_now).set_cursor_visible
            == resp.set_cursor_visible,
        s.window_ready ==> (s.requests(delivered, resp, fullscreen_now).set_fullscreen == if resp.toggle_fullscreen {
            Some(!fullscreen_now)
        } else {
            None
        }),
        !s.window_ready ==> s.requests(delivered, resp, fullscreen_now).set_title is None,
        !s.window_ready ==> s.requests(delivered, resp, fullscreen_now).set_cursor_visible is None,
        !s.window_ready ==> s.requests(delivered, resp, fullscreen_now).set_fullscreen is None,
        (delivered is RedrawRequested && s.window_ready) ==> s.requests(
            delivered,
            resp,
            fullscreen_now,
        ).frame == FrameStep::AskRenderer,
        !(delivered is RedrawRequested && s.window_ready) ==> s.requests(
            delivered,
            resp,
            fullscreen_now,
        ).frame == FrameStep::Idle,
{
}

/// Window events reach the handler with their values: focus as gained or
/// lost, IME events unchanged, key presses and releases as they happened with
/// the key's code and text, button presses with the mapped button, and
/// close, pointer, scroll and redraw events as themselves. Modifier and
/// scale changes, and unhandled events, reach no handler.
pub proof fn events_reach_the_handler_as_they_happened(
    s: LoopState,
    focused: bool,
    ime: ImeEvent,
    key: Key,
    pressed: bool,
    text: Option<String>,
    button: PointerButton,
    bits: u32,
)
    ensures
        s.reaction(WindowInput::Focused(focused)).deliver == Some(Delivery::Focused(focused)),
        s.reaction(WindowInput::Ime(ime)).deliver == Some(Delivery::Ime(ime)),
        s.reaction(WindowInput::KeyboardInput { key, pressed, text }).deliver matches Some(
            Delivery::Key(k),
        ) && k.key == key_code(key) && k.pressed == pressed && k.text == text && k.modifiers
            == s.modifiers,
        s.reaction(WindowInput::MouseInput { button, pressed }).deliver matches Some(
            Delivery::MouseButton { button: b, pressed: p, modifiers: m },
        ) && b == MouseButton::from_pointer_spec(button) && p == pressed && m == s.modifiers,
        s.reaction(WindowInput::CloseRequested).deliver == Some(Delivery::CloseRequested),
        s.reaction(WindowInput::CursorMoved).deliver == Some(Delivery::PointerMoved),
        s.reaction(WindowInput::CursorMoved).record_cursor,
        s.reaction(WindowInput::MouseWheel).deliver == Some(Delivery::Scroll),
        s.reaction(WindowInput::RedrawRequested).deliver == Some(Delivery::RedrawRequested),
        s.reaction(WindowInput::ModifiersChanged(bits)).deliver is None,
        s.reaction(WindowInput::ScaleFactorChanged).deliver is None,
        s.reaction(WindowInput::ScaleFactorChanged).record_scale_factor,
        s.reaction(WindowInput::Other).deliver is None,
{
}

/// Only a resize changes the size and only a modifier change changes the
/// modifiers; no window event changes whether the window is live or whether
/// a frame has been presented.
pub proof fn inputs_change_only_their_part(s: LoopState, input: WindowInput)
    ensures
        s.after_input(input).window_ready == s.window_ready,
        s.after_input(input).first_frame_presented == s.first_frame_presented,
        !(input is Resized) ==> s.after_input(input).width == s.width && s.after_input(
            input,
        ).height == s.height,
        !(input is ModifiersChanged) ==> s.after_input(input).modifiers == s.modifiers,
{
}

} // verus!
