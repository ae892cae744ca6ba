use madori::{
    AcquireOutcome, AppConfig, Delivery, EventResponse, FrameStep, ImeEvent, Key, KeyCode,
    LoopState, MadoriError, MouseButton, NamedKey, PointerButton, StartupFailure, WindowInput,
};

fn live_state() -> LoopState {
    let mut s = LoopState::new();
    s.on_window_created(1024, 768);
    s.on_gpu_ready();
    s
}

#[test]
fn resume_creates_a_window_only_once() {
    let config = AppConfig::default();
    let mut s = LoopState::new();
    let spec = s.on_resumed(&config).expect("first resume creates the window");
    assert!(!spec.visible);
    assert_eq!(spec.width, 1280);
    s.on_window_created(2560, 1440);
    assert_eq!((s.width, s.height), (2560, 1440));
    assert!(!s.window_ready);
    s.on_gpu_ready();
    assert!(s.window_ready);
    assert!(s.on_resumed(&config).is_none());
}

#[test]
fn resize_clamps_to_one_and_reaches_everyone() {
    let mut s = live_state();
    let r = s.on_input(WindowInput::Resized { width: 0, height: 500 });
    assert_eq!((s.width, s.height), (1, 500));
    assert_eq!(r.reconfigure_surface, Some((1, 500)));
    assert_eq!(r.resize_renderer, Some((1, 500)));
    match r.deliver {
        Some(Delivery::Resized { width, height }) => assert_eq!((width, height), (1, 500)),
        other => panic!("unexpected delivery {other:?}"),
    }
}

#[test]
fn resize_before_gpu_leaves_the_surface_alone() {
    let mut s = LoopState::new();
    let r = s.on_input(WindowInput::Resized { width: 300, height: 200 });
    assert_eq!(r.reconfigure_surface, None);
    assert_eq!(r.resize_renderer, Some((300, 200)));
}

#[test]
fn close_exits_unless_consumed() {
    let s = live_state();
    let close = Delivery::CloseRequested;
    assert!(s.respond(&close, &EventResponse::ignored(), false).exit);
    assert!(!s.respond(&close, &EventResponse::consumed(), false).exit);
    let mut resp = EventResponse::consumed();
    resp.exit = true;
    assert!(s.respond(&close, &resp, false).exit);
    assert!(!s.respond(&Delivery::Focused(true), &EventResponse::ignored(), false).exit);
}

#[test]
fn requests_reach_only_a_live_window() {
    let mut resp = EventResponse::consumed();
    resp.set_title = Some("hello".into());
    resp.set_cursor_visible = Some(false);
    resp.toggle_fullscreen = true;
    let live = live_state();
    let r = live.respond(&Delivery::Focused(true), &resp, false);
    assert_eq!(r.set_title.as_deref(), Some("hello"));
    assert_eq!(r.set_cursor_visible, Some(false));
    assert_eq!(r.set_fullscreen, Some(true));
    assert_eq!(live.respond(&Delivery::Focused(true), &resp, true).set_fullscreen, Some(false));
    let idle = LoopState::new();
    let r = idle.respond(&Delivery::Focused(true), &resp, false);
    assert!(r.set_title.is_none());
    assert!(r.set_cursor_visible.is_none());
    assert!(r.set_fullscreen.is_none());
}

#[test]
fn redraw_goes_to_the_renderer_only_when_live() {
    let live = live_state();
    let r = live.respond(&Delivery::RedrawRequested, &EventResponse::ignored(), false);
    assert_eq!(r.frame, FrameStep::AskRenderer);
    let idle = LoopState::new();
    let r = idle.respond(&Delivery::RedrawRequested, &EventResponse::ignored(), false);
    assert_eq!(r.frame, FrameStep::Idle);
    let r = live.respond(&Delivery::Focused(false), &EventResponse::ignored(), false);
    assert_eq!(r.frame, FrameStep::Idle);
}

#[test]
fn skipped_frame_acquires_nothing() {
    assert_eq!(LoopState::after_needs_frame(false), FrameStep::RequestRedraw);
    assert_eq!(LoopState::after_needs_frame(true), FrameStep::Acquire);
}

#[test]
fn first_presented_frame_reveals_the_window_once() {
    let mut s = live_state();
    let first = s.on_acquire(AcquireOutcome::Acquired);
    assert!(first.render && first.present && first.restart_frame_clock);
    assert!(first.reveal_window);
    assert!(first.request_redraw);
    let second = s.on_acquire(AcquireOutcome::Acquired);
    assert!(second.present);
    assert!(!second.reveal_window);
}

#[test]
fn failed_acquire_presents_nothing() {
    let mut s = live_state();
    for outcome in [AcquireOutcome::Lost, AcquireOutcome::Outdated] {
        let plan = s.on_acquire(outcome);
        assert!(plan.reconfigure_surface);
        assert!(!plan.render && !plan.present && !plan.restart_frame_clock);
        assert!(!plan.reveal_window && !plan.request_redraw && !plan.report_error);
    }
    for outcome in [AcquireOutcome::Timeout, AcquireOutcome::OutOfMemory, AcquireOutcome::Other] {
        let plan = s.on_acquire(outcome);
        assert!(plan.report_error);
        assert!(!plan.render && !plan.present && !plan.reconfigure_surface);
    }
    assert!(!s.first_frame_presented);
}

#[test]
fn key_events_carry_the_latest_modifiers() {
    let mut s = live_state();
    s.on_input(WindowInput::ModifiersChanged(0b100 << 3));
    s.on_input(WindowInput::Focused(true));
    let r = s.on_input(WindowInput::KeyboardInput {
        key: Key::Character("c".into()),
        pressed: true,
        text: Some("c".into()),
    });
    match r.deliver {
        Some(Delivery::Key(k)) => {
            assert_eq!(k.key, KeyCode::Char('c'));
            assert!(k.pressed);
            assert!(k.modifiers.ctrl && !k.modifiers.shift);
            assert_eq!(k.text.as_deref(), Some("c"));
        }
        other => panic!("unexpected delivery {other:?}"),
    }
    let r = s.on_input(WindowInput::MouseInput { button: PointerButton::Back, pressed: false });
    match r.deliver {
        Some(Delivery::MouseButton { button, pressed, modifiers }) => {
            assert_eq!(button, MouseButton::Left);
            assert!(!pressed);
            assert!(modifiers.ctrl);
        }
        other => panic!("unexpected delivery {other:?}"),
    }
}

#[test]
fn pointer_and_scale_events_are_recorded() {
    let mut s = live_state();
    let r = s.on_input(WindowInput::ScaleFactorChanged);
    assert!(r.record_scale_factor && r.deliver.is_none());
    let r = s.on_input(WindowInput::CursorMoved);
    assert!(r.record_cursor);
    assert!(matches!(r.deliver, Some(Delivery::PointerMoved)));
    let r = s.on_input(WindowInput::MouseWheel);
    assert!(matches!(r.deliver, Some(Delivery::Scroll)));
    let r = s.on_input(WindowInput::Ime(ImeEvent::Commit("日本".into())));
    assert!(matches!(r.deliver, Some(Delivery::Ime(ImeEvent::Commit(ref t))) if t == "日本"));
    let r = s.on_input(WindowInput::Other);
    assert!(r.deliver.is_none() && !r.record_cursor && !r.record_scale_factor);
    let r = s.on_input(WindowInput::KeyboardInput {
        key: Key::Named(NamedKey::Escape),
        pressed: true,
        text: None,
    });
    assert!(matches!(r.deliver, Some(Delivery::Key(ref k)) if k.key == KeyCode::Escape));
}

#[test]
fn failed_startup_reports_and_exits() {
    let mut s = LoopState::new();
    s.on_window_created(640, 480);
    let shutdown = s.on_startup_failed(StartupFailure::GpuInit("no adapter".into()));
    assert!(shutdown.exit);
    assert!(matches!(shutdown.error, MadoriError::GpuInit(ref d) if d == "no adapter"));
    assert_eq!(shutdown.log_line, "GPU initialization failed: no adapter");
    let shutdown = s.on_startup_failed(StartupFailure::WindowCreation("no display".into()));
    assert!(shutdown.exit);
    assert!(matches!(shutdown.error, MadoriError::Window(ref d) if d == "no display"));
    assert_eq!(shutdown.log_line, "failed to create window: no display");
    assert!(!s.window_ready);
    assert!(s.on_resumed(&AppConfig::default()).is_some());
}
