use madori::{MadoriError, Result};

#[test]
fn gpu_init_display() {
    let e = MadoriError::GpuInit("no adapter".into());
    assert_eq!(e.to_string(), "GPU initialization failed: no adapter");
}

#[test]
fn window_display() {
    let e = MadoriError::Window("no display".into());
    assert_eq!(e.to_string(), "window creation failed: no display");
}

#[test]
fn render_display() {
    let e = MadoriError::Render("surface lost".into());
    assert_eq!(e.to_string(), "render error: surface lost");
}

#[test]
fn event_loop_display() {
    let e = MadoriError::EventLoop("killed".into());
    assert_eq!(e.to_string(), "event loop error: killed");
}

#[test]
fn result_alias_is_std_result() {
    fn ok() -> Result<u8> { Ok(7) }
    fn err() -> Result<u8> { Err(MadoriError::Render("x".into())) }
    assert_eq!(ok().unwrap(), 7);
    assert!(err().is_err());
}

#[test]
fn variants_are_distinguishable() {
    let cases: Vec<MadoriError> = vec![
        MadoriError::GpuInit("a".into()),
        MadoriError::Window("b".into()),
        MadoriError::Render("c".into()),
        MadoriError::EventLoop("d".into()),
    ];
    for case in cases {
        match case {
            MadoriError::GpuInit(s) => assert_eq!(s, "a"),
            MadoriError::Window(s) => assert_eq!(s, "b"),
            MadoriError::Render(s) => assert_eq!(s, "c"),
            MadoriError::EventLoop(s) => assert_eq!(s, "d"),
            MadoriError::Garasu(_) => panic!("Garasu matched non-Garasu"),
        }
    }
}

#[test]
fn garasu_from_conversion_preserves_source() {
    let inner = garasu::GarasuError::Gpu("adapter missing".into());
    let outer: MadoriError = inner.into();
    match &outer {
        MadoriError::Garasu(_) => {}
        other => panic!("expected Garasu variant, got {other:?}"),
    }
    assert_eq!(outer.to_string(), "garasu error: GPU error: adapter missing");
}

#[test]
fn empty_detail_leaves_the_prefix() {
    assert_eq!(MadoriError::GpuInit(String::new()).to_string(), "GPU initialization failed: ");
}

#[test]
fn garasu_message_of_each_string_kind() {
    let cases = [
        (garasu::GarasuError::Shader("bad wgsl".into()), "garasu error: shader error: bad wgsl"),
        (garasu::GarasuError::Window("gone".into()), "garasu error: window error: gone"),
    ];
    for (inner, expected) in cases {
        assert_eq!(MadoriError::from(inner).to_string(), expected);
    }
    let io = std::io::Error::new(std::io::ErrorKind::NotFound, "file missing");
    let text = MadoriError::from(garasu::GarasuError::Io(io)).to_string();
    assert!(text.starts_with("garasu error: I/O error: "));
}
