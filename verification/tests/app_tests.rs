use madori::{AlphaMode, AppConfig, EventResponse, PresentMode, SurfaceCaps, SurfacePlan, WindowSpec};

#[test]
fn app_config_defaults() {
    let config = AppConfig::default();
    assert_eq!(config.width, 1280);
    assert_eq!(config.height, 720);
    assert!(config.resizable);
    assert!(config.vsync);
    assert!(!config.transparent);
}

#[test]
fn app_event_response_from_bool() {
    let resp: EventResponse = true.into();
    assert!(resp.consumed);
    assert!(!resp.exit);
    assert!(resp.set_title.is_none());

    let resp: EventResponse = false.into();
    assert!(!resp.consumed);
}

#[test]
fn app_config_default_title_and_decorations() {
    let config = AppConfig::default();
    assert_eq!(config.title, "pleme-io");
    assert!(config.decorations);
}

#[test]
fn window_spec_follows_config_and_starts_hidden() {
    let config = AppConfig {
        title: "Test".into(),
        width: 800,
        height: 600,
        resizable: false,
        vsync: true,
        transparent: true,
        decorations: false,
    };
    let spec = WindowSpec::for_config(&config);
    assert_eq!(spec.title, "Test");
    assert_eq!(spec.width, 800);
    assert_eq!(spec.height, 600);
    assert!(!spec.resizable);
    assert!(spec.transparent);
    assert!(!spec.decorations);
    assert!(!spec.visible);
}

#[test]
fn surface_plan_prefers_first_srgb_format() {
    let config = AppConfig::default();
    let caps = SurfaceCaps {
        formats_srgb: vec![false, true, true],
        alpha_modes: vec![AlphaMode::PostMultiplied, AlphaMode::Opaque],
    };
    let plan = SurfacePlan::plan(&config, 2560, 1440, &caps);
    assert_eq!(plan.format_index, 1);
    assert_eq!(plan.alpha_mode, AlphaMode::Opaque);
    assert_eq!(plan.present_mode, PresentMode::AutoVsync);
    assert_eq!(plan.width, 2560);
    assert_eq!(plan.height, 1440);
    assert_eq!(plan.max_frame_latency, 1);
}

#[test]
fn surface_plan_falls_back_to_first_entries() {
    let config = AppConfig { vsync: false, ..AppConfig::default() };
    let caps = SurfaceCaps {
        formats_srgb: vec![false, false],
        alpha_modes: vec![AlphaMode::Inherit, AlphaMode::PreMultiplied],
    };
    let plan = SurfacePlan::plan(&config, 0, 0, &caps);
    assert_eq!(plan.format_index, 0);
    assert_eq!(plan.alpha_mode, AlphaMode::Inherit);
    assert_eq!(plan.present_mode, PresentMode::AutoNoVsync);
    assert_eq!(plan.width, 1);
    assert_eq!(plan.height, 1);
}

#[test]
fn surface_plan_without_srgb_takes_the_first_of_many() {
    let config = AppConfig::default();
    let caps = SurfaceCaps {
        formats_srgb: vec![false, false, false, false],
        alpha_modes: vec![AlphaMode::Auto],
    };
    let plan = SurfacePlan::plan(&config, 10, 20, &caps);
    assert_eq!(plan.format_index, 0);
    assert_eq!(plan.alpha_mode, AlphaMode::Auto);
}

#[test]
fn config_setters_change_only_their_fields() {
    let config = AppConfig::default().with_title("Test".into()).with_size(800, 600);
    assert_eq!(config.title, "Test");
    assert_eq!(config.width, 800);
    assert_eq!(config.height, 600);
    assert!(config.resizable && config.vsync && !config.transparent && config.decorations);
}
