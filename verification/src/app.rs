use vstd::prelude::*;

verus! {

/// Configuration for creating an App.
#[derive(Debug, Clone)]
pub struct AppConfig {
    pub title: String,
    pub width: u32,
    pub height: u32,
    pub resizable: bool,
    pub vsync: bool,
    pub transparent: bool,
    /// Show server/window-manager decorations (titlebar, border,
    /// close/minimize buttons). When `false` the window is borderless:
    /// the entire surface is the application's canvas.
    ///
    /// Default: `true`.
    pub decorations: bool,
}

impl Default for AppConfig {
    /// A 1280x720 resizable, vsynced, opaque, decorated window titled "pleme-io".
    fn default() -> (r: AppConfig)
        ensures
            r.title@ == "pleme-io"@,
            r.width == 1280,
            r.height == 720,
            r.resizable,
            r.vsync,
            !r.transparent,
            r.decorations,
    {
        AppConfig {
            title: String::from_str("pleme-io"),
            width: 1280,
            height: 720,
            resizable: true,
            vsync: true,
            transparent: false,
            decorations: true,
        }
    }
}

impl AppConfig {
    /// The same configuration with another title.
    pub fn with_title(self, title: String) -> (r: AppConfig)
        ensures
            r == (AppConfig { title, ..self }),
    {
        AppConfig { title, ..self }
    }

    /// The same configuration with another window size (in logical pixels).
    pub fn with_size(self, width: u32, height: u32) -> (r: AppConfig)
        ensures
            r == (AppConfig { width, height, ..self }),
    {
        AppConfig { width, height, ..self }
    }
}

/// The attributes of the window the application opens.
#[derive(Debug, Clone)]
pub struct WindowSpec {
    pub title: String,
    /// Inner size in logical pixels (scaled by the display's scale factor).
    pub width: u32,
    pub height: u32,
    pub resizable: bool,
    pub transparent: bool,
    pub decorations: bool,
    /// Whether the window is shown on creation.
    pub visible: bool,
}

impl WindowSpec {
    /// The window for `config`: its title, size, resizability, transparency
    /// and decorations, hidden.
    pub open spec fn for_config_spec(config: AppConfig) -> WindowSpec {
        WindowSpec {
            title: config.title,
            width: config.width,
            height: config.height,
            resizable: config.resizable,
            transparent: config.transparent,
            decorations: config.decorations,
            visible: false,
        }
    }

    /// The window for `config`. It starts hidden: until the first frame is
    /// presented its surface holds uninitialised memory.
    pub fn for_config(config: &AppConfig) -> (r: WindowSpec)
        ensures
            r == WindowSpec::for_config_spec(*config),
            r.title@ == config.title@,
            r.width == config.width,
            r.height == config.height,
            r.resizable == config.resizable,
            r.transparent == config.transparent,
            r.decorations == config.decorations,
            !r.visible,
    {
        WindowSpec {
            title: config.title.clone(),
            width: config.width,
            height: config.height,
            resizable: config.resizable,
            transparent: config.transparent,
            decorations: config.decorations,
            visible: false,
        }
    }
}

/// How the surface paces presentation (the `wgpu::PresentMode`s used here).
#[derive(Debug, Clone, Copy, PartialEq, Eq, Structural)]
pub enum PresentMode {
    AutoVsync,
    AutoNoVsync,
}

/// How the compositor blends the surface (the variants of `wgpu::CompositeAlphaMode`).
#[derive(Debug, Clone, Copy, PartialEq, Eq, Structural)]
pub enum AlphaMode {
    Auto,
    Opaque,
    PreMultiplied,
    PostMultiplied,
    Inherit,
}

/// What the surface supports, as the configuration reads it: for each
/// supported texture format (in the adapter's order) whether it is sRGB,
/// and the supported alpha modes (in the adapter's order).
#[derive(Debug, Clone)]
pub struct SurfaceCaps {
    pub formats_srgb: Vec<bool>,
    pub alpha_modes: Vec<AlphaMode>,
}

/// The surface configuration to apply.
#[derive(Debug, Clone, Copy)]
pub struct SurfacePlan {
    /// Index of the chosen texture format among the supported ones.
    pub format_index: usize,
    pub present_mode: PresentMode,
    pub alpha_mode: AlphaMode,
    /// Surface size in physical pixels, never zero.
    pub width: u32,
    pub height: u32,
    /// Frames the swapchain may hold in flight.
    pub max_frame_latency: u32,
}

/// `n`, but at least 1.
pub open spec fn at_least_one(n: u32) -> u32 {
    if n == 0 {
        1
    } else {
        n
    }
}

/// `n`, but at least 1.
pub fn clamp_to_one(n: u32) -> (r: u32)
    ensures
        r == at_least_one(n),
{
    if n == 0 {
        1
    } else {
        n
    }
}

/// The format to use among formats whose sRGB flags are `srgb`: the first
/// sRGB one, else the first one.
pub open spec fn chosen_format(srgb: Seq<bool>, i: int) -> bool {
    &&& 0 <= i < srgb.len()
    &&& forall|j: int| 0 <= j < i ==> !srgb[j]
    &&& srgb[i] || (i == 0 && forall|j: int| 0 <= j < srgb.len() ==> !srgb[j])
}

/// The alpha mode to use among `modes`: opaque where offered, else the first.
pub open spec fn chosen_alpha(modes: Seq<AlphaMode>) -> AlphaMode {
    if modes.contains(AlphaMode::Opaque) {
        AlphaMode::Opaque
    } else {
        modes[0]
    }
}

/// The present mode for the vsync setting.
pub open spec fn chosen_present_mode(vsync: bool) -> PresentMode {
    if vsync {
        PresentMode::AutoVsync
    } else {
        PresentMode::AutoNoVsync
    }
}

impl SurfacePlan {
    /// Configures the surface of a `width` x `height` window for `config`,
    /// given what the surface supports (at least one format and one alpha mode).
    pub fn plan(config: &AppConfig, width: u32, height: u32, caps: &SurfaceCaps) -> (r:
        SurfacePlan)
        requires
            caps.formats_srgb.len() > 0,
            caps.alpha_modes.len() > 0,
        ensures
            chosen_format(caps.formats_srgb@, r.format_index as int),
            r.present_mode == chosen_present_mode(config.vsync),
            r.alpha_mode == chosen_alpha(caps.alpha_modes@),
            r.width == at_least_one(width),
            r.height == at_least_one(height),
            r.max_frame_latency == 1,
    {
        let n = caps.formats_srgb.len();
        let mut format_index: usize = 0;
        let mut i: usize = 0;
        while i < n
            invariant_except_break
                n == caps.formats_srgb.len(),
                n > 0,
                i <= n,
                format_index == 0,
                forall|j: int| 0 <= j < i ==> !caps.formats_srgb@[j],
            ensures
                chosen_format(caps.formats_srgb@, format_index as int),
            decreases n - i,
        {
            if caps.formats_srgb[i] {
                format_index = i;
                break;
            }
            i = i + 1;
        }
        let mut opaque_offered = false;
        let m = caps.alpha_modes.len();
        let mut k: usize = 0;
        while k < m
            invariant
                m == caps.alpha_modes.len(),
                k <= m,
                opaque_offered <==> exists|j: int|
                    0 <= j < k && caps.alpha_modes@[j] == AlphaMode::Opaque,
            decreases m - k,
        {
            if caps.alpha_modes[k] == AlphaMode::Opaque {
                opaque_offered = true;
            }
            k = k + 1;
        }
        let alpha_mode = if opaque_offered {
            AlphaMode::Opaque
        } else {
            caps.alpha_modes[0]
        };
        let present_mode = if config.vsync {
            PresentMode::AutoVsync
        } else {
            PresentMode::AutoNoVsync
        };
        SurfacePlan {
            format_index,
            present_mode,
            alpha_mode,
            width: clamp_to_one(width),
            height: clamp_to_one(height),
            max_frame_latency: 1,
        }
    }
}


/// The window opened for a configuration has exactly its title, size,
/// resizability, transparency and decorations, and starts hidden.
pub proof fn window_follows_config(config: AppConfig)
    ensures
        WindowSpec::for_config_spec(config).title == config.title,
        WindowSpec::for_config_spec(config).width == config.width,
        WindowSpec::for_config_spec(config).height == config.height,
        WindowSpec::for_config_spec(config).resizable == config.resizable,
        WindowSpec::for_config_spec(config).transparent == config.transparent,
        WindowSpec::for_config_spec(config).decorations == config.decorations,
        !WindowSpec::for_config_spec(config).visible,
{
}

/// Opaque alpha is chosen whenever the surface offers it, wherever it stands
/// in the list; otherwise the first offered mode. Vsync selects the vsynced
/// present mode and its absence the unsynced one.
pub proof fn surface_choices_follow_caps(modes: Seq<AlphaMode>, i: int)
    requires
        0 <= i < modes.len(),
    ensures
        modes[i] == AlphaMode::Opaque ==> chosen_alpha(modes) == AlphaMode::Opaque,
        (forall|j: int| 0 <= j < modes.len() ==> modes[j] != AlphaMode::Opaque) ==> chosen_alpha(
            modes,
        ) == modes[0],
        chosen_present_mode(true) == PresentMode::AutoVsync,
        chosen_present_mode(false) == PresentMode::AutoNoVsync,
{
    if modes[i] == AlphaMode::Opaque {
        assert(modes.contains(AlphaMode::Opaque));
    }
}

/// Without an sRGB format the first format is chosen; with one, the first
/// sRGB format, and no later one.
pub proof fn format_choice_is_first(srgb: Seq<bool>, i: int, k: int)
    requires
        chosen_format(srgb, i),
    ensures
        (forall|j: int| 0 <= j < srgb.len() ==> !srgb[j]) ==> i == 0,
        0 <= k < srgb.len() && srgb[k] ==> srgb[i] && i <= k,
        chosen_format(srgb, k) ==> k == i,
{
}

} // verus!
