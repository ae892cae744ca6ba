//! Window-application plumbing: the configuration, the input model and the
//! decisions of the event loop, each with its contract.

pub mod app;
pub mod error;
pub mod event;
pub mod event_loop;

pub use app::{AlphaMode, AppConfig, PresentMode, SurfaceCaps, SurfacePlan, WindowSpec};
pub use error::{MadoriError, Result};
pub use event::{
    EventResponse, ImeEvent, Key, KeyCode, KeyEvent, Modifiers, MouseButton, NamedKey,
    PointerButton,
};
pub use event_loop::{
    AcquireOutcome, Delivery, FramePlan, FrameStep, LoopState, Reaction, Requests, Shutdown,
    StartupFailure, WindowInput,
};
