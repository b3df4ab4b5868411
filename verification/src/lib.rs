//! A frame-driving core for real-time rendering: capability negotiation,
//! surface configuration, frame pacing and an ordered tree of components.
use vstd::prelude::*;

pub mod capability;
pub mod error;
pub mod surface;
pub mod component;
pub mod scene;
pub mod scheduler;
pub mod driver;

pub use capability::{
    negotiate, ComponentRequirements, DeviceRequest, DownlevelFlags, FeatureSet, HostCapabilities,
    Limits, ShaderModel,
};
pub use component::text::{text, Text};
pub use component::two::Two;
pub use component::bin::Bin;
pub use component::{Call, CallKind, Component, Defaulted, Empty, InputEvent};
pub use driver::Driver;
pub use error::{GFXError, StateError};
pub use scene::{scene, Scene};
pub use scheduler::{key_event, pace, step, Action, Directive, Event, LoopState, Scheduler};
pub use surface::{PresentMode, SurfaceConfiguration, TextureFormat};

verus! {

/// Every failure that a lifecycle call or the frame loop can report.
#[derive(Clone, Copy, Debug, PartialEq, Eq, Structural)]
pub enum CardinalError {
    /// The graphics side failed: negotiation or presentation.
    GFX(GFXError),
    /// A component reports a failure of its own state.
    State(StateError),
}

pub type CardinalResult<T> = Result<T, CardinalError>;

} // verus!
