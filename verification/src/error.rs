//! The error kinds carried by `CardinalError`.
use vstd::prelude::*;
use crate::capability::{DownlevelFlags, FeatureSet, ShaderModel};

verus! {

/// Failures of the graphics side.
#[derive(Clone, Copy, Debug, PartialEq, Eq, Structural)]
pub enum GFXError {
    /// The host lacks these required features.
    MissingFeatures(FeatureSet),
    /// The host lacks these required downlevel capability flags.
    MissingDownlevelFlags(DownlevelFlags),
    /// The host's shader model ranks below the required one.
    ShaderModelTooLow { required: ShaderModel, available: ShaderModel },
    /// No frame could be acquired, even after the surface was reconfigured.
    SurfaceLost,
}

/// A failure that a component reports of its own state. The library makes
/// none itself; the code is the component's own.
#[derive(Clone, Copy, Debug, PartialEq, Eq, Structural)]
pub struct StateError {
    pub code: u32,
}

} // verus!
