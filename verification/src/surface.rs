//! The configuration of the one presentable surface.
use vstd::prelude::*;

verus! {

/// The pixel formats a surface may be presented in.
#[derive(Clone, Copy, Debug, PartialEq, Eq, Structural)]
pub enum TextureFormat {
    Bgra8Unorm,
    Bgra8UnormSrgb,
    Rgba8Unorm,
    Rgba8UnormSrgb,
    Rgba16Float,
    Rgb10a2Unorm,
}

/// How finished frames reach the display.
#[derive(Clone, Copy, Debug, PartialEq, Eq, Structural)]
pub enum PresentMode {
    Immediate,
    /// Only the newest finished frame is kept; older ones are dropped.
    Mailbox,
    Fifo,
}

/// The usage flag of a texture that is rendered into.
pub const RENDER_ATTACHMENT: u32 = 16;

pub open spec fn at_least_one(side: u32) -> u32 {
    if side == 0 {
        1
    } else {
        side
    }
}

/// Raises a side of zero to one.
pub fn clamp_side(side: u32) -> (r: u32)
    ensures
        r == at_least_one(side),
        r >= 1,
{
    if side == 0 {
        1
    } else {
        side
    }
}

/// Format, size, usage and presentation mode of the surface.
#[derive(Clone, Copy, Debug, PartialEq, Eq, Structural)]
pub struct SurfaceConfiguration {
    pub usage: u32,
    pub format: TextureFormat,
    pub width: u32,
    pub height: u32,
    pub present_mode: PresentMode,
}

impl SurfaceConfiguration {
    /// A surface always has at least one pixel in each direction.
    pub open spec fn wf(self) -> bool {
        self.width >= 1 && self.height >= 1
    }

    /// `self` with a new size, each side raised to at least one.
    pub open spec fn resized_spec(self, width: u32, height: u32) -> SurfaceConfiguration {
        SurfaceConfiguration { width: at_least_one(width), height: at_least_one(height), ..self }
    }

    /// A render target in mailbox mode with the given format and size.
    pub fn new(format: TextureFormat, width: u32, height: u32) -> (r: SurfaceConfiguration)
        ensures
            r.wf(),
            r == (SurfaceConfiguration {
                usage: RENDER_ATTACHMENT,
                format,
                width: at_least_one(width),
                height: at_least_one(height),
                present_mode: PresentMode::Mailbox,
            }),
    {
        SurfaceConfiguration {
            usage: RENDER_ATTACHMENT,
            format,
            width: clamp_side(width),
            height: clamp_side(height),
            present_mode: PresentMode::Mailbox,
        }
    }

    /// The configuration after a change of size.
    pub fn resized(self, width: u32, height: u32) -> (r: SurfaceConfiguration)
        ensures
            r == self.resized_spec(width, height),
            r.wf(),
    {
        SurfaceConfiguration { width: clamp_side(width), height: clamp_side(height), ..self }
    }

    /// Takes a new size in place; format, usage and mode stay.
    pub fn resize(&mut self, width: u32, height: u32)
        ensures
            *final(self) == old(self).resized_spec(width, height),
            final(self).wf(),
    {
        self.width = clamp_side(width);
        self.height = clamp_side(height);
    }
}

/// Taking the same size a second time changes nothing.
pub proof fn resize_is_idempotent(config: SurfaceConfiguration, width: u32, height: u32)
    ensures
        config.resized_spec(width, height).resized_spec(width, height) == config.resized_spec(
            width,
            height,
        ),
{
}

/// Taking the size that a valid configuration already has leaves it as it
/// is.
pub proof fn resize_to_same_size_is_identity(config: SurfaceConfiguration)
    requires
        config.wf(),
    ensures
        config.resized_spec(config.width, config.height) == config,
{
}

} // verus!
