//! Plain value types shared across the bootstrap stages: pixel extents,
//! surface formats and presentation modes, with the named constants the
//! selection policies refer to.

use vstd::prelude::*;

verus! {

/// A pixel size in two dimensions, as the driver and the window system
/// report it.
#[derive(Clone, Copy, Debug, PartialEq, Eq, Structural)]
pub struct Extent2D {
    pub width: u32,
    pub height: u32,
}

/// A surface format: a pixel format code paired with a color-space code,
/// both as the driver enumerates them.
#[derive(Clone, Copy, Debug, PartialEq, Eq, Structural)]
pub struct SurfaceFormat {
    pub format: u32,
    pub color_space: u32,
}

/// Pixel format code of 8-bit-per-channel BGRA with sRGB encoding.
pub const FORMAT_B8G8R8A8_SRGB: u32 = 50;

/// Color-space code of non-linear sRGB.
pub const COLOR_SPACE_SRGB_NONLINEAR: u32 = 0;

/// The surface format the swapchain prefers when the driver offers it.
pub open spec fn preferred_surface_format() -> SurfaceFormat {
    SurfaceFormat { format: FORMAT_B8G8R8A8_SRGB, color_space: COLOR_SPACE_SRGB_NONLINEAR }
}

/// A presentation mode, as the driver enumerates them.
#[derive(Clone, Copy, Debug, PartialEq, Eq, Structural)]
pub enum PresentMode {
    Immediate,
    Mailbox,
    Fifo,
    FifoRelaxed,
}

/// The sentinel width (and height) by which a driver reports that the
/// surface takes any size, leaving the choice to the application.
pub const EXTENT_ANY: u32 = 0xFFFF_FFFF;

} // verus!
